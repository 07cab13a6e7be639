//! The table: a fixed row of forks, each free or in one philosopher's hand.

use vstd::prelude::*;

verus! {

/// A table without a fork in anyone's hand.
pub open spec fn all_free(forks: nat) -> Seq<Option<usize>> {
    Seq::new(forks, |i: int| None::<usize>)
}

/// The forks after `owner` reached for `fork`: the fork passes to `owner`
/// where it lay free, and nothing changes where somebody has it.
pub open spec fn after_lock(forks: Seq<Option<usize>>, fork: int, owner: usize) -> Seq<
    Option<usize>,
> {
    if forks[fork] is None {
        forks.update(fork, Some(owner))
    } else {
        forks
    }
}

/// The forks after `owner` let go of `fork`: the fork lies free where
/// `owner` had it, and nothing changes where `owner` did not.
pub open spec fn after_unlock(forks: Seq<Option<usize>>, fork: int, owner: usize) -> Seq<
    Option<usize>,
> {
    if forks[fork] == Some(owner) {
        forks.update(fork, None)
    } else {
        forks
    }
}

/// The forks of one table, numbered from zero. Each fork records who has
/// it, so a fork is never in two hands.
#[derive(Debug)]
pub struct Table {
    forks: Vec<Option<usize>>,
}

impl View for Table {
    type V = Seq<Option<usize>>;

    /// For each fork, the number of the philosopher who has it, if any.
    closed spec fn view(&self) -> Seq<Option<usize>> {
        self.forks@
    }
}

impl Table {
    /// Lays a table with `forks` free forks.
    pub fn new(forks: usize) -> (table: Table)
        ensures
            table@ == all_free(forks as nat),
    {
        let mut row: Vec<Option<usize>> = Vec::new();
        let mut k: usize = 0;
        while k < forks
            invariant
                k <= forks,
                row@ == all_free(k as nat),
            decreases forks - k,
        {
            row.push(None);
            k = k + 1;
        }
        Table { forks: row }
    }

    /// The number of forks.
    pub fn len(&self) -> (forks: usize)
        ensures
            forks == self@.len(),
    {
        self.forks.len()
    }

    /// Who has `fork`, if anyone.
    pub fn holder(&self, fork: usize) -> (owner: Option<usize>)
        requires
            fork < self@.len(),
        ensures
            owner == self@[fork as int],
    {
        self.forks[fork]
    }

    /// Reaches for `fork` without waiting. The fork is taken exactly when it
    /// lay free; a fork in somebody's hand, the caller's own included, stays
    /// where it is.
    pub fn try_lock(&mut self, fork: usize, owner: usize) -> (taken: bool)
        requires
            fork < old(self)@.len(),
        ensures
            taken == (old(self)@[fork as int] is None),
            final(self)@ == after_lock(old(self)@, fork as int, owner),
            final(self)@.len() == old(self)@.len(),
    {
        match self.forks[fork] {
            Some(_) => false,
            None => {
                self.forks.set(fork, Some(owner));
                true
            },
        }
    }

    /// Lets go of `fork`. Only the philosopher who has the fork can free it.
    pub fn unlock(&mut self, fork: usize, owner: usize) -> (freed: bool)
        requires
            fork < old(self)@.len(),
        ensures
            freed == (old(self)@[fork as int] == Some(owner)),
            final(self)@ == after_unlock(old(self)@, fork as int, owner),
            final(self)@.len() == old(self)@.len(),
    {
        match self.forks[fork] {
            Some(current) => {
                if current == owner {
                    self.forks.set(fork, None);
                    true
                } else {
                    false
                }
            },
            None => false,
        }
    }
}

} // verus!
