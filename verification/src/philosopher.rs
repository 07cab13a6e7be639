//! A philosopher: who they are, which two forks they eat with, and how they
//! pick the forks up and put them down.

use crate::event::{State, StateMessage};
use crate::table::{after_lock, after_unlock, Table};
use vstd::prelude::*;

verus! {

/// How many of their forks a philosopher has in hand. The left fork always
/// comes first, so there is no holding of the right fork alone.
#[derive(Clone, Copy, Debug, PartialEq, Eq, Structural)]
pub enum Hold {
    Neither,
    Left,
    Both,
}

/// One philosopher at the table.
#[derive(Clone, Copy, Debug, PartialEq, Eq)]
pub struct Philosopher {
    /// The philosopher's number.
    pub index: usize,
    /// The fork that is picked up first.
    pub left: usize,
    /// The fork that is picked up second.
    pub right: usize,
    /// Shortest and longest time, in milliseconds, of thinking and eating.
    pub range: (u32, u32),
}

impl Philosopher {
    /// The number fits a report and the range is in order.
    pub open spec fn well_formed(self) -> bool {
        self.index <= i32::MAX && self.range.0 <= self.range.1
    }

    /// The philosopher is well formed and both forks are on a table of
    /// `forks` forks.
    pub open spec fn seated_at(self, forks: nat) -> bool {
        self.well_formed() && self.left < forks && self.right < forks
    }

    /// Whether a philosopher who holds `held` has `fork` in hand.
    pub open spec fn holds(self, held: Hold, fork: int) -> bool {
        match held {
            Hold::Neither => false,
            Hold::Left => fork == self.left,
            Hold::Both => fork == self.left || fork == self.right,
        }
    }

    /// The table records this philosopher's hand truly: the forks marked
    /// with the philosopher's number are exactly those in hand.
    pub open spec fn agrees(self, held: Hold, forks: Seq<Option<usize>>) -> bool {
        forall|fork: int|
            #![trigger forks[fork]]
            0 <= fork < forks.len() ==> (forks[fork] == Some(self.index) <==> self.holds(
                held,
                fork,
            ))
    }

    /// Reaching for the left fork: an empty hand takes it if it lies free.
    pub open spec fn reach_left(self, forks: Seq<Option<usize>>, held: Hold) -> (
        Seq<Option<usize>>,
        Hold,
    ) {
        if held == Hold::Neither && forks[self.left as int] is None {
            (after_lock(forks, self.left as int, self.index), Hold::Left)
        } else {
            (forks, held)
        }
    }

    /// Reaching for the right fork: a hand that has the left fork, and only
    /// that, takes the right one if it lies free.
    pub open spec fn reach_right(self, forks: Seq<Option<usize>>, held: Hold) -> (
        Seq<Option<usize>>,
        Hold,
    ) {
        if held == Hold::Left && forks[self.right as int] is None {
            (after_lock(forks, self.right as int, self.index), Hold::Both)
        } else {
            (forks, held)
        }
    }

    /// One attempt to pick up the forks: first the left, then, with the left
    /// in hand, the right. A fork that is not free is not waited for, and a
    /// fork in hand is kept.
    pub open spec fn taken(self, forks: Seq<Option<usize>>, held: Hold) -> (
        Seq<Option<usize>>,
        Hold,
    ) {
        let first = self.reach_left(forks, held);
        self.reach_right(first.0, first.1)
    }

    /// The table after the philosopher put down what was in hand: the right
    /// fork first, then the left.
    pub open spec fn put(self, forks: Seq<Option<usize>>, held: Hold) -> Seq<Option<usize>> {
        match held {
            Hold::Neither => forks,
            Hold::Left => after_unlock(forks, self.left as int, self.index),
            Hold::Both => after_unlock(
                after_unlock(forks, self.right as int, self.index),
                self.left as int,
                self.index,
            ),
        }
    }

    /// The report of this philosopher for an activity.
    pub open spec fn message(self, for_a_time: Option<u32>) -> StateMessage {
        StateMessage { index: self.index as i32, for_a_time }
    }

    /// A philosopher with the given number, forks and range.
    pub fn new(index: usize, left: usize, right: usize, range: (u32, u32)) -> (philosopher: Self)
        ensures
            philosopher == (Philosopher { index, left, right, range }),
    {
        Philosopher { index, left, right, range }
    }

    /// Whether the philosopher can sit at a table of `forks` forks.
    pub fn is_seated_at(&self, forks: usize) -> (seated: bool)
        ensures
            seated == self.seated_at(forks as nat),
    {
        self.index <= i32::MAX as usize && self.range.0 <= self.range.1 && self.left < forks
            && self.right < forks
    }

    /// The report that the philosopher starts to think for `time`
    /// milliseconds.
    pub fn thinking(&self, time: u32) -> (event: State)
        requires
            self.index <= i32::MAX,
        ensures
            event == State::Thinking(self.message(Some(time))),
    {
        State::Thinking(StateMessage { index: self.index as i32, for_a_time: Some(time) })
    }

    /// The report that the philosopher starts to wait for the forks.
    pub fn waiting(&self) -> (event: State)
        requires
            self.index <= i32::MAX,
        ensures
            event == State::Waiting(self.message(None)),
    {
        State::Waiting(StateMessage { index: self.index as i32, for_a_time: None })
    }

    /// The report that the philosopher starts to eat for `time`
    /// milliseconds.
    pub fn eating(&self, time: u32) -> (event: State)
        requires
            self.index <= i32::MAX,
        ensures
            event == State::Eating(self.message(Some(time))),
    {
        State::Eating(StateMessage { index: self.index as i32, for_a_time: Some(time) })
    }

    /// Tries to pick up the forks, the left one first, without waiting, and
    /// says what is in hand afterwards. Called again with that answer, it
    /// goes on where it stopped; with both forks in hand it changes nothing.
    pub fn take_forks(&self, table: &mut Table, held: Hold) -> (now: Hold)
        requires
            self.left < old(table)@.len(),
            self.right < old(table)@.len(),
        ensures
            (final(table)@, now) == self.taken(old(table)@, held),
            final(table)@.len() == old(table)@.len(),
    {
        let mut now: Hold = held;
        if now == Hold::Neither {
            if table.try_lock(self.left, self.index) {
                now = Hold::Left;
            }
        }
        if now == Hold::Left {
            if table.try_lock(self.right, self.index) {
                now = Hold::Both;
            }
        }
        now
    }

    /// Puts down whatever is in hand.
    pub fn put_forks(&self, table: &mut Table, held: Hold)
        requires
            self.left < old(table)@.len(),
            self.right < old(table)@.len(),
        ensures
            final(table)@ == self.put(old(table)@, held),
            final(table)@.len() == old(table)@.len(),
    {
        match held {
            Hold::Neither => {},
            Hold::Left => {
                table.unlock(self.left, self.index);
            },
            Hold::Both => {
                table.unlock(self.right, self.index);
                table.unlock(self.left, self.index);
            },
        }
    }
}

} // verus!
