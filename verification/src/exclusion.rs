//! Why no fork is ever in two hands: the steps of the workers, taken one at
//! a time in any order, keep the table and every hand in agreement.

use crate::philosopher::{Hold, Philosopher};
use crate::seating::party;
use crate::table::all_free;
use crate::worker::{lemma_step_is_a_move, lemma_step_keeps_order, Outcome, Worker};
use vstd::prelude::*;

verus! {

/// One step at the table: worker number `who` is told how its last action
/// went, and is given the time drawn for what the step may start.
pub struct Move {
    pub who: int,
    pub outcome: Outcome,
    pub drawn: u32,
}

/// The table together with all workers around it.
pub struct Dinner {
    pub forks: Seq<Option<usize>>,
    pub workers: Seq<Worker>,
}

/// The start: `forks` free forks, and every philosopher's worker before its
/// first step.
pub open spec fn opening(philosophers: Seq<Philosopher>, forks: nat) -> Dinner {
    Dinner {
        forks: all_free(forks),
        workers: Seq::new(philosophers.len(), |i: int| Worker::fresh(philosophers[i])),
    }
}

/// The philosophers of a row of workers.
pub open spec fn guests(workers: Seq<Worker>) -> Seq<Philosopher> {
    Seq::new(workers.len(), |i: int| workers[i].philosopher)
}

/// All is in order: the workers' philosophers are a party at this table,
/// every worker's hand fits its stage, and the table records every hand
/// truly.
pub open spec fn sound(dinner: Dinner) -> bool {
    &&& party(guests(dinner.workers), dinner.forks.len())
    &&& forall|i: int|
        0 <= i < dinner.workers.len() ==> (#[trigger] dinner.workers[i]).orderly()
            && dinner.workers[i].philosopher.agrees(dinner.workers[i].held, dinner.forks)
}

/// The dinner after one step. A step of somebody who is not at the table
/// changes nothing.
pub open spec fn after_move(dinner: Dinner, m: Move) -> Dinner {
    if 0 <= m.who < dinner.workers.len() {
        let step = dinner.workers[m.who].next(dinner.forks, m.outcome, m.drawn);
        Dinner { forks: step.1, workers: dinner.workers.update(m.who, step.0) }
    } else {
        dinner
    }
}

/// The dinner after a row of steps, taken in the order given.
pub open spec fn after_moves(dinner: Dinner, moves: Seq<Move>) -> Dinner
    decreases moves.len(),
{
    if moves.len() == 0 {
        dinner
    } else {
        after_move(after_moves(dinner, moves.drop_last()), moves.last())
    }
}

/// Where the table records two philosophers' hands truly, and the two have
/// different numbers, no fork is in both hands.
pub proof fn lemma_one_hand_per_fork(
    first: Philosopher,
    first_held: Hold,
    second: Philosopher,
    second_held: Hold,
    forks: Seq<Option<usize>>,
    fork: int,
)
    requires
        first.index != second.index,
        first.agrees(first_held, forks),
        second.agrees(second_held, forks),
        0 <= fork < forks.len(),
    ensures
        !(first.holds(first_held, fork) && second.holds(second_held, fork)),
{
    if first.holds(first_held, fork) && second.holds(second_held, fork) {
        assert(forks[fork] == Some(second.index));
    }
}

/// An attempt to pick up forks leaves the table and the philosopher's own
/// hand in agreement, and the table keeps its length.
pub proof fn lemma_take_keeps_agreement(p: Philosopher, held: Hold, forks: Seq<Option<usize>>)
    requires
        p.left < forks.len(),
        p.right < forks.len(),
        p.agrees(held, forks),
    ensures
        p.agrees(p.taken(forks, held).1, p.taken(forks, held).0),
        p.taken(forks, held).0.len() == forks.len(),
{
}

/// An attempt to pick up forks takes nothing out of another philosopher's
/// hand and puts nothing into it.
pub proof fn lemma_take_spares_others(
    p: Philosopher,
    held: Hold,
    other: Philosopher,
    other_held: Hold,
    forks: Seq<Option<usize>>,
)
    requires
        p.left < forks.len(),
        p.right < forks.len(),
        p.index != other.index,
        other.agrees(other_held, forks),
    ensures
        other.agrees(other_held, p.taken(forks, held).0),
{
}

/// Putting the forks down leaves the table in agreement with an empty
/// hand, and the table keeps its length.
pub proof fn lemma_put_keeps_agreement(p: Philosopher, held: Hold, forks: Seq<Option<usize>>)
    requires
        p.left < forks.len(),
        p.right < forks.len(),
        p.agrees(held, forks),
    ensures
        p.agrees(Hold::Neither, p.put(forks, held)),
        p.put(forks, held).len() == forks.len(),
{
}

/// Putting the forks down takes nothing out of another philosopher's hand
/// and puts nothing into it.
pub proof fn lemma_put_spares_others(
    p: Philosopher,
    held: Hold,
    other: Philosopher,
    other_held: Hold,
    forks: Seq<Option<usize>>,
)
    requires
        p.left < forks.len(),
        p.right < forks.len(),
        p.index != other.index,
        other.agrees(other_held, forks),
    ensures
        other.agrees(other_held, p.put(forks, held)),
{
}

/// One step keeps everything in order, and changes neither who sits at
/// the table nor how many forks there are.
pub proof fn lemma_move_keeps_sound(dinner: Dinner, m: Move)
    requires
        sound(dinner),
    ensures
        sound(after_move(dinner, m)),
        guests(after_move(dinner, m).workers) == guests(dinner.workers),
        after_move(dinner, m).forks.len() == dinner.forks.len(),
{
    let after = after_move(dinner, m);
    if 0 <= m.who < dinner.workers.len() {
        let worker = dinner.workers[m.who];
        let p = worker.philosopher;
        assert(guests(dinner.workers)[m.who] == p);
        lemma_step_keeps_order(worker, dinner.forks, m.outcome, m.drawn);
        lemma_step_is_a_move(worker, dinner.forks, m.outcome, m.drawn);
        lemma_take_keeps_agreement(p, worker.held, dinner.forks);
        lemma_put_keeps_agreement(p, worker.held, dinner.forks);
        assert(guests(after.workers) =~= guests(dinner.workers));
        let seated = guests(dinner.workers);
        assert forall|i: int| 0 <= i < after.workers.len() implies (
        #[trigger] after.workers[i]).orderly() && after.workers[i].philosopher.agrees(
            after.workers[i].held,
            after.forks,
        ) by {
            if i != m.who {
                let other = dinner.workers[i];
                let q = other.philosopher;
                assert(q.index != p.index) by {
                    if i < m.who {
                        assert(seated[i].index != seated[m.who].index);
                    } else {
                        assert(seated[m.who].index != seated[i].index);
                    }
                }
                lemma_take_spares_others(p, worker.held, q, other.held, dinner.forks);
                lemma_put_spares_others(p, worker.held, q, other.held, dinner.forks);
            }
        }
    }
}

/// Any row of steps from the start keeps everything in order.
pub proof fn lemma_moves_keep_sound(philosophers: Seq<Philosopher>, forks: nat, moves: Seq<Move>)
    requires
        party(philosophers, forks),
    ensures
        sound(after_moves(opening(philosophers, forks), moves)),
        guests(after_moves(opening(philosophers, forks), moves).workers) == philosophers,
        after_moves(opening(philosophers, forks), moves).forks.len() == forks,
    decreases moves.len(),
{
    if moves.len() > 0 {
        let start = opening(philosophers, forks);
        lemma_moves_keep_sound(philosophers, forks, moves.drop_last());
        lemma_move_keeps_sound(after_moves(start, moves.drop_last()), moves.last());
    }
}

/// Mutual exclusion: whatever steps the workers took since the start, and
/// in whatever order, no fork is in the hands of two of them.
pub proof fn lemma_mutual_exclusion(
    philosophers: Seq<Philosopher>,
    forks: nat,
    moves: Seq<Move>,
    i: int,
    j: int,
    fork: int,
)
    requires
        party(philosophers, forks),
        0 <= i < philosophers.len(),
        0 <= j < philosophers.len(),
        i != j,
        0 <= fork < forks,
    ensures
        ({
            let workers = after_moves(opening(philosophers, forks), moves).workers;
            !(philosophers[i].holds(workers[i].held, fork) && philosophers[j].holds(
                workers[j].held,
                fork,
            ))
        }),
{
    let dinner = after_moves(opening(philosophers, forks), moves);
    lemma_moves_keep_sound(philosophers, forks, moves);
    lemma_one_hand_per_fork(
        philosophers[i],
        dinner.workers[i].held,
        philosophers[j],
        dinner.workers[j].held,
        dinner.forks,
        fork,
    );
}

/// Forks are in hand only between the announcement of the wait and the end
/// of eating: whatever steps were taken, a worker that is thinking, or
/// has not started, or looks whether to stop, or has left, holds nothing,
/// and a worker that eats holds both its forks.
pub proof fn lemma_hands_follow_stages(
    philosophers: Seq<Philosopher>,
    forks: nat,
    moves: Seq<Move>,
    i: int,
)
    requires
        party(philosophers, forks),
        0 <= i < philosophers.len(),
    ensures
        after_moves(opening(philosophers, forks), moves).workers[i].orderly(),
{
    lemma_moves_keep_sound(philosophers, forks, moves);
}

} // verus!
