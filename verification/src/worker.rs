//! The work cycle of one philosopher: think, announce the wait, pick up the
//! forks, eat, put the forks down, look for the request to stop, and start
//! over. The cycle is written as single steps that never wait. Whoever runs
//! a worker carries out the action that a step asks for and tells the next
//! step how it went.

use crate::event::State;
use crate::philosopher::{Hold, Philosopher};
use crate::table::Table;
use crate::timing::{sample_duration, within};
use vstd::prelude::*;

verus! {

/// Where in the cycle a worker stands.
#[derive(Clone, Copy, Debug, PartialEq, Eq, Structural)]
pub enum Stage {
    /// Nothing has happened yet.
    Ready,
    /// The report of thinking is out.
    Thinking,
    /// The report of waiting is out.
    Announcing,
    /// The forks were not both free at the last attempt.
    Acquiring,
    /// Both forks are in hand and the report of eating is out.
    Eating,
    /// The forks are back on the table and the worker has asked whether to
    /// stop.
    Polling,
    /// The worker is done for good.
    Stopped,
}

/// How the action that the last step asked for went.
#[derive(Clone, Copy, Debug, PartialEq, Eq, Structural)]
pub enum Outcome {
    /// It was carried out. This is also what the very first step is told.
    Completed,
    /// The report could not be delivered: nobody observes any more.
    ObserverGone,
    /// The look at the control channel found that the run is to stop.
    ShutdownRequested,
}

/// What a step asks for.
#[derive(Clone, Copy, Debug, PartialEq, Eq, Structural)]
pub enum Action {
    /// Deliver the report, then pause for the time it carries, if any.
    Report(State),
    /// Wait until forks have been put back on the table.
    AwaitForks,
    /// The forks are back on the table. Look, without waiting, whether the
    /// run is to stop.
    PollControl,
    /// Leave. Nothing is in hand.
    Exit,
}

impl Action {
    /// Whether forks may have gone back on the table in the step that asked
    /// for this action, so that those who wait for forks are to be woken.
    pub open spec fn wakes_waiting(self) -> bool {
        self == Action::PollControl || self == Action::Exit
    }

    /// Whether those who wait for forks are to be woken.
    pub fn frees_forks(&self) -> (wake: bool)
        ensures
            wake == self.wakes_waiting(),
    {
        match self {
            Action::PollControl => true,
            Action::Exit => true,
            _ => false,
        }
    }
}

/// One philosopher at work.
#[derive(Clone, Copy, Debug, PartialEq, Eq)]
pub struct Worker {
    pub philosopher: Philosopher,
    pub stage: Stage,
    pub held: Hold,
}

/// What one step is given: the table as it stands at that moment, how the
/// last action went, and the time drawn for an activity that the step may
/// start.
pub struct Call {
    pub forks: Seq<Option<usize>>,
    pub outcome: Outcome,
    pub drawn: u32,
}

impl Worker {
    /// A philosopher's worker before its first step.
    pub open spec fn fresh(philosopher: Philosopher) -> Worker {
        Worker { philosopher, stage: Stage::Ready, held: Hold::Neither }
    }

    /// The worker with another stage and hand.
    pub open spec fn moved(self, stage: Stage, held: Hold) -> Worker {
        Worker { philosopher: self.philosopher, stage, held }
    }

    /// The step that starts a round: the report of thinking goes out.
    pub open spec fn start_round(self, forks: Seq<Option<usize>>, drawn: u32) -> (
        Worker,
        Seq<Option<usize>>,
        Action,
    ) {
        (
            self.moved(Stage::Thinking, self.held),
            forks,
            Action::Report(State::Thinking(self.philosopher.message(Some(drawn)))),
        )
    }

    /// The step that reaches for the forks: with both in hand the report of
    /// eating goes out, otherwise the worker has to wait for forks.
    pub open spec fn reach(self, forks: Seq<Option<usize>>, drawn: u32) -> (
        Worker,
        Seq<Option<usize>>,
        Action,
    ) {
        let taken = self.philosopher.taken(forks, self.held);
        if taken.1 == Hold::Both {
            (
                self.moved(Stage::Eating, Hold::Both),
                taken.0,
                Action::Report(State::Eating(self.philosopher.message(Some(drawn)))),
            )
        } else {
            (self.moved(Stage::Acquiring, taken.1), taken.0, Action::AwaitForks)
        }
    }

    /// One step of the cycle: the worker and the table afterwards, and the
    /// action asked for.
    ///
    /// A stopped worker stays stopped. A report that found no observer ends
    /// the worker at once, whatever it has in hand going back on the table.
    /// Otherwise the stages follow one another: thinking, the announcement
    /// of the wait, the reach for the forks (repeated after each wait until
    /// both are in hand), eating, putting the forks down, and the look at
    /// the control channel, which alone can end the cycle: the request to
    /// stop counts only when it answers that look, and is taken as
    /// `Completed` at any other stage.
    pub open spec fn next(self, forks: Seq<Option<usize>>, outcome: Outcome, drawn: u32) -> (
        Worker,
        Seq<Option<usize>>,
        Action,
    ) {
        if self.stage == Stage::Stopped {
            (self, forks, Action::Exit)
        } else if outcome == Outcome::ObserverGone {
            (
                self.moved(Stage::Stopped, Hold::Neither),
                self.philosopher.put(forks, self.held),
                Action::Exit,
            )
        } else {
            match self.stage {
                Stage::Ready => self.start_round(forks, drawn),
                Stage::Thinking => (
                    self.moved(Stage::Announcing, self.held),
                    forks,
                    Action::Report(State::Waiting(self.philosopher.message(None))),
                ),
                Stage::Announcing => self.reach(forks, drawn),
                Stage::Acquiring => self.reach(forks, drawn),
                Stage::Eating => (
                    self.moved(Stage::Polling, Hold::Neither),
                    self.philosopher.put(forks, self.held),
                    Action::PollControl,
                ),
                Stage::Polling => if outcome == Outcome::ShutdownRequested {
                    (self.moved(Stage::Stopped, self.held), forks, Action::Exit)
                } else {
                    self.start_round(forks, drawn)
                },
                Stage::Stopped => (self, forks, Action::Exit),
            }
        }
    }

    /// What is in hand fits the stage: nothing while thinking, announcing,
    /// polling, before the start and after the end; not yet both forks
    /// while acquiring; both while eating.
    pub open spec fn orderly(self) -> bool {
        match self.stage {
            Stage::Acquiring => self.held != Hold::Both,
            Stage::Eating => self.held == Hold::Both,
            _ => self.held == Hold::Neither,
        }
    }

    /// A worker for `philosopher`, before its first step.
    pub fn new(philosopher: Philosopher) -> (worker: Worker)
        ensures
            worker == Worker::fresh(philosopher),
    {
        Worker { philosopher, stage: Stage::Ready, held: Hold::Neither }
    }

    /// Whether the worker is done for good.
    pub fn is_stopped(&self) -> (stopped: bool)
        ensures
            stopped == (self.stage == Stage::Stopped),
    {
        self.stage == Stage::Stopped
    }

    /// Takes one step, with `drawn` as the length of the activity that the
    /// step may start.
    pub fn advance(&mut self, table: &mut Table, outcome: Outcome, drawn: u32) -> (action: Action)
        requires
            old(self).philosopher.seated_at(old(table)@.len()),
        ensures
            (*final(self), final(table)@, action) == old(self).next(old(table)@, outcome, drawn),
            final(self).philosopher == old(self).philosopher,
            old(self).orderly() ==> final(self).orderly(),
            final(table)@.len() == old(table)@.len(),
    {
        let philosopher: Philosopher = self.philosopher;
        if self.stage == Stage::Stopped {
            return Action::Exit;
        }
        if outcome == Outcome::ObserverGone {
            philosopher.put_forks(table, self.held);
            self.stage = Stage::Stopped;
            self.held = Hold::Neither;
            return Action::Exit;
        }
        match self.stage {
            Stage::Ready => {
                self.stage = Stage::Thinking;
                Action::Report(philosopher.thinking(drawn))
            },
            Stage::Thinking => {
                self.stage = Stage::Announcing;
                Action::Report(philosopher.waiting())
            },
            Stage::Announcing | Stage::Acquiring => {
                let now: Hold = philosopher.take_forks(table, self.held);
                if now == Hold::Both {
                    self.stage = Stage::Eating;
                    self.held = Hold::Both;
                    Action::Report(philosopher.eating(drawn))
                } else {
                    self.stage = Stage::Acquiring;
                    self.held = now;
                    Action::AwaitForks
                }
            },
            Stage::Eating => {
                philosopher.put_forks(table, self.held);
                self.stage = Stage::Polling;
                self.held = Hold::Neither;
                Action::PollControl
            },
            Stage::Polling => {
                if outcome == Outcome::ShutdownRequested {
                    self.stage = Stage::Stopped;
                    Action::Exit
                } else {
                    self.stage = Stage::Thinking;
                    Action::Report(philosopher.thinking(drawn))
                }
            },
            Stage::Stopped => Action::Exit,
        }
    }

    /// Takes one step. Where the step may start thinking or eating, the
    /// length of that activity is drawn from the philosopher's range; so
    /// the step is one of those that `next` describes for a time within
    /// the range.
    pub fn step(&mut self, table: &mut Table, outcome: Outcome) -> (action: Action)
        requires
            old(self).philosopher.seated_at(old(table)@.len()),
        ensures
            exists|drawn: u32|
                within(old(self).philosopher.range, drawn) && (*final(self), final(table)@, action)
                    == #[trigger] old(self).next(old(table)@, outcome, drawn),
            final(self).philosopher == old(self).philosopher,
            old(self).orderly() ==> final(self).orderly(),
            final(table)@.len() == old(table)@.len(),
    {
        let range: (u32, u32) = self.philosopher.range;
        let starts: bool = outcome != Outcome::ObserverGone && match self.stage {
            Stage::Ready | Stage::Announcing | Stage::Acquiring => true,
            Stage::Polling => outcome != Outcome::ShutdownRequested,
            _ => false,
        };
        let drawn: u32 = if starts {
            sample_duration(range)
        } else {
            range.0
        };
        self.advance(table, outcome, drawn)
    }
}

/// The worker after a row of steps, each given its own call.
pub open spec fn after_calls(worker: Worker, calls: Seq<Call>) -> Worker
    decreases calls.len(),
{
    if calls.len() == 0 {
        worker
    } else {
        let call = calls.last();
        after_calls(worker, calls.drop_last()).next(call.forks, call.outcome, call.drawn).0
    }
}

/// The reports that a row of steps asked to deliver, in their order.
pub open spec fn reports(worker: Worker, calls: Seq<Call>) -> Seq<State>
    decreases calls.len(),
{
    if calls.len() == 0 {
        Seq::empty()
    } else {
        let call = calls.last();
        let earlier = reports(worker, calls.drop_last());
        match after_calls(worker, calls.drop_last()).next(call.forks, call.outcome, call.drawn).2 {
            Action::Report(event) => earlier.push(event),
            _ => earlier,
        }
    }
}

/// The place in the round of the report that comes next from a stage:
/// 0 for thinking, 1 for waiting, 2 for eating.
pub open spec fn due(stage: Stage) -> int {
    match stage {
        Stage::Thinking => 1,
        Stage::Announcing => 2,
        Stage::Acquiring => 2,
        _ => 0,
    }
}

/// Whether `event` is the report that belongs at `position` of a
/// philosopher's reports: thinking with a time, waiting without one, eating
/// with a time, and so on in rounds of three, each under the philosopher's
/// number.
pub open spec fn fits_round(event: State, position: int, philosopher: Philosopher) -> bool {
    &&& event.content().index == philosopher.index as i32
    &&& if position % 3 == 0 {
        event is Thinking && event.content().for_a_time is Some
    } else if position % 3 == 1 {
        event is Waiting && event.content().for_a_time is None
    } else {
        event is Eating && event.content().for_a_time is Some
    }
}

/// A step keeps the philosopher, and keeps the hand fitting the stage.
pub proof fn lemma_step_keeps_order(
    worker: Worker,
    forks: Seq<Option<usize>>,
    outcome: Outcome,
    drawn: u32,
)
    requires
        worker.orderly(),
    ensures
        worker.next(forks, outcome, drawn).0.orderly(),
        worker.next(forks, outcome, drawn).0.philosopher == worker.philosopher,
{
}

/// A step touches the table in one of three ways: not at all, by one
/// attempt to pick up the forks, or by putting down what is in hand. The
/// hand afterwards is the one that this move leaves.
pub proof fn lemma_step_is_a_move(
    worker: Worker,
    forks: Seq<Option<usize>>,
    outcome: Outcome,
    drawn: u32,
)
    requires
        worker.orderly(),
    ensures
        ({
            let after = worker.next(forks, outcome, drawn);
            let p = worker.philosopher;
            ||| after.1 == forks && after.0.held == worker.held
            ||| (after.1, after.0.held) == p.taken(forks, worker.held)
            ||| after.1 == p.put(forks, worker.held) && after.0.held == Hold::Neither
        }),
{
}

/// A step that frees a fork asks to look at the control channel or to
/// leave. So nobody who waits for forks is forgotten if the waiting are
/// woken after each step that asks for one of these two.
pub proof fn lemma_freed_forks_wake_the_waiting(
    worker: Worker,
    forks: Seq<Option<usize>>,
    outcome: Outcome,
    drawn: u32,
    fork: int,
)
    requires
        worker.philosopher.left < forks.len(),
        worker.philosopher.right < forks.len(),
        0 <= fork < forks.len(),
        forks[fork] is Some,
        worker.next(forks, outcome, drawn).1[fork] is None,
    ensures
        worker.next(forks, outcome, drawn).2.wakes_waiting(),
{
}

/// The reports of a worker come in rounds of thinking, waiting and eating,
/// in this order from its first step on, all under its philosopher's
/// number; and every time they carry was drawn for the step that reported
/// it.
pub proof fn lemma_reports_come_in_rounds(worker: Worker, calls: Seq<Call>)
    requires
        worker.stage == Stage::Ready,
    ensures
        forall|k: int|
            0 <= k < reports(worker, calls).len() ==> fits_round(
                #[trigger] reports(worker, calls)[k],
                k,
                worker.philosopher,
            ),
        (forall|c: int|
            0 <= c < calls.len() ==> within(worker.philosopher.range, (#[trigger] calls[c]).drawn))
            ==> forall|k: int|
            0 <= k < reports(worker, calls).len() ==> ((#[trigger] reports(
                worker,
                calls,
            )[k]).content().for_a_time matches Some(time) ==> within(
                worker.philosopher.range,
                time,
            )),
        after_calls(worker, calls).philosopher == worker.philosopher,
        after_calls(worker, calls).stage != Stage::Stopped ==> reports(worker, calls).len() % 3
            == due(after_calls(worker, calls).stage),
    decreases calls.len(),
{
    if calls.len() > 0 {
        lemma_reports_come_in_rounds(worker, calls.drop_last());
    }
}

/// How many reports a worker can still make from a stage before the look
/// at the control channel that follows its round.
pub open spec fn reports_left_in_round(stage: Stage) -> nat {
    match stage {
        Stage::Ready => 3,
        Stage::Thinking => 2,
        Stage::Announcing => 1,
        Stage::Acquiring => 1,
        _ => 0,
    }
}

/// Whether the worker is told to stop whenever it asks: no step that it
/// takes while polling hears that all went on as before.
pub open spec fn stop_is_seen(worker: Worker, calls: Seq<Call>) -> bool {
    forall|k: int|
        0 <= k < calls.len() && (#[trigger] after_calls(worker, calls.take(k))).stage
            == Stage::Polling ==> calls[k].outcome != Outcome::Completed
}

/// Once the run is to stop, a worker finishes the round it is in and
/// starts no other: it makes no more reports than its round still holds,
/// so a worker that has not started yet makes at most three.
pub proof fn lemma_stops_within_a_round(worker: Worker, calls: Seq<Call>)
    requires
        stop_is_seen(worker, calls),
    ensures
        reports(worker, calls).len() + reports_left_in_round(after_calls(worker, calls).stage)
            <= reports_left_in_round(worker.stage),
    decreases calls.len(),
{
    if calls.len() > 0 {
        let earlier = calls.drop_last();
        assert(stop_is_seen(worker, earlier)) by {
            assert forall|k: int| 0 <= k < earlier.len() implies earlier.take(k) == calls.take(
                k,
            ) by {}
        }
        lemma_stops_within_a_round(worker, earlier);
    }
}

/// Whether somebody observed all along: no step in the row was told that
/// its report found no observer.
pub open spec fn observer_stays(calls: Seq<Call>) -> bool {
    forall|k: int| 0 <= k < calls.len() ==> (#[trigger] calls[k]).outcome != Outcome::ObserverGone
}

/// Whether a worker at this stage is at or past the meal of its round: it
/// eats, or looks whether to stop, or has left.
pub open spec fn past_the_meal(stage: Stage) -> bool {
    stage == Stage::Eating || stage == Stage::Polling || stage == Stage::Stopped
}

/// A worker never ends in the middle of a wait: as long as somebody
/// observes, a worker that started from the beginning and now eats, looks
/// whether to stop, or has left, has reported, and the last thing it
/// reported is that it eats. So the last report of a worker that has left
/// is that of a meal.
pub proof fn lemma_last_report_is_eating(worker: Worker, calls: Seq<Call>)
    requires
        worker.stage == Stage::Ready,
        observer_stays(calls),
    ensures
        past_the_meal(after_calls(worker, calls).stage) ==> reports(worker, calls).len() > 0
            && reports(worker, calls).last() is Eating,
        after_calls(worker, calls).stage == Stage::Stopped ==> reports(worker, calls).len() > 0
            && reports(worker, calls).last() is Eating,
    decreases calls.len(),
{
    if calls.len() > 0 {
        lemma_last_report_is_eating(worker, calls.drop_last());
    }
}

} // verus!
