//! The decisions of the run loop: what to show, when to ask the workers to
//! stop, and when the run is over. The loop itself, which receives reports
//! and reads the clock, belongs to whoever runs the simulation.

use crate::config::PhilosopherArguments;
use crate::event::State;
use vstd::prelude::*;

verus! {

/// How far a run has come.
#[derive(Clone, Copy, Debug, PartialEq, Eq, Structural)]
pub enum RunPhase {
    /// The workers are at work.
    Running,
    /// The workers were asked to stop; their last reports are still taken.
    Draining,
    /// The run is over.
    Finished,
}

/// What the loop got when it tried to receive a report.
#[derive(Clone, Copy, Debug, PartialEq, Eq, Structural)]
pub enum Reception {
    /// A report arrived.
    Event(State),
    /// The channel is closed: every worker has left.
    Closed,
    /// Nothing was received, for a loop that only watches the clock.
    Nothing,
}

/// What the loop is to do next.
#[derive(Clone, Copy, Debug, PartialEq, Eq, Structural)]
pub struct Directive {
    /// The report to show, if any.
    pub show: Option<State>,
    /// Ask the workers to stop, by closing the control channel.
    pub close_control: bool,
    /// Stop the loop and wait for the workers to leave.
    pub finished: bool,
}

/// The state of the run loop.
#[derive(Clone, Copy, Debug, PartialEq, Eq, Structural)]
pub struct Orchestrator {
    /// After how many milliseconds the workers are asked to stop, if ever.
    pub limit_ms: Option<u64>,
    /// Whether the loop receives the reports itself and shows them. Where
    /// somebody else observes, the loop only watches the clock.
    pub renders: bool,
    pub phase: RunPhase,
}

impl Orchestrator {
    /// The orchestrator in another phase.
    pub open spec fn in_phase(self, phase: RunPhase) -> Orchestrator {
        Orchestrator { limit_ms: self.limit_ms, renders: self.renders, phase }
    }

    /// Whether the time is up: the workers are still at work, a limit is
    /// set, and more than that has passed.
    pub open spec fn expired(self, elapsed_ms: u64) -> bool {
        self.phase == RunPhase::Running && match self.limit_ms {
            Some(limit) => elapsed_ms > limit,
            None => false,
        }
    }

    /// The decision on one reception, `elapsed_ms` milliseconds into the
    /// run.
    ///
    /// A finished run stays finished. A closed channel ends the run; the
    /// workers are asked to stop on the way if they were not yet. A report
    /// is shown by a loop that renders. Then the clock is looked at: when
    /// the time is up the workers are asked to stop, and a loop that
    /// renders goes on taking reports until the channel closes, while a
    /// loop that only watches the clock is finished.
    pub open spec fn decide(self, reception: Reception, elapsed_ms: u64) -> (
        Orchestrator,
        Directive,
    ) {
        if self.phase == RunPhase::Finished {
            (self, Directive { show: None, close_control: false, finished: true })
        } else if reception == Reception::Closed {
            (
                self.in_phase(RunPhase::Finished),
                Directive {
                    show: None,
                    close_control: self.phase == RunPhase::Running,
                    finished: true,
                },
            )
        } else {
            let show = match reception {
                Reception::Event(event) => if self.renders {
                    Some(event)
                } else {
                    None
                },
                _ => None,
            };
            if self.expired(elapsed_ms) {
                if self.renders {
                    (
                        self.in_phase(RunPhase::Draining),
                        Directive { show, close_control: true, finished: false },
                    )
                } else {
                    (
                        self.in_phase(RunPhase::Finished),
                        Directive { show, close_control: true, finished: true },
                    )
                }
            } else {
                (self, Directive { show, close_control: false, finished: false })
            }
        }
    }

    /// The run loop for a configuration, before anything was received.
    pub fn new(args: &PhilosopherArguments, renders: bool) -> (orchestrator: Orchestrator)
        ensures
            orchestrator == (Orchestrator {
                limit_ms: args.duration,
                renders,
                phase: RunPhase::Running,
            }),
    {
        Orchestrator { limit_ms: args.duration, renders, phase: RunPhase::Running }
    }

    /// Whether the run is over.
    pub fn is_finished(&self) -> (finished: bool)
        ensures
            finished == (self.phase == RunPhase::Finished),
    {
        self.phase == RunPhase::Finished
    }

    /// Decides on one reception, `elapsed_ms` milliseconds into the run.
    pub fn step(&mut self, reception: Reception, elapsed_ms: u64) -> (directive: Directive)
        ensures
            (*final(self), directive) == old(self).decide(reception, elapsed_ms),
    {
        if self.phase == RunPhase::Finished {
            return Directive { show: None, close_control: false, finished: true };
        }
        let show: Option<State> = match reception {
            Reception::Closed => {
                let close_control: bool = self.phase == RunPhase::Running;
                self.phase = RunPhase::Finished;
                return Directive { show: None, close_control, finished: true };
            },
            Reception::Event(event) => {
                if self.renders {
                    Some(event)
                } else {
                    None
                }
            },
            Reception::Nothing => None,
        };
        let expired: bool = self.phase == RunPhase::Running && match self.limit_ms {
            Some(limit) => elapsed_ms > limit,
            None => false,
        };
        if expired {
            if self.renders {
                self.phase = RunPhase::Draining;
                Directive { show, close_control: true, finished: false }
            } else {
                self.phase = RunPhase::Finished;
                Directive { show, close_control: true, finished: true }
            }
        } else {
            Directive { show, close_control: false, finished: false }
        }
    }
}

/// The workers are asked to stop only while they are at work, and are then
/// no longer counted as at work: so they are asked at most once in a run.
pub proof fn lemma_asked_to_stop_once(o: Orchestrator, reception: Reception, elapsed_ms: u64)
    ensures
        o.decide(reception, elapsed_ms).1.close_control ==> o.phase == RunPhase::Running
            && o.decide(reception, elapsed_ms).0.phase != RunPhase::Running,
        o.phase != RunPhase::Running ==> o.decide(reception, elapsed_ms).0.phase
            != RunPhase::Running,
{
}

/// While the workers are at work and the channel is open, they are asked
/// to stop exactly when a limit is set and more time than that has passed.
pub proof fn lemma_stop_follows_the_clock(o: Orchestrator, reception: Reception, elapsed_ms: u64)
    requires
        o.phase == RunPhase::Running,
        reception != Reception::Closed,
    ensures
        o.decide(reception, elapsed_ms).1.close_control <==> (o.limit_ms matches Some(limit)
            && elapsed_ms > limit),
{
}

/// The loop is told to finish exactly when the run is over afterwards, and
/// a run that is over stays so. A loop that renders is over only once the
/// channel has closed.
pub proof fn lemma_finish(o: Orchestrator, reception: Reception, elapsed_ms: u64)
    ensures
        o.decide(reception, elapsed_ms).1.finished <==> o.decide(reception, elapsed_ms).0.phase
            == RunPhase::Finished,
        o.phase == RunPhase::Finished ==> o.decide(reception, elapsed_ms).0.phase
            == RunPhase::Finished,
        o.renders && o.phase != RunPhase::Finished ==> (o.decide(
            reception,
            elapsed_ms,
        ).1.finished <==> reception == Reception::Closed),
{
}

} // verus!
