//! The states a philosopher reports, and the line of text shown for each.

use crate::text::{decimal, decimal_string, signed_decimal, signed_decimal_string};
use vstd::prelude::*;

verus! {

/// What a report carries: who reports, and for how many milliseconds the
/// activity will last. Waiting has no set length, so it carries no time.
#[derive(Clone, Copy, Debug, PartialEq, Eq, Structural)]
pub struct StateMessage {
    pub index: i32,
    pub for_a_time: Option<u32>,
}

/// A report of one philosopher entering an activity.
#[derive(Clone, Copy, Debug, PartialEq, Eq, Structural)]
pub enum State {
    Eating(StateMessage),
    Thinking(StateMessage),
    Waiting(StateMessage),
}

impl State {
    /// The message inside the report, whatever the activity.
    pub open spec fn content(self) -> StateMessage {
        match self {
            State::Eating(m) => m,
            State::Thinking(m) => m,
            State::Waiting(m) => m,
        }
    }

    /// The activity's name as it is shown.
    pub open spec fn activity(self) -> Seq<char> {
        match self {
            State::Eating(_) => "eating"@,
            State::Thinking(_) => "thinking"@,
            State::Waiting(_) => "waiting"@,
        }
    }

    /// The line shown for a report: `Philosopher`, the philosopher's number,
    /// `is`, the activity, and then either `for`, the time and `ms`, or,
    /// where the report carries no time, the words `to eat`. The parts are
    /// one blank apart and the numbers are plain numerals.
    pub open spec fn rendered(self) -> Seq<char> {
        let head = "Philosopher "@ + signed_decimal(self.content().index as int) + " is "@
            + self.activity();
        match self.content().for_a_time {
            Some(t) => head + " for "@ + decimal(t as nat) + " ms"@,
            None => head + " to eat"@,
        }
    }

    /// The message inside the report.
    pub fn message(&self) -> (m: StateMessage)
        ensures
            m == self.content(),
    {
        match self {
            State::Eating(m) => *m,
            State::Thinking(m) => *m,
            State::Waiting(m) => *m,
        }
    }

    /// The activity's name.
    pub fn activity_name(&self) -> (name: &'static str)
        ensures
            name@ == self.activity(),
    {
        match self {
            State::Eating(_) => "eating",
            State::Thinking(_) => "thinking",
            State::Waiting(_) => "waiting",
        }
    }

    /// Writes the line that is shown for this report.
    pub fn to_string(&self) -> (line: String)
        ensures
            line@ == self.rendered(),
    {
        let m: StateMessage = self.message();
        let mut line: String = String::from_str("Philosopher ");
        let id: String = signed_decimal_string(m.index);
        line.append(id.as_str());
        line.append(" is ");
        line.append(self.activity_name());
        match m.for_a_time {
            Some(t) => {
                line.append(" for ");
                let time: String = decimal_string(t as u64);
                line.append(time.as_str());
                line.append(" ms");
            },
            None => {
                line.append(" to eat");
            },
        }
        line
    }
}

} // verus!
