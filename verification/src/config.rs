//! What a run is configured with, and the check that rejects a
//! configuration before anything is built from it.

use vstd::prelude::*;

verus! {

/// The range of think and eat times that is used where none is chosen.
pub const DEFAULT_RANGE_IN_MS: (u32, u32) = (0, 1000);

/// How reports travel from the philosophers to the observer.
#[derive(Clone, Copy, Debug, PartialEq, Eq, Structural)]
pub enum Delivery {
    /// Each report is handed over in person: the philosopher waits until the
    /// observer takes it.
    Synchronous,
    /// Reports queue up without limit and no philosopher ever waits.
    Unbounded,
}

impl Delivery {
    /// How many reports may wait in the queue: none for a hand-over in
    /// person, and no limit (`None`) for unbounded delivery.
    pub fn capacity(&self) -> (bound: Option<usize>)
        ensures
            bound == match *self {
                Delivery::Synchronous => Some(0usize),
                Delivery::Unbounded => None,
            },
    {
        match self {
            Delivery::Synchronous => Some(0),
            Delivery::Unbounded => None,
        }
    }
}

/// Why a configuration is rejected.
#[derive(Clone, Copy, Debug, PartialEq, Eq, Structural)]
pub enum ConfigError {
    /// There must be at least one philosopher.
    InvalidActorCount,
    /// The shortest time is longer than the longest.
    InvertedRange,
}

/// The configuration of a run.
#[derive(Clone, Copy, Debug)]
pub struct PhilosopherArguments {
    /// How many philosophers sit at the table.
    pub number_of_philosophers: i32,
    /// Shortest and longest time, in milliseconds, of thinking and of eating.
    pub range_in_ms: Option<(u32, u32)>,
    /// After how many milliseconds the run is wound up; `None` lets it run
    /// until it is stopped from outside.
    pub duration: Option<u64>,
    /// How reports reach the observer.
    pub delivery: Delivery,
}

impl Default for PhilosopherArguments {
    fn default() -> (args: Self)
        ensures
            args == (PhilosopherArguments {
                number_of_philosophers: 5,
                range_in_ms: Some((0u32, 1000u32)),
                duration: None,
                delivery: Delivery::Synchronous,
            }),
    {
        PhilosopherArguments {
            number_of_philosophers: 5,
            range_in_ms: Some((0, 1000)),
            duration: None,
            delivery: Delivery::Synchronous,
        }
    }
}

impl PhilosopherArguments {
    /// The range in force: the chosen one, or the default.
    pub open spec fn range(self) -> (u32, u32) {
        match self.range_in_ms {
            Some(range) => range,
            None => DEFAULT_RANGE_IN_MS,
        }
    }

    /// The verdict on a configuration. A count of zero or less is reported
    /// first; then a range whose shortest time exceeds its longest. A range
    /// that holds a single time is accepted.
    pub open spec fn verdict(self) -> Result<(), ConfigError> {
        if self.number_of_philosophers <= 0 {
            Err(ConfigError::InvalidActorCount)
        } else if self.range().0 > self.range().1 {
            Err(ConfigError::InvertedRange)
        } else {
            Ok(())
        }
    }

    /// The range in force: the chosen one, or the default.
    pub fn effective_range(&self) -> (range: (u32, u32))
        ensures
            range == self.range(),
    {
        match self.range_in_ms {
            Some(range) => range,
            None => DEFAULT_RANGE_IN_MS,
        }
    }

    /// Checks the configuration.
    pub fn validate(&self) -> (checked: Result<(), ConfigError>)
        ensures
            checked == self.verdict(),
    {
        let range: (u32, u32) = self.effective_range();
        if self.number_of_philosophers <= 0 {
            Err(ConfigError::InvalidActorCount)
        } else if range.0 > range.1 {
            Err(ConfigError::InvertedRange)
        } else {
            Ok(())
        }
    }
}

} // verus!
