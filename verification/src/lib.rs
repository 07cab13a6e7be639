//! A verified core for simulating the dining philosophers.
//!
//! Philosophers sit around a table, a fork between each two of them. Each
//! one thinks, waits for the two forks beside them, eats, puts the forks
//! down and starts over, and reports every change of activity to one
//! observer.
//!
//! The library holds every decision of the simulation and proves what it
//! promises about them: which configurations are accepted, who sits where,
//! when a fork changes hands, in which order a philosopher reports, when the
//! run is wound up, and what is shown for each report. It never waits. The
//! program around it owns the threads, the clock and the channels: it
//! carries out what a step asks for and tells the next step how it went.
//!
//! Nothing orders the forks, so a circle of philosophers who each hold
//! their left fork and wait for their right one can come about, and the
//! library does not prevent it. What it rules out is that a fork is ever in
//! two hands.

pub mod board;
pub mod config;
pub mod event;
pub mod exclusion;
pub mod orchestrator;
pub mod philosopher;
pub mod seating;
pub mod table;
pub mod text;
pub mod timing;
pub mod worker;

pub use config::{ConfigError, Delivery, PhilosopherArguments};
pub use event::{State, StateMessage};
pub use orchestrator::Orchestrator;
pub use philosopher::{Hold, Philosopher};
pub use seating::setup;
pub use table::Table;
pub use worker::Worker;
