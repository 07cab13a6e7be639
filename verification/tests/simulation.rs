use dining_philosophers::config::{Delivery, PhilosopherArguments};
use dining_philosophers::event::State;
use dining_philosophers::orchestrator::{Orchestrator, Reception};
use dining_philosophers::philosopher::Hold;
use dining_philosophers::seating::setup;
use dining_philosophers::table::Table;
use dining_philosophers::worker::{Action, Outcome, Stage, Worker};

/// What a run on a simulated clock left behind.
struct Record {
    reports: Vec<(u64, State)>,
    shown: Vec<String>,
    left_at: Vec<Option<u64>>,
    asked_to_stop_at: Option<u64>,
    finished: bool,
    table: Table,
    workers: Vec<Worker>,
}

/// No fork is counted in two hands, and the table and the hands agree.
fn check_hands(table: &Table, workers: &[Worker]) {
    for fork in 0..table.len() {
        let mut hands = 0;
        for worker in workers {
            let p = worker.philosopher;
            let has = match worker.held {
                Hold::Neither => false,
                Hold::Left => p.left == fork,
                Hold::Both => p.left == fork || p.right == fork,
            };
            if has {
                hands += 1;
                assert_eq!(table.holder(fork), Some(p.index));
            }
        }
        assert!(hands <= 1);
        assert_eq!(table.holder(fork).is_some(), hands == 1);
    }
    for worker in workers {
        match worker.stage {
            Stage::Eating => assert_eq!(worker.held, Hold::Both),
            Stage::Acquiring => assert_ne!(worker.held, Hold::Both),
            _ => assert_eq!(worker.held, Hold::Neither),
        }
    }
}

/// Runs the workers on a simulated clock. A worker whose pause ends first
/// moves first; among equals the lower number moves first. Reports are
/// handed to the run loop the moment they are made. With `closed_at_start`
/// the control channel is closed before any worker moves.
fn simulate(args: &PhilosopherArguments, closed_at_start: bool, horizon: u64) -> Record {
    let (philosophers, mut table) = setup(args).unwrap();
    let mut workers: Vec<Worker> = philosophers.into_iter().map(Worker::new).collect();
    let count = workers.len();
    let mut ready_at: Vec<u64> = vec![0; count];
    let mut blocked: Vec<bool> = vec![false; count];
    let mut outcome: Vec<Outcome> = vec![Outcome::Completed; count];
    let mut record = Record {
        reports: Vec::new(),
        shown: Vec::new(),
        left_at: vec![None; count],
        asked_to_stop_at: None,
        finished: false,
        table: Table::new(0),
        workers: Vec::new(),
    };
    let mut orchestrator = Orchestrator::new(args, true);
    let mut control_closed = closed_at_start;
    loop {
        let mut next: Option<usize> = None;
        for who in 0..count {
            if record.left_at[who].is_none() && !blocked[who] {
                if next.map_or(true, |best| ready_at[who] < ready_at[best]) {
                    next = Some(who);
                }
            }
        }
        let who = match next {
            Some(who) => who,
            None => break,
        };
        let now = ready_at[who];
        if now > horizon {
            break;
        }
        let action = workers[who].step(&mut table, outcome[who]);
        check_hands(&table, &workers);
        outcome[who] = Outcome::Completed;
        match action {
            Action::Report(event) => {
                record.reports.push((now, event));
                let directive = orchestrator.step(Reception::Event(event), now);
                if let Some(state) = directive.show {
                    record.shown.push(state.to_string());
                }
                if directive.close_control {
                    control_closed = true;
                    record.asked_to_stop_at = Some(now);
                }
                ready_at[who] = now + u64::from(event.message().for_a_time.unwrap_or(0));
            }
            Action::AwaitForks => {
                blocked[who] = true;
            }
            Action::PollControl | Action::Exit => {
                for other in 0..count {
                    if blocked[other] {
                        blocked[other] = false;
                        ready_at[other] = now;
                    }
                }
                if action == Action::Exit {
                    record.left_at[who] = Some(now);
                } else if control_closed {
                    outcome[who] = Outcome::ShutdownRequested;
                }
            }
        }
    }
    if record.left_at.iter().all(|left| left.is_some()) {
        let directive = orchestrator.step(Reception::Closed, horizon);
        record.finished = directive.finished;
    }
    record.table = table;
    record.workers = workers;
    record
}

fn rounds_of(record: &Record, who: i32) -> usize {
    record
        .reports
        .iter()
        .filter(|(_, event)| matches!(event, State::Eating(m) if m.index == who))
        .count()
}

fn reports_of(record: &Record, who: i32) -> Vec<State> {
    record
        .reports
        .iter()
        .filter(|(_, event)| event.message().index == who)
        .map(|(_, event)| *event)
        .collect()
}

fn arguments(count: i32, range: (u32, u32), duration: Option<u64>) -> PhilosopherArguments {
    PhilosopherArguments {
        number_of_philosophers: count,
        range_in_ms: Some(range),
        duration,
        delivery: Delivery::Synchronous,
    }
}

#[test]
fn five_philosophers_for_205_ms() {
    let record = simulate(&arguments(5, (10, 10), Some(205)), false, 10_000);
    assert!(record.finished);
    let asked = record.asked_to_stop_at.unwrap();
    assert!(asked > 205);
    for who in 0..5 {
        let rounds = rounds_of(&record, who);
        assert!(rounds <= 12, "philosopher {} ate {} times", who, rounds);
        assert!(rounds >= 8, "philosopher {} ate {} times", who, rounds);
        let own = reports_of(&record, who);
        assert_eq!(own.len(), 3 * rounds);
        assert!(matches!(own.last(), Some(State::Eating(_)) | Some(State::Thinking(_))));
        let left = record.left_at[who as usize].unwrap();
        assert!(left <= asked + 40, "philosopher {} left at {}", who, left);
    }
    assert_eq!(record.shown.len(), record.reports.len());
    for fork in 0..5 {
        assert_eq!(record.table.holder(fork), None);
    }
    for worker in &record.workers {
        assert!(worker.is_stopped());
    }
}

#[test]
fn reports_of_each_philosopher_come_in_rounds() {
    let record = simulate(&arguments(5, (3, 17), Some(400)), false, 100_000);
    for who in 0..5 {
        let own = reports_of(&record, who);
        assert!(!own.is_empty());
        for (position, event) in own.iter().enumerate() {
            match position % 3 {
                0 => assert!(matches!(event, State::Thinking(m) if m.for_a_time.is_some())),
                1 => assert!(matches!(event, State::Waiting(m) if m.for_a_time.is_none())),
                _ => assert!(matches!(event, State::Eating(m) if m.for_a_time.is_some())),
            }
            if let Some(time) = event.message().for_a_time {
                assert!(3 <= time && time < 17);
            }
        }
    }
}

#[test]
fn control_closed_at_the_start_gives_one_round_each() {
    let record = simulate(&arguments(5, (10, 10), None), true, 10_000);
    assert!(record.finished);
    for who in 0..5 {
        assert_eq!(rounds_of(&record, who), 1);
        assert_eq!(reports_of(&record, who).len(), 3);
        assert!(matches!(reports_of(&record, who).last(), Some(State::Eating(_))));
        assert!(record.left_at[who as usize].is_some());
    }
    for worker in &record.workers {
        assert_eq!((worker.stage, worker.held), (Stage::Stopped, Hold::Neither));
    }
}

#[test]
fn shown_lines_are_the_rendered_reports() {
    let record = simulate(&arguments(2, (10, 10), Some(15)), false, 1_000);
    assert_eq!(record.shown[0], "Philosopher 0 is thinking for 10 ms");
    assert_eq!(record.shown[1], "Philosopher 1 is thinking for 10 ms");
    assert_eq!(record.shown[2], "Philosopher 0 is waiting to eat");
    assert_eq!(record.shown[3], "Philosopher 0 is eating for 10 ms");
    assert_eq!(record.shown[4], "Philosopher 1 is waiting to eat");
    assert!(record.finished);
}

#[test]
fn a_lone_philosopher_waits_for_ever() {
    let record = simulate(&arguments(1, (10, 10), Some(50)), false, 1_000);
    assert!(!record.finished);
    assert_eq!(record.left_at, vec![None]);
    assert_eq!(reports_of(&record, 0).len(), 2);
    assert_eq!((record.workers[0].stage, record.workers[0].held), (Stage::Acquiring, Hold::Left));
}
