use dining_philosophers::config::{ConfigError, Delivery, PhilosopherArguments};
use dining_philosophers::philosopher::Philosopher;
use dining_philosophers::seating::setup;

fn arguments(count: i32, range: Option<(u32, u32)>) -> PhilosopherArguments {
    PhilosopherArguments {
        number_of_philosophers: count,
        range_in_ms: range,
        duration: None,
        delivery: Delivery::Synchronous,
    }
}

#[test]
fn default_arguments() {
    let args = PhilosopherArguments::default();
    assert_eq!(args.number_of_philosophers, 5);
    assert_eq!(args.range_in_ms, Some((0, 1000)));
    assert_eq!(args.duration, None);
    assert_eq!(args.delivery, Delivery::Synchronous);
    assert_eq!(args.validate(), Ok(()));
}

#[test]
fn delivery_capacity() {
    assert_eq!(Delivery::Synchronous.capacity(), Some(0));
    assert_eq!(Delivery::Unbounded.capacity(), None);
}

#[test]
fn range_falls_back_to_the_default() {
    assert_eq!(arguments(3, None).effective_range(), (0, 1000));
    assert_eq!(arguments(3, Some((5, 9))).effective_range(), (5, 9));
}

#[test]
fn zero_philosophers_are_rejected() {
    assert_eq!(arguments(0, None).validate(), Err(ConfigError::InvalidActorCount));
    assert_eq!(setup(&arguments(0, None)).err(), Some(ConfigError::InvalidActorCount));
}

#[test]
fn negative_count_is_rejected() {
    assert_eq!(arguments(-1, None).validate(), Err(ConfigError::InvalidActorCount));
    assert_eq!(arguments(i32::MIN, None).validate(), Err(ConfigError::InvalidActorCount));
    assert_eq!(setup(&arguments(-7, Some((1, 2)))).err(), Some(ConfigError::InvalidActorCount));
}

#[test]
fn inverted_range_is_rejected() {
    assert_eq!(arguments(5, Some((11, 10))).validate(), Err(ConfigError::InvertedRange));
    assert_eq!(setup(&arguments(5, Some((1000, 0)))).err(), Some(ConfigError::InvertedRange));
}

#[test]
fn count_is_judged_before_the_range() {
    assert_eq!(arguments(0, Some((2, 1))).validate(), Err(ConfigError::InvalidActorCount));
}

#[test]
fn single_time_range_is_accepted() {
    assert_eq!(arguments(5, Some((10, 10))).validate(), Ok(()));
    assert!(setup(&arguments(5, Some((10, 10)))).is_ok());
}

#[test]
fn setup_seats_a_ring() {
    let (philosophers, table) = setup(&arguments(5, Some((10, 20)))).unwrap();
    assert_eq!(
        philosophers,
        vec![
            Philosopher { index: 0, left: 0, right: 1, range: (10, 20) },
            Philosopher { index: 1, left: 1, right: 2, range: (10, 20) },
            Philosopher { index: 2, left: 2, right: 3, range: (10, 20) },
            Philosopher { index: 3, left: 3, right: 4, range: (10, 20) },
            Philosopher { index: 4, left: 4, right: 0, range: (10, 20) },
        ]
    );
    assert_eq!(table.len(), 5);
    for fork in 0..5 {
        assert_eq!(table.holder(fork), None);
    }
    for philosopher in &philosophers {
        assert!(philosopher.is_seated_at(table.len()));
        assert_ne!(philosopher.left, philosopher.right);
    }
}

#[test]
fn setup_uses_the_default_range() {
    let (philosophers, _table) = setup(&arguments(2, None)).unwrap();
    assert_eq!(
        philosophers,
        vec![
            Philosopher { index: 0, left: 0, right: 1, range: (0, 1000) },
            Philosopher { index: 1, left: 1, right: 0, range: (0, 1000) },
        ]
    );
}

#[test]
fn a_lone_philosopher_has_one_fork_twice() {
    let (philosophers, table) = setup(&arguments(1, Some((1, 2)))).unwrap();
    assert_eq!(philosophers, vec![Philosopher { index: 0, left: 0, right: 0, range: (1, 2) }]);
    assert_eq!(table.len(), 1);
}

#[test]
fn new_keeps_what_it_is_given() {
    let philosopher = Philosopher::new(3, 7, 2, (4, 9));
    assert_eq!(philosopher, Philosopher { index: 3, left: 7, right: 2, range: (4, 9) });
    assert!(philosopher.is_seated_at(8));
    assert!(!philosopher.is_seated_at(7));
    assert!(!Philosopher::new(0, 0, 1, (9, 4)).is_seated_at(2));
    assert!(!Philosopher::new(0, 0, 2, (1, 4)).is_seated_at(2));
}
