use dining_philosophers::board::{
    blank_board, header, label_of, record, row_string, status_line, update_board,
};
use dining_philosophers::event::{State, StateMessage};

fn report(index: i32) -> StateMessage {
    StateMessage { index, for_a_time: Some(1) }
}

#[test]
fn labels() {
    assert_eq!(label_of(&State::Thinking(report(0))), "Thinking");
    assert_eq!(label_of(&State::Eating(report(0))), "Eating");
    assert_eq!(label_of(&State::Waiting(report(0))), "Waiting");
}

#[test]
fn blank_board_says_nothing() {
    assert_eq!(blank_board(0), Vec::<String>::new());
    assert_eq!(blank_board(3), vec!["Nothing", "Nothing", "Nothing"]);
}

#[test]
fn header_clears_and_names_the_columns() {
    assert_eq!(header(0), "\u{1b}[2J\u{1b}[1;1H");
    assert_eq!(header(-3), "\u{1b}[2J\u{1b}[1;1H");
    assert_eq!(header(2), "\u{1b}[2J\u{1b}[1;1HPhilosopher 0 |Philosopher 1 |");
    let wide = header(11);
    assert!(wide.ends_with("Philosopher 9 |Philosopher 10 |"));
}

#[test]
fn record_changes_one_column() {
    let mut states = blank_board(3);
    record(&State::Eating(report(1)), &mut states);
    assert_eq!(states, vec!["Nothing", "Eating", "Nothing"]);
    record(&State::Waiting(report(2)), &mut states);
    record(&State::Thinking(report(1)), &mut states);
    assert_eq!(states, vec!["Nothing", "Thinking", "Waiting"]);
}

#[test]
fn row_pads_each_column() {
    assert_eq!(row_string(&Vec::new()), "");
    let states = vec![String::from("Eating"), String::from("Thinking")];
    assert_eq!(row_string(&states), "Eating        |Thinking      |");
    let long = vec![String::from("A text of twenty char")];
    assert_eq!(row_string(&long), "A text of twenty char |");
}

#[test]
fn status_line_redraws_the_second_line() {
    let states = vec![String::from("Waiting")];
    assert_eq!(status_line(&states), "\u{1b}[2;1H\u{1b}[JWaiting       |");
    assert_eq!(status_line(&Vec::new()), "\u{1b}[2;1H\u{1b}[J");
}

#[test]
fn update_board_records_and_redraws() {
    let mut states = blank_board(2);
    let text = update_board(&State::Thinking(report(0)), &mut states);
    assert_eq!(states, vec!["Thinking", "Nothing"]);
    assert_eq!(text, "\u{1b}[2;1H\u{1b}[JThinking      |Nothing       |");
    let text = update_board(&State::Eating(report(1)), &mut states);
    assert_eq!(text, "\u{1b}[2;1H\u{1b}[JThinking      |Eating        |");
}
