//! The status board: one column for each philosopher, a heading above and
//! the latest activity below, redrawn in place on a terminal.

use crate::event::State;
use crate::text::{align_left, align_left_string, decimal, decimal_string};
use vstd::prelude::*;

verus! {

/// Width of a column of the board, not counting the bar that closes it.
pub const CELL_WIDTH: usize = 13;

/// The two characters that open a control sequence: escape and `[`.
pub open spec fn csi() -> Seq<char> {
    seq!['\u{1b}', '[']
}

/// The control sequence that moves the cursor to `column` of `row`, both
/// counted from one.
pub open spec fn goto_text(column: u16, row: u16) -> Seq<char> {
    csi() + decimal(row as nat) + seq![';'] + decimal(column as nat) + seq!['H']
}

/// The control sequence that clears the whole screen.
pub open spec fn clear_all_text() -> Seq<char> {
    csi() + seq!['2', 'J']
}

/// The control sequence that clears everything after the cursor.
pub open spec fn clear_rest_text() -> Seq<char> {
    csi() + seq!['J']
}

/// What the board shows for a report.
pub open spec fn label(state: State) -> Seq<char> {
    match state {
        State::Eating(_) => "Eating"@,
        State::Thinking(_) => "Thinking"@,
        State::Waiting(_) => "Waiting"@,
    }
}

/// One column: the text at the left edge of thirteen characters, a blank
/// and a bar.
pub open spec fn cell(text: Seq<char>) -> Seq<char> {
    align_left(text, CELL_WIDTH as nat) + " |"@
}

/// The columns of `texts`, one after the other.
pub open spec fn row(texts: Seq<Seq<char>>) -> Seq<char>
    decreases texts.len(),
{
    if texts.len() == 0 {
        Seq::empty()
    } else {
        row(texts.drop_last()) + cell(texts.last())
    }
}

/// The headings of the first `count` philosophers, each closed by a blank
/// and a bar.
pub open spec fn headings(count: nat) -> Seq<char>
    decreases count,
{
    if count == 0 {
        Seq::empty()
    } else {
        headings((count - 1) as nat) + "Philosopher "@ + decimal((count - 1) as nat) + " |"@
    }
}

/// What is written to open the board for `count` philosophers: the screen
/// is cleared, the cursor goes to the top left corner, and the headings
/// follow. A count below one gives no headings.
pub open spec fn header_text(count: int) -> Seq<char> {
    clear_all_text() + goto_text(1, 1) + headings(
        if count > 0 {
            count as nat
        } else {
            0
        },
    )
}

/// What is written to redraw the board: the cursor goes to the start of
/// the second line, the rest of the screen is cleared, and the columns
/// follow.
pub open spec fn status_text(texts: Seq<Seq<char>>) -> Seq<char> {
    goto_text(1, 2) + clear_rest_text() + row(texts)
}

/// What the columns of a board say.
pub open spec fn texts(states: Seq<String>) -> Seq<Seq<char>> {
    Seq::new(states.len(), |i: int| states[i]@)
}

/// The board before any report: `Nothing` in each of `count` columns.
pub open spec fn blank(count: nat) -> Seq<Seq<char>> {
    Seq::new(count, |i: int| "Nothing"@)
}

/// `String::from` for `termion::cursor::Goto`: the sequence that moves the
/// cursor. The crate writes escape, `[`, the row's numeral, `;`, the
/// column's numeral and `H`, for any two numbers.
#[verifier::external_body]
fn cursor_goto(column: u16, row: u16) -> (sequence: String)
    ensures
        sequence@ == goto_text(column, row),
{
    String::from(termion::cursor::Goto(column, row))
}

/// `as_ref` of `termion::clear::All`, taken as a string slice: the sequence
/// that clears the screen. The crate gives escape, `[`, `2`, `J`.
#[verifier::external_body]
fn clear_all() -> (sequence: &'static str)
    ensures
        sequence@ == clear_all_text(),
{
    termion::clear::All.as_ref()
}

/// `as_ref` of `termion::clear::AfterCursor`, taken as a string slice: the
/// sequence that clears what follows the cursor. The crate gives escape,
/// `[`, `J`.
#[verifier::external_body]
fn clear_after_cursor() -> (sequence: &'static str)
    ensures
        sequence@ == clear_rest_text(),
{
    termion::clear::AfterCursor.as_ref()
}

/// What the board shows for a report.
pub fn label_of(state: &State) -> (name: &'static str)
    ensures
        name@ == label(*state),
{
    match state {
        State::Eating(_) => "Eating",
        State::Thinking(_) => "Thinking",
        State::Waiting(_) => "Waiting",
    }
}

/// A board for `count` philosophers of whom nothing is known yet.
pub fn blank_board(count: usize) -> (states: Vec<String>)
    ensures
        texts(states@) == blank(count as nat),
{
    let mut states: Vec<String> = Vec::new();
    let mut k: usize = 0;
    while k < count
        invariant
            k <= count,
            states@.len() == k,
            texts(states@) == blank(k as nat),
        decreases count - k,
    {
        let ghost before = texts(states@);
        states.push(String::from_str("Nothing"));
        k = k + 1;
        assert(texts(states@) =~= blank(k as nat)) by {
            assert forall|i: int| 0 <= i < k implies texts(states@)[i] == "Nothing"@ by {
                if i < k - 1 {
                    assert(texts(states@)[i] == before[i]);
                }
            }
        }
    }
    states
}

/// Writes the opening of the board for `count` philosophers.
pub fn header(count: i32) -> (text: String)
    ensures
        text@ == header_text(count as int),
{
    let mut text: String = String::from_str(clear_all());
    let home: String = cursor_goto(1, 1);
    text.append(home.as_str());
    let mut k: i32 = 0;
    while k < count
        invariant
            0 <= k,
            count >= 0 ==> k <= count,
            count < 0 ==> k == 0,
            text@ == clear_all_text() + goto_text(1, 1) + headings(k as nat),
        decreases count - k,
    {
        text.append("Philosopher ");
        let number: String = decimal_string(k as u64);
        text.append(number.as_str());
        text.append(" |");
        k = k + 1;
    }
    text
}

/// Enters a report on the board: the column of the philosopher who reports
/// shows the new activity, all others stay.
pub fn record(new_state: &State, states: &mut Vec<String>)
    requires
        0 <= new_state.content().index < old(states).len(),
    ensures
        texts(final(states)@) == texts(old(states)@).update(
            new_state.content().index as int,
            label(*new_state),
        ),
{
    let at: usize = new_state.message().index as usize;
    states.set(at, String::from_str(label_of(new_state)));
}

/// Writes the columns of the board.
pub fn row_string(states: &Vec<String>) -> (text: String)
    ensures
        text@ == row(texts(states@)),
{
    let mut text: String = String::new();
    let mut k: usize = 0;
    let ghost shown = texts(states@);
    while k < states.len()
        invariant
            k <= states.len(),
            shown == texts(states@),
            text@ == row(shown.take(k as int)),
        decreases states.len() - k,
    {
        let column: String = align_left_string(states[k].clone(), CELL_WIDTH);
        text.append(column.as_str());
        text.append(" |");
        assert(shown.take(k + 1).drop_last() == shown.take(k as int));
        k = k + 1;
    }
    assert(shown.take(k as int) == shown);
    text
}

/// Writes what redraws the board.
pub fn status_line(states: &Vec<String>) -> (text: String)
    ensures
        text@ == status_text(texts(states@)),
{
    let mut text: String = cursor_goto(1, 2);
    text.append(clear_after_cursor());
    let columns: String = row_string(states);
    text.append(columns.as_str());
    text
}

/// Enters a report on the board and writes what redraws it.
pub fn update_board(new_state: &State, states: &mut Vec<String>) -> (text: String)
    requires
        0 <= new_state.content().index < old(states).len(),
    ensures
        texts(final(states)@) == texts(old(states)@).update(
            new_state.content().index as int,
            label(*new_state),
        ),
        text@ == status_text(texts(final(states)@)),
{
    record(new_state, states);
    status_line(states)
}

} // verus!
