//! The text buffer of an input popup, kept by `tui_input`.
//!
//! The buffer is a value of `tui_input::Input` and is edited by that crate
//! alone. What this module says of it is taken on trust from the crate's
//! source: nothing here is proved.

use crate::keys::{Key, KeyCode};
use crossterm::event::KeyCode as TermKey;
use crossterm::event::{Event, KeyEvent, KeyModifiers};
use tui_input::backend::crossterm::EventHandler;
use vstd::prelude::*;

verus! {

/// `tui_input::Input`: a line of text with a cursor in it. Its inside is
/// not visible here; [`input_text`] and [`input_cursor`] speak of it.
#[verifier::external_type_specification]
#[verifier::external_body]
pub struct ExInput(tui_input::Input);

/// The characters that a buffer holds, in order: what `Input::value()`
/// returns.
pub uninterp spec fn input_text(input: tui_input::Input) -> Seq<char>;

/// The number of characters before the cursor of a buffer: what
/// `Input::cursor()` returns.
pub uninterp spec fn input_cursor(input: tui_input::Input) -> nat;

/// The buffer that `Input::handle_event()` makes of `input` when `key` is
/// pressed. The editor reads nothing but the buffer and the key.
pub uninterp spec fn input_after_key(input: tui_input::Input, key: Key) -> tui_input::Input;

/// The number of terminal columns that the first `cursor` characters of
/// `text` take: what `Input::visual_cursor()` returns for a buffer with
/// that text and cursor.
pub uninterp spec fn cursor_column(text: Seq<char>, cursor: nat) -> nat;

/// `tui_input::Input::default()`: an empty buffer with the cursor at its
/// start.
pub assume_specification[ <tui_input::Input as Default>::default ]() -> (input: tui_input::Input)
    ensures
        input_text(input) == Seq::<char>::empty(),
        input_cursor(input) == 0,
;

/// `tui_input::Input::value()`: the text of the buffer.
pub assume_specification[ tui_input::Input::value ](input: &tui_input::Input) -> (text: &str)
    ensures
        text@ == input_text(*input),
;

/// `tui_input::Input::visual_cursor()`: the display width of the text
/// before the cursor. It depends on that text alone.
pub assume_specification[ tui_input::Input::visual_cursor ](input: &tui_input::Input) -> (column: usize)
    ensures
        column == cursor_column(input_text(*input), input_cursor(*input)),
;

/// What is known of the buffer `after` that `tui_input` makes of `before`
/// when `key` is pressed. It is a function of the buffer and the key. A
/// character typed as text is inserted at the cursor, which moves past it.
/// A key that the editor does not know leaves the buffer as it was. The
/// cursor never stands beyond the end of the text.
pub open spec fn edited(before: tui_input::Input, key: Key, after: tui_input::Input) -> bool {
    &&& after == input_after_key(before, key)
    &&& input_cursor(after) <= input_text(after).len()
    &&& key.types_char() ==> {
        &&& input_text(after) == input_text(before).insert(
            input_cursor(before) as int,
            key.code->Char_0,
        )
        &&& input_cursor(after) == input_cursor(before) + 1
    }
    &&& key.is_inert() ==> after == before
}

/// `tui_input::backend::crossterm::EventHandler::handle_event()` of
/// `tui_input::Input`, on the press of `key`: the buffer is edited as the
/// crate binds the key. See [`edited`] for what is claimed of the outcome.
#[verifier::external_body]
pub(crate) fn input_handle_key(input: &mut tui_input::Input, key: Key)
    ensures
        *final(input) == input_after_key(*old(input), key),
        edited(*old(input), key, *final(input)),
{
    let modifiers = KeyModifiers::from_bits_truncate(key.modifiers);
    let _ = input.handle_event(&Event::Key(KeyEvent::new(match key.code {
        KeyCode::Up => TermKey::Up,
        KeyCode::Down => TermKey::Down,
        KeyCode::Left => TermKey::Left,
        KeyCode::Right => TermKey::Right,
        KeyCode::Enter => TermKey::Enter,
        KeyCode::Esc => TermKey::Esc,
        KeyCode::Backspace => TermKey::Backspace,
        KeyCode::Delete => TermKey::Delete,
        KeyCode::Home => TermKey::Home,
        KeyCode::End => TermKey::End,
        KeyCode::Char(c) => TermKey::Char(c),
        KeyCode::Other => TermKey::Null,
    }, modifiers)));
}

} // verus!
