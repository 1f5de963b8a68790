//! What a key press means in each mode.
//!
//! The front end reads the keyboard, this module decides: it turns a key and
//! the current mode into the command that the front end carries out on the
//! state machine.

use crate::app::Mode;
use vstd::prelude::*;

verus! {

/// A key press, as far as the editor tells keys apart.
#[derive(Clone, Copy, Debug, PartialEq, Eq)]
pub enum Key {
    Char(char),
    Enter,
    Esc,
    Up,
    Down,
    Backspace,
    /// Any key without a meaning here.
    Other,
}

/// What the front end is to do next.
#[derive(Clone, Copy, Debug, PartialEq, Eq)]
pub enum Command {
    /// Leave the editor.
    Quit,
    /// Move the selection one item on.
    Next,
    /// Move the selection one item back.
    Previous,
    /// Choose the selected file.
    SelectFile,
    /// Go back to the file list.
    BackToFiles,
    /// Read the selected file's tags and open the selected field.
    StartEditing,
    /// Carry out the pending write and end the edit.
    FinishEditing,
    /// Give the edit up.
    CancelEditing,
    /// Append a character to the text of the edit.
    Type(char),
    /// Delete the last character of the text of the edit.
    DeleteLast,
    /// Nothing.
    Ignore,
}

/// The command that a key stands for in a mode.  The lists are walked with
/// the arrow keys and left with `q`; `b` leads from the field list back to the
/// file list; while a value is edited every character is text.
pub open spec fn command_of(mode: Mode, key: Key) -> Command {
    match mode {
        Mode::FileSelection => match key {
            Key::Char(c) => if c == 'q' {
                Command::Quit
            } else {
                Command::Ignore
            },
            Key::Down => Command::Next,
            Key::Up => Command::Previous,
            Key::Enter => Command::SelectFile,
            _ => Command::Ignore,
        },
        Mode::FieldSelection => match key {
            Key::Char(c) => if c == 'q' {
                Command::Quit
            } else if c == 'b' {
                Command::BackToFiles
            } else {
                Command::Ignore
            },
            Key::Down => Command::Next,
            Key::Up => Command::Previous,
            Key::Enter => Command::StartEditing,
            _ => Command::Ignore,
        },
        Mode::Editing => match key {
            Key::Enter => Command::FinishEditing,
            Key::Esc => Command::CancelEditing,
            Key::Char(c) => Command::Type(c),
            Key::Backspace => Command::DeleteLast,
            _ => Command::Ignore,
        },
    }
}

/// Decides what a key press means in the given mode.
pub fn command_for_key(mode: Mode, key: Key) -> (command: Command)
    ensures
        command == command_of(mode, key),
{
    match mode {
        Mode::FileSelection => match key {
            Key::Char(c) => if c == 'q' {
                Command::Quit
            } else {
                Command::Ignore
            },
            Key::Down => Command::Next,
            Key::Up => Command::Previous,
            Key::Enter => Command::SelectFile,
            _ => Command::Ignore,
        },
        Mode::FieldSelection => match key {
            Key::Char(c) => if c == 'q' {
                Command::Quit
            } else if c == 'b' {
                Command::BackToFiles
            } else {
                Command::Ignore
            },
            Key::Down => Command::Next,
            Key::Up => Command::Previous,
            Key::Enter => Command::StartEditing,
            _ => Command::Ignore,
        },
        Mode::Editing => match key {
            Key::Enter => Command::FinishEditing,
            Key::Esc => Command::CancelEditing,
            Key::Char(c) => Command::Type(c),
            Key::Backspace => Command::DeleteLast,
            _ => Command::Ignore,
        },
    }
}

/// The key bindings that the bottom line of the screen shows in each mode.
pub open spec fn help_of(mode: Mode) -> Seq<char> {
    match mode {
        Mode::FileSelection => "\u{2191}\u{2193}: Navigate | Enter: Select File | q: Quit"@,
        Mode::FieldSelection =>
            "\u{2191}\u{2193}: Navigate | Enter: Edit Field | b: Back to Files | q: Quit"@,
        Mode::Editing => "Type: Edit | Enter: Save | Esc: Cancel"@,
    }
}

/// Gives the key bindings to show in the given mode.
pub fn help_text(mode: Mode) -> (text: &'static str)
    ensures
        text@ == help_of(mode),
{
    match mode {
        Mode::FileSelection => "\u{2191}\u{2193}: Navigate | Enter: Select File | q: Quit",
        Mode::FieldSelection =>
            "\u{2191}\u{2193}: Navigate | Enter: Edit Field | b: Back to Files | q: Quit",
        Mode::Editing => "Type: Edit | Enter: Save | Esc: Cancel",
    }
}

/// No key moves the file selection or leaves for the file list while a value
/// is edited, and no key but the arrows moves a selection at all; while a
/// value is edited a character is never a command.
pub proof fn lemma_keys_respect_modes(mode: Mode, key: Key)
    ensures
        mode == Mode::Editing ==> command_of(mode, key) != Command::Next && command_of(mode, key)
            != Command::Previous && command_of(mode, key) != Command::BackToFiles && command_of(
            mode,
            key,
        ) != Command::Quit,
        command_of(mode, key) == Command::Next ==> key == Key::Down,
        command_of(mode, key) == Command::Previous ==> key == Key::Up,
        mode == Mode::Editing ==> (key matches Key::Char(c) ==> command_of(mode, key) == Command::Type(c)),
        command_of(mode, key) == Command::SelectFile ==> mode == Mode::FileSelection,
        command_of(mode, key) == Command::StartEditing ==> mode == Mode::FieldSelection,
        command_of(mode, key) == Command::FinishEditing ==> mode == Mode::Editing,
{
}

} // verus!
