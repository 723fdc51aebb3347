//! Keys and the commands they stand for.

use vstd::prelude::*;

verus! {

/// A key of the keyboard, as far as the dashboard tells keys apart.
#[derive(Clone, Copy, Debug, PartialEq, Eq)]
pub enum Key {
    Up,
    Down,
    Enter,
    Esc,
    Backspace,
    Char(char),
    Other,
}

/// What happened to a key.
#[derive(Clone, Copy, Debug, PartialEq, Eq)]
pub enum KeyKind {
    Press,
    Repeat,
    Release,
}

/// One event of the keyboard.
#[derive(Clone, Copy, Debug, PartialEq, Eq)]
pub struct KeyInput {
    pub key: Key,
    pub kind: KeyKind,
}

/// What a key event asks of the dashboard.
#[derive(Clone, Copy, Debug, PartialEq, Eq)]
pub enum Command {
    /// Move the cursor up.
    Up,
    /// Move the cursor down.
    Down,
    /// Confirm the selected line, or acknowledge a result.
    Confirm,
    /// Leave the current screen.
    Cancel,
    /// Quit.
    Quit,
    /// Go to the parent directory.
    Backspace,
    /// Nothing: the event is ignored.
    Nothing,
}

/// The command that a key stands for when it is pressed.
pub open spec fn command_of_key(key: Key) -> Command {
    match key {
        Key::Up => Command::Up,
        Key::Down => Command::Down,
        Key::Enter => Command::Confirm,
        Key::Esc => Command::Cancel,
        Key::Backspace => Command::Backspace,
        Key::Char(c) => if c == 'k' {
            Command::Up
        } else if c == 'j' {
            Command::Down
        } else if c == 'q' {
            Command::Quit
        } else {
            Command::Nothing
        },
        Key::Other => Command::Nothing,
    }
}

/// The command of a key event. Only presses count; repeats and releases are
/// ignored.
pub open spec fn command_of(input: KeyInput) -> Command {
    if input.kind is Press {
        command_of_key(input.key)
    } else {
        Command::Nothing
    }
}

/// Classifies a key event.
pub fn classify(input: KeyInput) -> (command: Command)
    ensures
        command == command_of(input),
{
    match input.kind {
        KeyKind::Press => match input.key {
            Key::Up => Command::Up,
            Key::Down => Command::Down,
            Key::Enter => Command::Confirm,
            Key::Esc => Command::Cancel,
            Key::Backspace => Command::Backspace,
            Key::Char(c) => if c == 'k' {
                Command::Up
            } else if c == 'j' {
                Command::Down
            } else if c == 'q' {
                Command::Quit
            } else {
                Command::Nothing
            },
            Key::Other => Command::Nothing,
        },
        _ => Command::Nothing,
    }
}

/// A key that is not pressed commands nothing.
pub proof fn lemma_only_presses_count(input: KeyInput)
    requires
        !(input.kind is Press),
    ensures
        command_of(input) is Nothing,
{
}

} // verus!
