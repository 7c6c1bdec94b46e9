//! Keys, and the commands that they stand for.

use crate::mode::{AppMode, InputType};
use vstd::prelude::*;

verus! {

/// A key as the application tells keys apart. Every key that it gives no
/// meaning to is `Other`.
#[derive(Debug, Clone, Copy, PartialEq, Eq, Structural)]
pub enum Key {
    Char(char),
    Left,
    Right,
    Up,
    Down,
    Backspace,
    Esc,
    Other,
}

/// What the application can be told to do.
#[derive(Debug, Clone, Copy, PartialEq, Eq, Structural)]
pub enum Command {
    /// Leave the application.
    Quit,
    /// Take the cursor off the listing.
    Unselect,
    /// Go into the selected directory.
    EnterSelected,
    /// Move the cursor one entry on.
    Next,
    /// Move the cursor one entry back.
    Previous,
    /// Start collecting text for a purpose.
    BeginInput(InputType),
    /// Add a character to the text.
    Append(char),
    /// Take the last character off the text.
    Backspace,
    /// Carry out what the text was collected for.
    Confirm,
    /// Drop the text and navigate again.
    Cancel,
    /// Do nothing.
    Nothing,
}

/// The command that a key stands for while navigating.
pub open spec fn navigation_command(key: Key) -> Command {
    match key {
        Key::Char(c) => if c == 'q' {
            Command::Quit
        } else if c == 'a' {
            Command::Unselect
        } else if c == 'd' || c == '\n' {
            Command::EnterSelected
        } else if c == 's' {
            Command::Next
        } else if c == 'w' {
            Command::Previous
        } else if c == 'p' {
            Command::BeginInput(InputType::Permission)
        } else if c == 'c' {
            Command::BeginInput(InputType::CopyFile)
        } else if c == 'j' {
            Command::BeginInput(InputType::ChangeDir)
        } else {
            Command::Nothing
        },
        Key::Left => Command::Unselect,
        Key::Right => Command::EnterSelected,
        Key::Down => Command::Next,
        Key::Up => Command::Previous,
        _ => Command::Nothing,
    }
}

/// The command that a key stands for while text is collected.
pub open spec fn input_command(key: Key) -> Command {
    match key {
        Key::Char(c) => if c == '\n' {
            Command::Confirm
        } else {
            Command::Append(c)
        },
        Key::Backspace => Command::Backspace,
        Key::Esc => Command::Cancel,
        _ => Command::Nothing,
    }
}

/// The command that a key stands for in a mode.
pub open spec fn key_command(mode: AppMode, key: Key) -> Command {
    match mode {
        AppMode::Nav => navigation_command(key),
        AppMode::Input(_) => input_command(key),
    }
}

/// Tells which command a key stands for in a mode.
pub fn command_for(mode: AppMode, key: Key) -> (command: Command)
    ensures
        command == key_command(mode, key),
{
    match mode {
        AppMode::Nav => match key {
            Key::Char('q') => Command::Quit,
            Key::Left | Key::Char('a') => Command::Unselect,
            Key::Right | Key::Char('d') | Key::Char('\n') => Command::EnterSelected,
            Key::Down | Key::Char('s') => Command::Next,
            Key::Up | Key::Char('w') => Command::Previous,
            Key::Char('p') => Command::BeginInput(InputType::Permission),
            Key::Char('c') => Command::BeginInput(InputType::CopyFile),
            Key::Char('j') => Command::BeginInput(InputType::ChangeDir),
            _ => Command::Nothing,
        },
        AppMode::Input(_) => match key {
            Key::Char('\n') => Command::Confirm,
            Key::Char(c) => Command::Append(c),
            Key::Backspace => Command::Backspace,
            Key::Esc => Command::Cancel,
            _ => Command::Nothing,
        },
    }
}

/// While navigating no key adds to the text, and while text is collected
/// no key moves the cursor, enters a directory or leaves the application.
pub proof fn lemma_keys_keep_to_their_mode(mode: AppMode, key: Key)
    ensures
        mode == AppMode::Nav ==> !(key_command(mode, key) is Append) && !(key_command(
            mode,
            key,
        ) is Confirm),
        mode is Input ==> {
            let command = key_command(mode, key);
            command is Append || command is Backspace || command is Confirm || command is Cancel
                || command is Nothing
        },
{
}

} // verus!
