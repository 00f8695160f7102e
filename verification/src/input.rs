//! What the keyboard tells the program, and what the program does about it.
//!
//! The loop that waits for keys lives outside this library. It reports each
//! thing that happened as an [`Input`] and is told by [`command_for`] what
//! that means.

use vstd::prelude::*;

verus! {

/// Whether a key went down, is held down, or came up.
#[derive(Clone, Copy, Debug, PartialEq, Eq, Structural)]
pub enum KeyKind {
    Press,
    Repeat,
    Release,
}

/// The keys that the program tells apart.
#[derive(Clone, Copy, Debug, PartialEq, Eq, Structural)]
pub enum KeyCode {
    /// A key that types a character.
    Char(char),
    /// The up arrow.
    Up,
    /// The down arrow.
    Down,
    /// Any other key.
    Other,
}

/// What happened while the loop waited.
#[derive(Clone, Copy, Debug, PartialEq, Eq, Structural)]
pub enum Input {
    /// A key event.
    Key { kind: KeyKind, code: KeyCode },
    /// An event that is not a key event.
    Other,
    /// Nothing happened before the wait ran out.
    Idle,
}

/// What the user asks for.
#[derive(Clone, Copy, Debug, PartialEq, Eq, Structural)]
pub enum Command {
    /// Leave the program.
    Quit,
    /// Flip the watched flag of the record under the cursor.
    Toggle,
    /// Move the cursor down.
    Next,
    /// Move the cursor up.
    Previous,
    /// Do nothing.
    Ignore,
}

/// The state of the loop: it runs until the user quits.
#[derive(Clone, Copy, Debug, PartialEq, Eq, Structural)]
pub enum LoopState {
    Running,
    Quitting,
}

/// The command that a pressed key stands for: `q` quits, the space bar
/// toggles, the down arrow and `j` move down, the up arrow and `k` move up.
/// No other key means anything.
pub open spec fn command_of_key(code: KeyCode) -> Command {
    match code {
        KeyCode::Char('q') => Command::Quit,
        KeyCode::Char(' ') => Command::Toggle,
        KeyCode::Down | KeyCode::Char('j') => Command::Next,
        KeyCode::Up | KeyCode::Char('k') => Command::Previous,
        _ => Command::Ignore,
    }
}

/// The command that an input stands for. Only a key that goes down counts.
pub open spec fn command_of(input: Input) -> Command {
    match input {
        Input::Key { kind: KeyKind::Press, code } => command_of_key(code),
        _ => Command::Ignore,
    }
}

/// The state of the loop after `command` was carried out.
pub open spec fn state_after(command: Command) -> LoopState {
    if command == Command::Quit {
        LoopState::Quitting
    } else {
        LoopState::Running
    }
}

/// Tells what `input` asks for.
pub fn command_for(input: Input) -> (command: Command)
    ensures
        command == command_of(input),
{
    match input {
        Input::Key { kind: KeyKind::Press, code } => match code {
            KeyCode::Char('q') => Command::Quit,
            KeyCode::Char(' ') => Command::Toggle,
            KeyCode::Down | KeyCode::Char('j') => Command::Next,
            KeyCode::Up | KeyCode::Char('k') => Command::Previous,
            _ => Command::Ignore,
        },
        _ => Command::Ignore,
    }
}

} // verus!
