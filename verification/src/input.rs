use vstd::prelude::*;

verus! {

/// A keyboard input, already stripped of terminal encoding details.
#[derive(Clone, Copy, Debug, PartialEq, Eq, Structural)]
pub enum Key {
    Quit,
    Down,
    Up,
    Right,
    Left,
    DeleteKey,
    CopyKey,
    PasteKey,
    Other,
}

/// What the control loop must do in response to a key.
#[derive(Clone, Copy, Debug, PartialEq, Eq, Structural)]
pub enum Operation {
    Terminate,
    MoveDown,
    MoveUp,
    EnterEntry,
    GoBack,
    DeleteEntry,
    CopyEntry,
    PasteEntry,
    Ignore,
}

/// The key-to-operation table: quit terminates, down/up move the cursor,
/// right enters the selected entry, left goes back to the parent, and the
/// delete, copy and paste keys trigger the matching file operations.
pub open spec fn operation_spec(key: Key) -> Operation {
    match key {
        Key::Quit => Operation::Terminate,
        Key::Down => Operation::MoveDown,
        Key::Up => Operation::MoveUp,
        Key::Right => Operation::EnterEntry,
        Key::Left => Operation::GoBack,
        Key::DeleteKey => Operation::DeleteEntry,
        Key::CopyKey => Operation::CopyEntry,
        Key::PasteKey => Operation::PasteEntry,
        Key::Other => Operation::Ignore,
    }
}

/// Maps a key to the operation the control loop must perform.
pub fn operation_for(key: Key) -> (r: Operation)
    ensures
        r == operation_spec(key),
{
    match key {
        Key::Quit => Operation::Terminate,
        Key::Down => Operation::MoveDown,
        Key::Up => Operation::MoveUp,
        Key::Right => Operation::EnterEntry,
        Key::Left => Operation::GoBack,
        Key::DeleteKey => Operation::DeleteEntry,
        Key::CopyKey => Operation::CopyEntry,
        Key::PasteKey => Operation::PasteEntry,
        Key::Other => Operation::Ignore,
    }
}

} // verus!
