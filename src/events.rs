use vstd::prelude::*;

use crossterm::event::{KeyEvent, MouseEvent};

verus! {

/// crossterm's key event, carried through unread.
#[verifier::external_type_specification]
#[verifier::external_body]
pub struct ExKeyEvent(KeyEvent);

/// crossterm's mouse event, carried through unread.
#[verifier::external_type_specification]
#[verifier::external_body]
pub struct ExMouseEvent(MouseEvent);

/// An item of the event stream: a frame tick, or a key press.
#[derive(Clone, Copy, Debug, PartialEq, Eq)]
pub enum Event {
    Tick,
    Key(KeyEvent),
}

/// One raw input event as the terminal reports it.
#[derive(Clone, Copy, Debug, PartialEq, Eq)]
pub enum RawInput {
    Key(KeyEvent),
    Mouse(MouseEvent),
    Resize(u16, u16),
}

/// What the key reader sends for a raw input event: the key itself for a
/// keyboard event, nothing for any other input.
pub fn key_event(input: RawInput) -> (r: Option<Event>)
    ensures
        r is Some <==> input is Key,
        input matches RawInput::Key(k) ==> r == Some(Event::Key(k)),
        r matches Some(e) ==> !(e is Tick),
{
    match input {
        RawInput::Key(k) => Some(Event::Key(k)),
        RawInput::Mouse(_) => None,
        RawInput::Resize(_, _) => None,
    }
}

/// What the key reader sends for one attempt to read input: a failed read is
/// skipped, a successful one is filtered by `key_event`.
pub fn read_step(read: Option<RawInput>) -> (r: Option<Event>)
    ensures
        read is None ==> r is None,
        read matches Some(input) ==> (r is Some <==> input is Key),
        read matches Some(RawInput::Key(k)) ==> r == Some(Event::Key(k)),
{
    match read {
        Some(input) => key_event(input),
        None => None,
    }
}

/// The pause in milliseconds between two ticks at `fps` frames per second.
/// `fps` ticks never take more than one second of pauses.
pub fn frame_interval_ms(fps: u64) -> (r: u64)
    requires
        fps > 0,
    ensures
        r == 1000int / (fps as int),
        r * fps <= 1000int,
        1000int < (r + 1) * fps,
{
    proof {
        assert((1000int / fps as int) * fps <= 1000) by (nonlinear_arith)
            requires fps > 0;
        assert(1000 < (1000int / fps as int + 1) * fps) by (nonlinear_arith)
            requires fps > 0;
    }
    1000 / fps
}

} // verus!
