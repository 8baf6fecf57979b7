//! Input events, reduced to what the render loop reads: a window-close
//! request and keyboard input. The loop exits on window-close or on a press
//! of the Escape key; every other event is ignored.

use vstd::prelude::*;

verus! {

/// The keys the loop distinguishes: Escape ends the program, any other key
/// does nothing.
#[derive(Clone, Copy, PartialEq, Eq, Structural, Debug)]
pub enum Key {
    Escape,
    Other,
}

/// Whether a keyboard event is a press or a release.
#[derive(Clone, Copy, PartialEq, Eq, Structural, Debug)]
pub enum KeyState {
    Pressed,
    Released,
}

/// An input event drained from the window's queue, reduced to the parts the
/// loop inspects.
#[derive(Clone, Copy, PartialEq, Eq, Structural, Debug)]
pub enum Event {
    /// The window's close button was used.
    Closed,
    /// A key changed state.
    Keyboard(KeyState, Key),
    /// Anything else the window reports; the loop ignores it.
    Other,
}

/// An event that ends the render loop: a close request, or Escape going down.
pub open spec fn is_exit_event(e: Event) -> bool {
    match e {
        Event::Closed => true,
        Event::Keyboard(state, key) => state == KeyState::Pressed && key == Key::Escape,
        Event::Other => false,
    }
}

/// Whether a batch of events contains one that ends the loop.
pub open spec fn has_exit_event(events: Seq<Event>) -> bool {
    exists|i: int| 0 <= i < events.len() && is_exit_event(events[i])
}

/// Scan one frame's drained events and report whether any of them asks the
/// program to exit: a window-close request or an Escape key press.
pub fn should_exit(events: &Vec<Event>) -> (r: bool)
    ensures
        r == has_exit_event(events@),
{
    let mut i: usize = 0;
    while i < events.len()
        invariant
            0 <= i <= events@.len(),
            forall|j: int| 0 <= j < i ==> !is_exit_event(events@[j]),
        decreases events@.len() - i,
    {
        let e = events[i];
        match e {
            Event::Closed => {
                return true;
            },
            Event::Keyboard(state, key) => {
                if state == KeyState::Pressed && key == Key::Escape {
                    return true;
                }
            },
            Event::Other => {},
        }
        i = i + 1;
    }
    false
}

} // verus!
