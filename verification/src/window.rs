//! Window event routing: which window events feed the keyboard channel and
//! which feed the screen-size channel, and how resize events settle the
//! current surface size.

use vstd::prelude::*;

use crate::input::KeyboardEvent;

verus! {

/// A surface size in physical pixels.
#[derive(Clone, Copy, Debug, PartialEq, Eq, Structural, Hash)]
pub struct ScreenSize {
    pub width: u32,
    pub height: u32,
}

/// One event reported for the window, reduced to what the routing reads.
#[derive(Clone, Copy, Debug, PartialEq, Eq, Structural)]
pub enum WinEvent {
    /// The user asked to close the window; routed nowhere.
    CloseRequested,
    /// A key went down or up.
    Keyboard(KeyboardEvent),
    /// The scale factor changed, reporting the new inner size.
    ScaleFactorChanged(ScreenSize),
    /// The window was resized.
    Resized(ScreenSize),
    /// Anything else; routed nowhere.
    Other,
}

/// The keyboard events among the first `n` window events, in order.
pub open spec fn keyboard_events_of(events: Seq<WinEvent>, n: int) -> Seq<KeyboardEvent>
    decreases n,
{
    if n <= 0 {
        Seq::empty()
    } else {
        match events[n - 1] {
            WinEvent::Keyboard(k) => keyboard_events_of(events, n - 1).push(k),
            _ => keyboard_events_of(events, n - 1),
        }
    }
}

/// The new sizes among the first `n` window events, from resizes and scale
/// changes alike, in order.
pub open spec fn size_events_of(events: Seq<WinEvent>, n: int) -> Seq<ScreenSize>
    decreases n,
{
    if n <= 0 {
        Seq::empty()
    } else {
        match events[n - 1] {
            WinEvent::Resized(s) => size_events_of(events, n - 1).push(s),
            WinEvent::ScaleFactorChanged(s) => size_events_of(events, n - 1).push(s),
            _ => size_events_of(events, n - 1),
        }
    }
}

/// Routes one batch of window events: keyboard input is appended to the
/// keyboard channel and every new size, from a resize or a scale change, to
/// the screen-size channel, each in event order. Close requests and all other
/// events are routed nowhere.
pub fn window(
    events: &Vec<WinEvent>,
    keyboard_channel: &mut Vec<KeyboardEvent>,
    screen_size_channel: &mut Vec<ScreenSize>,
)
    ensures
        final(keyboard_channel)@ == old(keyboard_channel)@ + keyboard_events_of(
            events@,
            events@.len() as int,
        ),
        final(screen_size_channel)@ == old(screen_size_channel)@ + size_events_of(
            events@,
            events@.len() as int,
        ),
{
    let mut i: usize = 0;
    while i < events.len()
        invariant
            i <= events.len(),
            keyboard_channel@ == old(keyboard_channel)@ + keyboard_events_of(events@, i as int),
            screen_size_channel@ == old(screen_size_channel)@ + size_events_of(
                events@,
                i as int,
            ),
        decreases events.len() - i,
    {
        match events[i] {
            WinEvent::CloseRequested => {},
            WinEvent::Keyboard(k) => {
                keyboard_channel.push(k);
            },
            WinEvent::ScaleFactorChanged(s) => {
                screen_size_channel.push(s);
            },
            WinEvent::Resized(s) => {
                screen_size_channel.push(s);
            },
            WinEvent::Other => {},
        }
        i = i + 1;
    }
}

/// Applies a batch of size events to the current surface size: the last
/// reported size wins; with no event the size is unchanged.
pub fn screen_size(events: &Vec<ScreenSize>, sc_desc: &mut ScreenSize)
    ensures
        events@.len() > 0 ==> *final(sc_desc) == events@.last(),
        events@.len() == 0 ==> *final(sc_desc) == *old(sc_desc),
{
    let mut i: usize = 0;
    while i < events.len()
        invariant
            i <= events.len(),
            i > 0 ==> *sc_desc == events@[i as int - 1],
            i == 0 ==> *sc_desc == *old(sc_desc),
        decreases events.len() - i,
    {
        let new_size = events[i];
        sc_desc.width = new_size.width;
        sc_desc.height = new_size.height;
        i = i + 1;
    }
}

} // verus!
