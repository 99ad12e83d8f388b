//! Mapping of raw window events to game events.
//!
//! The driver turns each native window event into an `Event` and hands it to
//! an `RMEventHandler`, which forwards it to the application's handler.

use vstd::prelude::*;

verus! {

/// A timestamped game event.  The time is in ticks chosen by the driver.
#[derive(Debug, Clone, Copy, PartialEq, Eq, Structural)]
pub struct Event {
    pub time: u64,
    pub event: RMEvent,
}

/// The kinds of window events the engine's caller reacts to.
#[derive(Debug, Clone, Copy, PartialEq, Eq, Structural)]
pub enum RMEvent {
    /// The window was resized to a new physical size.
    Resized { width: u32, height: u32 },
    /// A device button changed state; `pressed` is the new state.
    Button { device: u32, button: u32, pressed: bool },
    /// The cursor moved; coordinates are bit patterns of 32-bit floats.
    CursorMoved { x: u32, y: u32 },
    /// The user asked to close the window.
    CloseRequested,
}

/// Wraps an application handler and forwards mapped events to it.
#[derive(Debug, Clone)]
pub struct RMEventHandler<E: EventHandler> {
    event_handler: E,
}

impl<E: EventHandler> RMEventHandler<E> {
    pub fn new(e: E) -> Self {
        RMEventHandler { event_handler: e }
    }

    pub fn handle_event(&mut self, event: Event) {
        self.event_handler.handle_event(event)
    }
}

/// Implemented by the application to receive mapped game events.
pub trait EventHandler {
    fn handle_event(&mut self, event: Event);
}

} // verus!
