//! Input events delivered to the engine's caller.
//!
//! The windowing layer is an external collaborator: the driver translates its
//! native events into these plain-value types.  Timestamps are carried as
//! ticks (the driver chooses the unit); device and button identities as the
//! integers the windowing layer reports.

use vstd::prelude::*;

verus! {

/// Relative mouse motion.
#[derive(Debug, Clone, Copy, PartialEq, Eq, Structural)]
pub struct MouseMotion {/* no fields yet */}

/// A button press on some input device.
#[derive(Debug, Clone, Copy, PartialEq, Eq, Structural)]
pub struct DeviceButton {
    pub device: u32,
    pub button: u32,
}

/// A key identified by scan code and, when known, by layout-independent code.
#[derive(Debug, Clone, Copy, PartialEq, Eq, Structural)]
pub struct Key {
    pub device: u32,
    pub scancode: u32,
    pub virtual_keycode: Option<u32>,
}

/// Modifier keys held during a key event.
#[derive(Debug, Clone, Copy, PartialEq, Eq, Structural)]
pub struct KeyModifiers {
    pub shift: bool,
    pub ctrl: bool,
    pub alt: bool,
    pub logo: bool,
}

/// Mouse-wheel movement; each component is the bit pattern of a 32-bit float.
#[derive(Debug, Clone, Copy, PartialEq, Eq, Structural)]
pub struct ScrollDelta {
    pub x: u32,
    pub y: u32,
}

/// Implemented by the application to receive input and frame callbacks.
pub trait EventHandler {
    fn draw(&mut self);

    fn update(&mut self);

    fn keyboard_down(&mut self, _time: u64, _key: Key, _modifiers: KeyModifiers) {
    }

    fn keyboard_up(&mut self, _time: u64, _key: Key, _modifiers: KeyModifiers) {
    }

    fn device_button_down(&mut self, _time: u64, _button: DeviceButton) {
    }

    fn device_button_up(&mut self, _time: u64, _button: DeviceButton) {
    }

    fn mouse_motion(&mut self, _time: u64, _motion: MouseMotion) {
    }

    fn mouse_wheel(&mut self, _time: u64, _scroll: ScrollDelta) {
    }

    /// Run whenever the user changes focus.  The return value is whether to
    /// suspend the event loop while unfocused; the default is to suspend.
    fn window_focused(&mut self, _time: u64, focused: bool) -> bool {
        !focused
    }

    fn quit(&mut self) -> bool {
        true
    }
}

} // verus!
