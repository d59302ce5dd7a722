//! The input events and what each of them asks for.
//!
//! The window layer turns what it receives into an `Event`, hands it to the
//! viewer's state, and carries out the `Outcome` that comes back.
//!
//! The zoom factor, the scroll delta and the pointer's position are fractional
//! numbers and stay with the window layer: an event says only that they
//! changed, and an outcome says which change of zoom is due.

use vstd::prelude::*;
use crate::panels::Panel;

verus! {

/// A key of the keyboard, as far as the viewer tells keys apart.
#[derive(Clone, Copy, Debug, PartialEq, Eq, Structural)]
pub enum Key {
    Escape,
    F2,
    Home,
    Space,
    Other,
}

/// A button of the pointer.
#[derive(Clone, Copy, Debug, PartialEq, Eq, Structural)]
pub enum MouseButton {
    Left,
    Right,
    Middle,
    Other,
}

/// A button of the action bar.
#[derive(Clone, Copy, Debug, PartialEq, Eq, Structural)]
pub enum Button {
    ZoomOut,
    ZoomIn,
    Debug,
    Metadata,
}

/// The unit in which a scroll delta is measured.
#[derive(Clone, Copy, Debug, PartialEq, Eq, Structural)]
pub enum ScrollUnit {
    /// Lines: the delta is used as it is.
    Line,
    /// Pixels: the delta is divided by `PIXELS_PER_LINE` first.
    Pixel,
}

/// The number of scrolled pixels that count as one line.
pub const PIXELS_PER_LINE: u32 = 13;

/// One input event.
#[derive(Clone, Copy, Debug, PartialEq, Eq, Structural)]
pub enum Event {
    /// The window was asked to close.
    CloseRequested,
    /// A key went down (`pressed`) or up.
    KeyboardInput { key: Key, pressed: bool },
    /// The pointer moved.
    CursorMoved,
    /// A pointer button went down (`pressed`) or up.
    MouseInput { button: MouseButton, pressed: bool },
    /// The wheel was turned; the delta itself stays with the window layer.
    MouseWheel { unit: ScrollUnit },
    /// The window changed its size.
    Resized,
    /// Any other event of the window.
    OtherWindowEvent,
    /// A button of the action bar was clicked.
    ButtonPressed(Button),
    /// The window has to be drawn now.
    RedrawRequested,
    /// Any event that is not the window's.
    Other,
}

/// How the zoom factor changes. No change is ever refused: the factor has no
/// bounds.
#[derive(Clone, Copy, Debug, PartialEq, Eq, Structural)]
pub enum ZoomChange {
    /// Not at all.
    Keep,
    /// One step in: the factor is multiplied by the zoom step.
    In,
    /// One step out: the factor is divided by the zoom step.
    Out,
    /// By the scroll delta, divided by `divisor` first.
    Scroll { divisor: u32 },
}

/// What the window layer has to do after an event.
#[derive(Clone, Copy, Debug, PartialEq, Eq, Structural)]
pub struct Outcome {
    /// End the session; no further event is handled.
    pub exit: bool,
    /// Ask the window for a redraw.
    pub redraw: bool,
    /// Draw a frame now.
    pub draw: bool,
    /// Change the zoom factor.
    pub zoom: ZoomChange,
}

impl ScrollUnit {
    /// The number by which a delta in this unit is divided before use.
    pub open spec fn divisor(self) -> u32 {
        match self {
            ScrollUnit::Line => 1,
            ScrollUnit::Pixel => PIXELS_PER_LINE,
        }
    }
}

impl Event {
    /// The event belongs to the window itself.
    pub open spec fn of_window(self) -> bool {
        !(self is ButtonPressed || self is RedrawRequested || self is Other)
    }

    /// The event ends the session: a close request, or the escape key going
    /// either way.
    pub open spec fn closes(self) -> bool {
        self is CloseRequested || (self matches Event::KeyboardInput { key, .. } && key == Key::Escape)
    }

    /// The panel that the event toggles, if any: a key going down or a
    /// click on the action bar.
    pub open spec fn toggles(self) -> Option<Panel> {
        match self {
            Event::KeyboardInput { key: Key::F2, pressed: true } => Some(Panel::Debug),
            Event::KeyboardInput { key: Key::Home, pressed: true } => Some(Panel::Example),
            Event::KeyboardInput { key: Key::Space, pressed: true } => Some(Panel::ActionBar),
            Event::ButtonPressed(Button::Debug) => Some(Panel::Debug),
            Event::ButtonPressed(Button::Metadata) => Some(Panel::Metadata),
            _ => None,
        }
    }

    /// The change of zoom that the event asks for.
    pub open spec fn zooms(self) -> ZoomChange {
        match self {
            Event::ButtonPressed(Button::ZoomIn) => ZoomChange::In,
            Event::ButtonPressed(Button::ZoomOut) => ZoomChange::Out,
            Event::MouseWheel { unit } => ZoomChange::Scroll { divisor: unit.divisor() },
            _ => ZoomChange::Keep,
        }
    }

    /// What the window layer has to do after the event: every event of the
    /// window that does not end the session asks for a redraw, and a frame
    /// is drawn only on request.
    pub open spec fn outcome(self) -> Outcome {
        Outcome {
            exit: self.closes(),
            redraw: self.of_window() && !self.closes(),
            draw: self is RedrawRequested,
            zoom: self.zooms(),
        }
    }
}

/// Which pointer buttons are down, each on its own channel.
#[derive(Clone, Copy, Debug, PartialEq, Eq, Structural)]
pub struct PointerButtons {
    pub left: bool,
    pub right: bool,
    pub middle: bool,
}

impl PointerButtons {
    /// The channels after `event`: a pointer button going down or up sets
    /// its own channel, nothing else changes anything.
    pub open spec fn after(self, event: Event) -> PointerButtons {
        match event {
            Event::MouseInput { button: MouseButton::Left, pressed } => PointerButtons {
                left: pressed,
                ..self
            },
            Event::MouseInput { button: MouseButton::Right, pressed } => PointerButtons {
                right: pressed,
                ..self
            },
            Event::MouseInput { button: MouseButton::Middle, pressed } => PointerButtons {
                middle: pressed,
                ..self
            },
            _ => self,
        }
    }

    /// No button is down.
    pub fn new() -> (buttons: PointerButtons)
        ensures
            buttons == (PointerButtons { left: false, right: false, middle: false }),
    {
        PointerButtons { left: false, right: false, middle: false }
    }

    /// Records that `button` went down (`pressed`) or up.
    pub fn set(&mut self, button: MouseButton, pressed: bool)
        ensures
            *final(self) == old(self).after(Event::MouseInput { button, pressed }),
    {
        match button {
            MouseButton::Left => {
                self.left = pressed;
            },
            MouseButton::Right => {
                self.right = pressed;
            },
            MouseButton::Middle => {
                self.middle = pressed;
            },
            MouseButton::Other => {},
        }
    }
}

} // verus!
