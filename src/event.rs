use vstd::prelude::*;
use crate::input::{Key, MouseButton};

verus! {

/// What asked for a window to be closed, where the host tells it apart.
#[derive(Clone, Copy, Debug, PartialEq, Eq, Hash, Structural)]
pub enum CloseReason {
    /// The close entry of the system menu or the close button.
    SystemMenu,
    /// A keyboard shortcut such as Alt+F4.
    KeyboardShortcut,
    /// The host does not say.
    Unknown,
}

/// One platform-independent window event.
#[derive(Clone, Copy, Debug, PartialEq, Eq, Hash)]
pub enum Event {
    /// A request to close the window; the window stays open until dropped.
    CloseRequest(CloseReason),
    /// The window gained (`true`) or lost (`false`) focus.
    Focus(bool),
    /// The window was maximised (`true`) or un-maximised (`false`).
    Maximise(bool),
    /// The window was minimised (`true`) or un-minimised (`false`).
    Minimise(bool),
    /// The inner area moved to this desktop position, in pixels.
    Move((i16, i16)),
    /// The inner area took this width and height, in pixels.
    Resize((u16, u16)),
    /// The window was shown (`true`) or hidden (`false`).
    Visible(bool),
    /// A key was pressed.
    KeyboardDown(Key),
    /// A held key was repeated by the system.
    KeyboardRepeat(Key),
    /// A key was released.
    KeyboardUp(Key),
    /// A character was typed.
    Input(char),
    /// A mouse button was pressed.
    MouseDown(MouseButton),
    /// A mouse button was released.
    MouseUp(MouseButton),
    /// The mouse moved to this position.
    MouseMove((u16, u16)),
    /// The mouse entered the client area.
    MouseEnter,
    /// The mouse left the client area.
    MouseLeave,
}

} // verus!
