use vstd::prelude::*;

verus! {

/// The atom a client message's type resolved to, among those the pipeline
/// reacts to; the shell resolves the raw atom before dispatching.
#[derive(Clone, Copy, PartialEq, Eq, Structural, Debug)]
pub enum MessageKind {
    /// A window-state change request (full-screen add/toggle).
    NetWmState,
    /// A current-desktop change request.
    CurrentDesktop,
    /// Any other message type.
    Other,
}

/// The atom a property-change notification names, among those the pipeline
/// reacts to.
#[derive(Clone, Copy, PartialEq, Eq, Structural, Debug)]
pub enum PropertyKind {
    /// The window-type hint changed.
    WindowType,
    /// The strut-partial (reserved screen space) hint changed.
    StrutPartial,
    /// Any other property.
    Other,
}

/// The state-change convention's "add" word in a window-state message.
pub const STATE_ADD: u32 = 1;

/// The state-change convention's "toggle" word in a window-state message.
pub const STATE_TOGGLE: u32 = 2;

/// A decoded client-message event: the window it concerns, what its type
/// resolved to, and the first two 32-bit data words.
#[derive(Clone, Copy, PartialEq, Eq, Structural, Debug)]
pub struct ClientMessageInfo {
    pub window: u32,
    pub kind: MessageKind,
    pub data0: u32,
    pub data1: u32,
}

/// A decoded key-press event: the hardware keycode, the modifier state,
/// and the pointer's child window at press time.
#[derive(Clone, Copy, PartialEq, Eq, Structural, Debug)]
pub struct KeyPressInfo {
    pub keycode: u8,
    pub state: u16,
    pub child: u32,
}

/// A decoded configure request: the requested geometry fields and the
/// bitmask saying which of them the request actually specified.
#[derive(Clone, Copy, PartialEq, Eq, Structural, Debug)]
pub struct ConfigureRequestInfo {
    pub window: u32,
    pub x: i16,
    pub y: i16,
    pub width: u16,
    pub height: u16,
    pub border_width: u16,
    pub sibling: u32,
    pub stack_mode: u8,
    pub value_mask: u16,
}

/// A decoded property-change notification.
#[derive(Clone, Copy, PartialEq, Eq, Structural, Debug)]
pub struct PropertyNotifyInfo {
    pub window: u32,
    pub kind: PropertyKind,
}

} // verus!
