//! The closed sets of inbound events the manager reacts to and outbound
//! protocol commands it issues, plus the fixed input bindings (buttons,
//! modifier masks and cursor shapes) the manager installs on managed windows.

use vstd::prelude::*;
use crate::geometry::Pos;

verus! {

/// Primary pointer button: together with the drag modifier it begins a move
/// gesture.
pub const PRIMARY_BUTTON: u32 = 1;

/// Secondary pointer button: together with the drag modifier it begins a
/// resize gesture.
pub const SECONDARY_BUTTON: u32 = 3;

/// Modifier mask that arms drag gestures and the key bindings.
pub const DRAG_MODIFIER_MASK: u32 = 8;

/// Bit set in an event's state field while the primary button is held.
pub const PRIMARY_BUTTON_MASK: u32 = 256;

/// Bit set in an event's state field while the secondary button is held.
pub const SECONDARY_BUTTON_MASK: u32 = 1024;

/// Cursor shape shown over the root window.
pub const CURSOR_ARROW: u32 = 2;

/// Cursor shape shown during a move gesture.
pub const CURSOR_CROSSHAIR: u32 = 34;

/// Cursor shape shown during a resize gesture.
pub const CURSOR_FLEUR: u32 = 52;

/// The geometry and stacking fields of a configure request, forwarded to the
/// server unchanged.
#[derive(Clone, Copy, PartialEq, Eq, Structural, Debug)]
pub struct ConfigureChanges {
    pub x: i32,
    pub y: i32,
    pub width: i32,
    pub height: i32,
    pub border_width: i32,
    pub sibling: u64,
    pub stack_mode: i32,
}

/// One inbound server notification, reduced to the fields the manager reads.
#[derive(Clone, Copy, PartialEq, Eq, Structural, Debug)]
pub enum Event {
    MapRequest { window: u64 },
    UnmapNotify { window: u64, event: u64 },
    ConfigureRequest { window: u64, changes: ConfigureChanges, value_mask: u64 },
    ButtonPress { window: u64, pointer: Pos },
    ButtonRelease { window: u64 },
    KeyPress { window: u64, keycode: u32, state: u32 },
    KeyRelease { window: u64 },
    MotionNotify { window: u64, pointer: Pos, state: u32 },
    Expose { window: u64 },
    ReparentNotify { window: u64 },
    MapNotify { window: u64 },
    ConfigureNotify { window: u64 },
    CreateNotify { window: u64 },
    DestroyNotify { window: u64 },
    Other { kind: i32 },
}

/// One outbound command to the server or to the rendering collaborator. The
/// event loop executes each list of commands in order, before the next event
/// is processed.
#[derive(Clone, Copy, PartialEq, Eq, Structural, Debug)]
pub enum Command {
    GrabButton { window: u64, button: u32, modifiers: u32, cursor: u32 },
    GrabKey { window: u64, keycode: u32, modifiers: u32 },
    AddToSaveSet { window: u64 },
    RemoveFromSaveSet { window: u64 },
    Reparent { window: u64, parent: u64, x: i32, y: i32 },
    MapWindow { window: u64 },
    UnmapWindow { window: u64 },
    DestroyWindow { window: u64 },
    MoveWindow { window: u64, x: i32, y: i32 },
    ResizeWindow { window: u64, width: u32, height: u32 },
    RaiseWindow { window: u64 },
    SetInputFocus { window: u64 },
    ConfigureWindow { window: u64, changes: ConfigureChanges, value_mask: u64 },
    ResizeSurface { surface: u64, width: u32, height: u32 },
    DestroySurface { surface: u64 },
    DestroyContext { context: u64 },
    SendCooperativeClose { window: u64 },
    KillClient { window: u64 },
    DrawDecoration { frame: u64, context: u64 },
}

/// A server query the event loop must perform before the current event can be
/// finished; the loop feeds the answer back into the matching handler.
#[derive(Clone, Copy, PartialEq, Eq, Structural, Debug)]
pub enum FollowUp {
    /// Query the window's attributes, then plan and commit a frame for it and
    /// map the client.
    PlanFrame { window: u64 },
    /// Query the current geometry of the pressed window's frame, then begin
    /// the drag.
    BeginDrag { window: u64, pointer: Pos },
    /// Query the root's stacking order, then raise and focus the next window.
    CycleFocus { excluding: u64 },
    /// Query the window's advertised close capability, then close it.
    RequestClose { window: u64 },
    /// Query the exposed window's children, then repaint the owning frame's
    /// decoration.
    DrawFrame { window: u64 },
}

/// The dispatcher's decision for a key press.
#[derive(Clone, Copy, PartialEq, Eq, Structural, Debug)]
pub enum KeyAction {
    /// Key press on the root matching the cycle binding.
    CycleFocus,
    /// Modified key press on a managed window matching the close binding.
    RequestClose { window: u64 },
    /// Unmodified key press on a managed window.
    Raise { window: u64 },
    /// Any other key press.
    Ignore,
}

} // verus!
