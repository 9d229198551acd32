//! The manager state and the frame lifecycle: planning and committing the
//! decorated frame of a client window, tearing it down, and the move/resize,
//! restacking and close decisions.
//!
//! Every operation is a function from explicit state and plain query results
//! to the next state plus outbound [`Command`]s; the process that owns the
//! server connection performs the commands.

use vstd::prelude::*;
use crate::geometry::{Pos, Size, Delta, clamped_dim, resized_dim, DECORATION_PADDING};
use crate::protocol::{Command, PRIMARY_BUTTON, SECONDARY_BUTTON, DRAG_MODIFIER_MASK,
    CURSOR_CROSSHAIR, CURSOR_FLEUR};
use crate::registry::{Frame, Registry};

verus! {

/// The keycodes the manager's two key bindings resolve to on the running
/// server; the caller resolves them once at startup.
#[derive(Clone, Copy, PartialEq, Eq, Structural, Debug)]
pub struct KeyBindings {
    /// Keycode that, with the drag modifier, requests a close.
    pub close_key: u32,
    /// Keycode that, on the root, cycles focus to the next window.
    pub cycle_key: u32,
}

/// A client window's attributes as the server reports them, reduced to the
/// fields the lifecycle reads.
#[derive(Clone, Copy, PartialEq, Eq, Structural, Debug)]
pub struct WindowAttributes {
    pub x: i32,
    pub y: i32,
    pub width: u16,
    pub height: u16,
    /// The client asked to manage its own decoration.
    pub override_redirect: bool,
    /// The window is currently viewable on the server.
    pub viewable: bool,
}

/// The current server-side geometry of an existing window.
#[derive(Clone, Copy, PartialEq, Eq, Structural, Debug)]
pub struct FrameGeometry {
    pub pos: Pos,
    pub size: Size,
}

/// The server-side identifiers allocated for a new frame: the container
/// window and its rendering resource bundle.
#[derive(Clone, Copy, PartialEq, Eq, Structural, Debug)]
pub struct FrameHandles {
    pub frame: u64,
    pub surface: u64,
    pub context: u64,
}

/// The geometry a new frame is to be created with: the client's current
/// position and size, and the container's padded size.
#[derive(Clone, Copy, PartialEq, Eq, Structural, Debug)]
pub struct FramePlan {
    pub x: i32,
    pub y: i32,
    pub width: u16,
    pub height: u16,
    pub frame_width: u32,
    pub frame_height: u32,
}

/// The whole manager state: the root window, the registry of managed
/// windows, and the interaction (drag) state. One instance exists per
/// process and is passed explicitly to every handler.
pub struct Wm {
    pub root: u64,
    pub registry: Registry,
    /// Pointer position recorded at gesture start.
    pub drag_anchor: Pos,
    /// The client window currently being dragged or resized, if any. Held as
    /// a key into the registry, never as an alias of the frame itself.
    pub active_window: Option<u64>,
    pub bindings: KeyBindings,
}

/// The mathematical value of a [`Wm`].
#[verifier::ext_equal]
pub struct WmView {
    pub root: u64,
    pub windows: Map<u64, Frame>,
    pub drag_anchor: Pos,
    pub active_window: Option<u64>,
    pub bindings: KeyBindings,
}

impl View for Wm {
    type V = WmView;

    open spec fn view(&self) -> WmView {
        WmView {
            root: self.root,
            windows: self.registry@,
            drag_anchor: self.drag_anchor,
            active_window: self.active_window,
            bindings: self.bindings,
        }
    }
}

/// A pre-existing window is left untouched by the startup scan when it
/// manages its own decoration or is not currently viewable.
pub open spec fn skipped_preexisting(attrs: WindowAttributes) -> bool {
    attrs.override_redirect || !attrs.viewable
}

/// Whether a window gets a frame: it must not be managed already, and a
/// pre-existing window must be viewable and not override-redirected.
pub open spec fn manageable(
    managed: Set<u64>,
    window: u64,
    attrs: WindowAttributes,
    preexisting: bool,
) -> bool {
    &&& !managed.contains(window)
    &&& (preexisting ==> !skipped_preexisting(attrs))
}

/// The frame geometry for a client with the given attributes: the container
/// is the client's size plus the decoration padding on all sides.
pub open spec fn spec_frame_plan(attrs: WindowAttributes) -> FramePlan {
    FramePlan {
        x: attrs.x,
        y: attrs.y,
        width: attrs.width,
        height: attrs.height,
        frame_width: (attrs.width + 2 * DECORATION_PADDING) as u32,
        frame_height: (attrs.height + 2 * DECORATION_PADDING) as u32,
    }
}

/// A frame record as first registered: drag origins start at zero and are
/// only meaningful during a gesture.
pub open spec fn initial_frame(handles: FrameHandles) -> Frame {
    Frame {
        frame: handles.frame,
        surface: handles.surface,
        context: handles.context,
        drag_start: Pos { x: 0, y: 0 },
        drag_start_size: Size { w: 0, h: 0 },
    }
}

/// The input bindings and setup commands run when a frame is committed:
/// primary button + modifier begins a move, secondary button + modifier a
/// resize, the two key bindings request close and focus-cycling; the client
/// joins the save-set, is reparented into the container at the padding
/// offset, and the container is mapped.
pub open spec fn setup_commands(window: u64, handles: FrameHandles, bindings: KeyBindings)
    -> Seq<Command> {
    seq![
        Command::GrabButton {
            window,
            button: PRIMARY_BUTTON,
            modifiers: DRAG_MODIFIER_MASK,
            cursor: CURSOR_CROSSHAIR,
        },
        Command::GrabButton {
            window,
            button: SECONDARY_BUTTON,
            modifiers: DRAG_MODIFIER_MASK,
            cursor: CURSOR_FLEUR,
        },
        Command::GrabKey { window, keycode: bindings.close_key, modifiers: DRAG_MODIFIER_MASK },
        Command::GrabKey { window, keycode: bindings.cycle_key, modifiers: DRAG_MODIFIER_MASK },
        Command::AddToSaveSet { window },
        Command::Reparent {
            window,
            parent: handles.frame,
            x: DECORATION_PADDING as i32,
            y: DECORATION_PADDING as i32,
        },
        Command::MapWindow { window: handles.frame },
    ]
}

/// The teardown commands of a frame, in the order that never leaves the
/// client attached to a destroyed container: release the rendering bundle,
/// unmap the container, hand the client back to the root, drop it from the
/// save-set, destroy the container.
pub open spec fn teardown_commands(window: u64, root: u64, f: Frame) -> Seq<Command> {
    seq![
        Command::DestroySurface { surface: f.surface },
        Command::DestroyContext { context: f.context },
        Command::UnmapWindow { window: f.frame },
        Command::Reparent { window, parent: root, x: 0, y: 0 },
        Command::RemoveFromSaveSet { window },
        Command::DestroyWindow { window: f.frame },
    ]
}

/// The move commands for a drag: the container goes to the drag origin plus
/// the pointer delta; the client never moves within its container.
pub open spec fn move_commands(window: u64, f: Frame, d: Delta) -> Seq<Command> {
    seq![
        Command::MoveWindow {
            window: f.frame,
            x: (f.drag_start.x + d.x) as i32,
            y: (f.drag_start.y + d.y) as i32,
        },
    ]
}

/// The resize commands for a drag: client and container sizes are clamped to
/// the fixed floor and kept in step, and the rendering surface follows the
/// container.
pub open spec fn resize_commands(window: u64, f: Frame, d: Delta) -> Seq<Command> {
    let w = clamped_dim(f.drag_start_size.w, d.x);
    let h = clamped_dim(f.drag_start_size.h, d.y);
    seq![
        Command::ResizeWindow {
            window: f.frame,
            width: (w + 2 * DECORATION_PADDING) as u32,
            height: (h + 2 * DECORATION_PADDING) as u32,
        },
        Command::ResizeWindow { window, width: w as u32, height: h as u32 },
        Command::ResizeSurface {
            surface: f.surface,
            width: (w + 2 * DECORATION_PADDING) as u32,
            height: (h + 2 * DECORATION_PADDING) as u32,
        },
    ]
}

/// The first entry of the stacking order that is not the excluded window.
pub open spec fn first_other(stacking: Seq<u64>, excluding: u64) -> Option<u64>
    decreases stacking.len(),
{
    if stacking.len() == 0 {
        None
    } else if stacking[0] != excluding {
        Some(stacking[0])
    } else {
        first_other(stacking.drop_first(), excluding)
    }
}

/// Raise and focus the first other window of the stacking order, if any.
pub open spec fn restack_commands(stacking: Seq<u64>, excluding: u64) -> Seq<Command> {
    match first_other(stacking, excluding) {
        None => Seq::empty(),
        Some(w) => seq![
            Command::RaiseWindow { window: w },
            Command::SetInputFocus { window: w },
        ],
    }
}

/// A cooperative close is synthesized for a client that advertises the
/// capability; an unresponsive one has its connection terminated.
pub open spec fn close_command(window: u64, cooperative: bool) -> Command {
    if cooperative {
        Command::SendCooperativeClose { window }
    } else {
        Command::KillClient { window }
    }
}

impl WmView {
    /// Whether the client window is currently managed.
    pub open spec fn managed(self, window: u64) -> bool {
        self.windows.contains_key(window)
    }

    /// Interaction-state invariant: the drag target, when set, is a key of
    /// the registry, never a dangling reference.
    pub open spec fn drag_target_ok(self) -> bool {
        match self.active_window {
            Some(w) => self.windows.contains_key(w),
            None => true,
        }
    }

    /// The state after the frame of `window` is destroyed: the registry
    /// entry is gone, and a drag on that window is reset to idle.
    pub open spec fn destroyed(self, window: u64) -> WmView {
        if !self.windows.contains_key(window) {
            self
        } else {
            WmView {
                windows: self.windows.remove(window),
                active_window: if self.active_window == Some(window) {
                    None
                } else {
                    self.active_window
                },
                ..self
            }
        }
    }

    /// The commands destroying the frame of `window` issues: the full
    /// teardown if it is managed, nothing otherwise.
    pub open spec fn destroy_commands(self, window: u64) -> Seq<Command> {
        if self.windows.contains_key(window) {
            teardown_commands(window, self.root, self.windows[window])
        } else {
            Seq::empty()
        }
    }
}

impl Wm {
    /// A fresh manager for the given root window: nothing managed, no drag.
    pub fn new(root: u64, bindings: KeyBindings) -> (wm: Wm)
        ensures
            wm@ == (WmView {
                root,
                windows: Map::<u64, Frame>::empty(),
                drag_anchor: Pos { x: 0, y: 0 },
                active_window: None::<u64>,
                bindings,
            }),
    {
        let wm = Wm {
            root,
            registry: Registry::new(),
            drag_anchor: Pos { x: 0, y: 0 },
            active_window: None,
            bindings,
        };
        proof {
            assert(wm@ =~= (WmView {
                root,
                windows: Map::<u64, Frame>::empty(),
                drag_anchor: Pos { x: 0, y: 0 },
                active_window: None::<u64>,
                bindings,
            }));
        }
        wm
    }

    /// Whether the client window is currently managed.
    pub fn is_managed(&self, window: u64) -> (b: bool)
        ensures
            b == self@.managed(window),
    {
        self.registry.is_managed(window)
    }

    /// Looks up the frame of a client window.
    pub fn lookup(&self, window: u64) -> (r: Option<Frame>)
        ensures
            r == (if self@.managed(window) {
                Some(self@.windows[window])
            } else {
                None::<Frame>
            }),
    {
        self.registry.lookup(window)
    }

    /// Decides whether `window` gets a frame and with what geometry. Returns
    /// `None` for a window that is already managed, and for a pre-existing
    /// window that is override-redirected or not viewable (the startup scan
    /// leaves those untouched).
    pub fn plan_frame(&self, window: u64, attrs: &WindowAttributes, preexisting: bool) -> (r:
        Option<FramePlan>)
        ensures
            r == (if manageable(self@.windows.dom(), window, *attrs, preexisting) {
                Some(spec_frame_plan(*attrs))
            } else {
                None::<FramePlan>
            }),
    {
        if self.registry.is_managed(window) {
            return None;
        }
        if preexisting && (attrs.override_redirect || !attrs.viewable) {
            return None;
        }
        Some(FramePlan {
            x: attrs.x,
            y: attrs.y,
            width: attrs.width,
            height: attrs.height,
            frame_width: attrs.width as u32 + 2 * DECORATION_PADDING as u32,
            frame_height: attrs.height as u32 + 2 * DECORATION_PADDING as u32,
        })
    }

    /// Records the newly allocated frame in the registry and emits the
    /// input-binding and reparenting commands. The client is managed
    /// afterwards; on the degenerate duplicate registration nothing changes
    /// and nothing is emitted, so no half-initialized frame is ever
    /// inserted.
    pub fn commit_frame(&mut self, window: u64, handles: FrameHandles) -> (cmds: Vec<Command>)
        ensures
            old(self)@.managed(window) ==> final(self)@ == old(self)@ && cmds@
                == Seq::<Command>::empty(),
            !old(self)@.managed(window) ==> final(self)@ == (WmView {
                windows: old(self)@.windows.insert(window, initial_frame(handles)),
                ..old(self)@
            }) && cmds@ == setup_commands(window, handles, old(self)@.bindings),
    {
        if self.registry.is_managed(window) {
            return Vec::new();
        }
        self.registry.register(
            window,
            Frame {
                frame: handles.frame,
                surface: handles.surface,
                context: handles.context,
                drag_start: Pos { x: 0, y: 0 },
                drag_start_size: Size { w: 0, h: 0 },
            },
        );
        let mut cmds: Vec<Command> = Vec::new();
        cmds.push(Command::GrabButton {
            window,
            button: PRIMARY_BUTTON,
            modifiers: DRAG_MODIFIER_MASK,
            cursor: CURSOR_CROSSHAIR,
        });
        cmds.push(Command::GrabButton {
            window,
            button: SECONDARY_BUTTON,
            modifiers: DRAG_MODIFIER_MASK,
            cursor: CURSOR_FLEUR,
        });
        cmds.push(Command::GrabKey {
            window,
            keycode: self.bindings.close_key,
            modifiers: DRAG_MODIFIER_MASK,
        });
        cmds.push(Command::GrabKey {
            window,
            keycode: self.bindings.cycle_key,
            modifiers: DRAG_MODIFIER_MASK,
        });
        cmds.push(Command::AddToSaveSet { window });
        cmds.push(Command::Reparent {
            window,
            parent: handles.frame,
            x: DECORATION_PADDING as i32,
            y: DECORATION_PADDING as i32,
        });
        cmds.push(Command::MapWindow { window: handles.frame });
        proof {
            assert(cmds@ =~= setup_commands(window, handles, old(self)@.bindings));
            assert(self@ =~= (WmView {
                windows: old(self)@.windows.insert(window, initial_frame(handles)),
                ..old(self)@
            }));
        }
        cmds
    }

    /// Destroys the frame of `window`: emits the teardown commands, removes
    /// the registry entry, and resets the drag state if this window was the
    /// drag target. A second call for the same window is a no-op.
    pub fn destroy_frame(&mut self, window: u64) -> (cmds: Vec<Command>)
        ensures
            final(self)@ == old(self)@.destroyed(window),
            cmds@ == old(self)@.destroy_commands(window),
    {
        let found = self.registry.lookup(window);
        match found {
            None => Vec::new(),
            Some(f) => {
                let _released = self.registry.unregister_and_release(window);
                let was_target = match self.active_window {
                    Some(a) => a == window,
                    None => false,
                };
                if was_target {
                    self.active_window = None;
                }
                let mut cmds: Vec<Command> = Vec::new();
                cmds.push(Command::DestroySurface { surface: f.surface });
                cmds.push(Command::DestroyContext { context: f.context });
                cmds.push(Command::UnmapWindow { window: f.frame });
                cmds.push(Command::Reparent { window, parent: self.root, x: 0, y: 0 });
                cmds.push(Command::RemoveFromSaveSet { window });
                cmds.push(Command::DestroyWindow { window: f.frame });
                proof {
                    assert(cmds@ =~= old(self)@.destroy_commands(window));
                    assert(self@ =~= old(self)@.destroyed(window));
                }
                cmds
            },
        }
    }

    /// The move step of a drag gesture: repositions the container to the
    /// drag origin plus the delta; no-op for an unmanaged window.
    pub fn move_frame(&self, window: u64, delta: Delta) -> (cmds: Vec<Command>)
        requires
            delta.bounded(),
        ensures
            self@.managed(window) ==> cmds@ == move_commands(window, self@.windows[window], delta),
            !self@.managed(window) ==> cmds@ == Seq::<Command>::empty(),
    {
        match self.registry.lookup(window) {
            None => Vec::new(),
            Some(f) => {
                let mut cmds: Vec<Command> = Vec::new();
                cmds.push(Command::MoveWindow {
                    window: f.frame,
                    x: f.drag_start.x as i32 + delta.x,
                    y: f.drag_start.y as i32 + delta.y,
                });
                proof {
                    assert(cmds@ =~= move_commands(window, self@.windows[window], delta));
                }
                cmds
            },
        }
    }

    /// The resize step of a drag gesture: resizes client, container and
    /// rendering surface together, never below the fixed floor; no-op for an
    /// unmanaged window.
    pub fn resize(&self, window: u64, delta: Delta) -> (cmds: Vec<Command>)
        ensures
            self@.managed(window) ==> cmds@ == resize_commands(
                window,
                self@.windows[window],
                delta,
            ),
            !self@.managed(window) ==> cmds@ == Seq::<Command>::empty(),
    {
        match self.registry.lookup(window) {
            None => Vec::new(),
            Some(f) => {
                let w = resized_dim(f.drag_start_size.w, delta.x);
                let h = resized_dim(f.drag_start_size.h, delta.y);
                let pad: u32 = 2 * DECORATION_PADDING as u32;
                let mut cmds: Vec<Command> = Vec::new();
                cmds.push(Command::ResizeWindow {
                    window: f.frame,
                    width: w + pad,
                    height: h + pad,
                });
                cmds.push(Command::ResizeWindow { window, width: w, height: h });
                cmds.push(Command::ResizeSurface {
                    surface: f.surface,
                    width: w + pad,
                    height: h + pad,
                });
                proof {
                    assert(cmds@ =~= resize_commands(window, self@.windows[window], delta));
                }
                cmds
            },
        }
    }
}

/// Finds the first window of the stacking order other than `excluding`,
/// raises it and hands it the input focus; with no other window this is a
/// no-op.
pub fn restack_next(stacking: &Vec<u64>, excluding: u64) -> (cmds: Vec<Command>)
    ensures
        cmds@ == restack_commands(stacking@, excluding),
{
    let mut i: usize = 0;
    proof {
        assert(stacking@.skip(0) =~= stacking@);
    }
    while i < stacking.len()
        invariant
            i <= stacking@.len(),
            first_other(stacking@, excluding) == first_other(
                stacking@.skip(i as int),
                excluding,
            ),
        decreases stacking@.len() - i,
    {
        let next = stacking[i];
        if next != excluding {
            proof {
                assert(stacking@.skip(i as int)[0] == next);
            }
            let mut cmds: Vec<Command> = Vec::new();
            cmds.push(Command::RaiseWindow { window: next });
            cmds.push(Command::SetInputFocus { window: next });
            proof {
                assert(cmds@ =~= restack_commands(stacking@, excluding));
            }
            return cmds;
        }
        proof {
            assert(stacking@.skip(i as int).drop_first() =~= stacking@.skip(i as int + 1));
        }
        i += 1;
    }
    proof {
        assert(stacking@.skip(i as int) =~= Seq::<u64>::empty());
    }
    Vec::new()
}

/// Destroying a frame is idempotent: a second destruction of the same
/// window finds nothing registered, changes no state, and emits no
/// commands — in particular its rendering resources are released exactly
/// once.
pub proof fn lemma_destroy_idempotent(v: WmView, window: u64)
    ensures
        v.destroyed(window).destroyed(window) == v.destroyed(window),
        v.destroyed(window).destroy_commands(window) == Seq::<Command>::empty(),
{
    assert(!v.destroyed(window).windows.contains_key(window));
}

/// How many pre-existing windows of a list the startup scan skips: those
/// that are override-redirected or not viewable.
pub open spec fn count_skipped(ws: Seq<(u64, WindowAttributes)>) -> int
    decreases ws.len(),
{
    if ws.len() == 0 {
        0
    } else {
        (if skipped_preexisting(ws[0].1) {
            1int
        } else {
            0int
        }) + count_skipped(ws.drop_first())
    }
}

/// How many frames the startup scan creates over a window list, threading
/// the growing managed set exactly as planning and committing each frame in
/// turn does.
pub open spec fn scan_created(managed: Set<u64>, ws: Seq<(u64, WindowAttributes)>) -> int
    decreases ws.len(),
{
    if ws.len() == 0 {
        0
    } else {
        if manageable(managed, ws[0].0, ws[0].1, true) {
            1 + scan_created(managed.insert(ws[0].0), ws.drop_first())
        } else {
            scan_created(managed, ws.drop_first())
        }
    }
}

/// Startup scan: over N distinct pre-existing windows none of which is
/// managed yet, of which M are override-redirected or not viewable, exactly
/// N - M frames are created.
pub proof fn lemma_startup_scan_count(managed: Set<u64>, ws: Seq<(u64, WindowAttributes)>)
    requires
        forall|i: int, j: int| 0 <= i < j < ws.len() ==> ws[i].0 != ws[j].0,
        forall|i: int| 0 <= i < ws.len() ==> !managed.contains(ws[i].0),
    ensures
        scan_created(managed, ws) == ws.len() - count_skipped(ws),
    decreases ws.len(),
{
    if ws.len() > 0 {
        let rest = ws.drop_first();
        assert(forall|i: int| 0 <= i < rest.len() ==> rest[i] == ws[i + 1]);
        assert(!managed.contains(ws[0].0));
        if manageable(managed, ws[0].0, ws[0].1, true) {
            let grown = managed.insert(ws[0].0);
            assert(forall|i: int| 0 <= i < rest.len() ==> !grown.contains(rest[i].0));
            lemma_startup_scan_count(grown, rest);
        } else {
            lemma_startup_scan_count(managed, rest);
        }
    }
}

/// Whether the queried protocol capabilities advertise a cooperative close.
/// A failed capability query hands in the empty list, so it counts as not
/// advertised.
pub fn advertises_cooperative_close(protocols: &Vec<u64>, close_capability: u64) -> (b: bool)
    ensures
        b == protocols@.contains(close_capability),
{
    let mut i: usize = 0;
    while i < protocols.len()
        invariant
            i <= protocols@.len(),
            forall|j: int| 0 <= j < i ==> protocols@[j] != close_capability,
        decreases protocols@.len() - i,
    {
        if protocols[i] == close_capability {
            proof {
                assert(protocols@[i as int] == close_capability);
            }
            return true;
        }
        i += 1;
    }
    false
}

/// The two-tier close policy: a client that advertises the cooperative close
/// capability gets a synthesized close notification; any other has its
/// connection terminated.
pub fn request_close(window: u64, protocols: &Vec<u64>, close_capability: u64) -> (c: Command)
    ensures
        c == close_command(window, protocols@.contains(close_capability)),
{
    if advertises_cooperative_close(protocols, close_capability) {
        Command::SendCooperativeClose { window }
    } else {
        Command::KillClient { window }
    }
}

} // verus!
