//! The interaction controller and the event dispatcher: one handler per
//! event kind, each a function from manager state and plain event fields to
//! the next state, the outbound commands, and at most one follow-up query
//! for the event loop to perform.

use vstd::prelude::*;
use crate::geometry::{Pos, spec_delta, pointer_delta};
use crate::protocol::{Command, ConfigureChanges, Event, FollowUp, KeyAction, DRAG_MODIFIER_MASK,
    PRIMARY_BUTTON_MASK, SECONDARY_BUTTON_MASK};
use crate::manager::{Wm, WmView, WindowAttributes, FrameGeometry, FramePlan, manageable,
    spec_frame_plan, move_commands, resize_commands};
use crate::registry::Frame;

verus! {

impl WmView {
    /// The state after a button press began a drag on `window`: the frame's
    /// drag origin is the container's current geometry, the anchor is the
    /// pointer's root position, and the window is the drag target.
    pub open spec fn pressed(self, window: u64, pointer: Pos, g: FrameGeometry) -> WmView {
        WmView {
            windows: self.windows.insert(
                window,
                (Frame {
                    drag_start: g.pos,
                    drag_start_size: g.size,
                    ..self.windows[window]
                }),
            ),
            drag_anchor: pointer,
            active_window: Some(window),
            ..self
        }
    }

    /// The state after a button press: a drag begins only on a managed
    /// window whose container geometry could be read.
    pub open spec fn press_state(
        self,
        window: u64,
        pointer: Pos,
        frame_geom: Option<FrameGeometry>,
    ) -> WmView {
        match frame_geom {
            Some(g) => if self.managed(window) {
                self.pressed(window, pointer, g)
            } else {
                self
            },
            None => self,
        }
    }

    /// The commands of a button press: a beginning drag raises the
    /// container; anything else is ignored.
    pub open spec fn press_commands(
        self,
        window: u64,
        frame_geom: Option<FrameGeometry>,
    ) -> Seq<Command> {
        match frame_geom {
            Some(g) => if self.managed(window) {
                seq![Command::RaiseWindow { window: self.windows[window].frame }]
            } else {
                Seq::empty()
            },
            None => Seq::empty(),
        }
    }

    /// The commands of a motion event: only the current drag target, with
    /// the drag modifier held, moves (primary button) or resizes (secondary
    /// button); every other motion event is ignored and no state changes.
    pub open spec fn motion_commands(self, window: u64, pointer: Pos, state: u32) -> Seq<
        Command,
    > {
        if !self.windows.contains_key(window) {
            Seq::empty()
        } else if self.active_window != Some(window) {
            Seq::empty()
        } else {
            let f = self.windows[window];
            let d = spec_delta(pointer, self.drag_anchor);
            if state & DRAG_MODIFIER_MASK != 0 {
                if state & PRIMARY_BUTTON_MASK != 0 {
                    move_commands(window, f, d)
                } else if state & SECONDARY_BUTTON_MASK != 0 {
                    resize_commands(window, f, d)
                } else {
                    Seq::empty()
                }
            } else {
                Seq::empty()
            }
        }
    }

    /// The dispatcher's decision for a key press: the cycle binding on the
    /// root cycles focus; on a managed window the modified close binding
    /// requests a close and an unmodified key raises the window.
    pub open spec fn key_action(self, window: u64, keycode: u32, state: u32) -> KeyAction {
        if window == self.root {
            if keycode == self.bindings.cycle_key {
                KeyAction::CycleFocus
            } else {
                KeyAction::Ignore
            }
        } else if !self.windows.contains_key(window) {
            KeyAction::Ignore
        } else if state & DRAG_MODIFIER_MASK != 0 {
            if keycode == self.bindings.close_key {
                KeyAction::RequestClose { window }
            } else {
                KeyAction::Ignore
            }
        } else {
            KeyAction::Raise { window }
        }
    }

    /// An unmap notification tears the frame down only for a managed window
    /// whose event field is not the root.
    pub open spec fn unmap_teardown(self, window: u64, event: u64) -> bool {
        self.windows.contains_key(window) && event != self.root
    }

    /// A configure request is mirrored unchanged to the client, and to its
    /// container first if it is managed; the manager never overrides it.
    pub open spec fn configure_commands(
        self,
        window: u64,
        changes: ConfigureChanges,
        value_mask: u64,
    ) -> Seq<Command> {
        if self.windows.contains_key(window) {
            seq![
                Command::ConfigureWindow {
                    window: self.windows[window].frame,
                    changes,
                    value_mask,
                },
                Command::ConfigureWindow { window, changes, value_mask },
            ]
        } else {
            seq![Command::ConfigureWindow { window, changes, value_mask }]
        }
    }

    /// An exposure is resolved to the owning frame through the reported
    /// window's first child (the reported window is the container itself);
    /// an unmanaged or childless window is skipped.
    pub open spec fn expose_command(self, children: Seq<u64>) -> Option<Command> {
        if children.len() > 0 && self.windows.contains_key(children[0]) {
            Some(Command::DrawDecoration {
                frame: self.windows[children[0]].frame,
                context: self.windows[children[0]].context,
            })
        } else {
            None
        }
    }

    /// The state transition of one dispatched event. Only an unmap
    /// notification and a button release change state here; a button press
    /// changes state in its follow-up, once the frame geometry is known.
    pub open spec fn step(self, ev: Event) -> WmView {
        match ev {
            Event::UnmapNotify { window, event } => if self.unmap_teardown(window, event) {
                self.destroyed(window)
            } else {
                self
            },
            Event::ButtonRelease { window: _ } => WmView { active_window: None, ..self },
            _ => self,
        }
    }

    /// The commands of one dispatched event.
    pub open spec fn step_commands(self, ev: Event) -> Seq<Command> {
        match ev {
            Event::UnmapNotify { window, event } => if self.unmap_teardown(window, event) {
                self.destroy_commands(window)
            } else {
                Seq::empty()
            },
            Event::ConfigureRequest { window, changes, value_mask } => self.configure_commands(
                window,
                changes,
                value_mask,
            ),
            Event::MotionNotify { window, pointer, state } => self.motion_commands(
                window,
                pointer,
                state,
            ),
            Event::KeyPress { window, keycode, state } => match self.key_action(
                window,
                keycode,
                state,
            ) {
                KeyAction::Raise { window: w } => seq![Command::RaiseWindow { window: w }],
                _ => Seq::empty(),
            },
            _ => Seq::empty(),
        }
    }

    /// The follow-up query of one dispatched event, if its handling needs a
    /// server answer first.
    pub open spec fn step_followup(self, ev: Event) -> Option<FollowUp> {
        match ev {
            Event::MapRequest { window } => Some(FollowUp::PlanFrame { window }),
            Event::ButtonPress { window, pointer } => if self.managed(window) {
                Some(FollowUp::BeginDrag { window, pointer })
            } else {
                None
            },
            Event::KeyPress { window, keycode, state } => match self.key_action(
                window,
                keycode,
                state,
            ) {
                KeyAction::CycleFocus => Some(FollowUp::CycleFocus { excluding: self.root }),
                KeyAction::RequestClose { window: w } => Some(FollowUp::RequestClose { window: w }),
                _ => None,
            },
            Event::Expose { window } => Some(FollowUp::DrawFrame { window }),
            _ => None,
        }
    }
}

impl Wm {
    /// Completes a map request once the client's attributes are known: the
    /// decision whether (and how) to frame the window, and the command
    /// mapping the client, issued whether or not a new frame is made.
    pub fn on_map_request(&self, window: u64, attrs: &WindowAttributes) -> (r: (
        Option<FramePlan>,
        Command,
    ))
        ensures
            r.0 == (if manageable(self@.windows.dom(), window, *attrs, false) {
                Some(spec_frame_plan(*attrs))
            } else {
                None::<FramePlan>
            }),
            r.1 == (Command::MapWindow { window }),
    {
        (self.plan_frame(window, attrs, false), Command::MapWindow { window })
    }

    /// Tears down the frame of an unmapped window, unless it is unmanaged
    /// or the notification's event field is the root (those are ignored).
    pub fn on_unmap_notify(&mut self, window: u64, event: u64) -> (cmds: Vec<Command>)
        ensures
            old(self)@.unmap_teardown(window, event) ==> final(self)@ == old(self)@.destroyed(
                window,
            ) && cmds@ == old(self)@.destroy_commands(window),
            !old(self)@.unmap_teardown(window, event) ==> final(self)@ == old(self)@ && cmds@
                == Seq::<Command>::empty(),
    {
        if !self.registry.is_managed(window) {
            return Vec::new();
        }
        if event == self.root {
            return Vec::new();
        }
        self.destroy_frame(window)
    }

    /// Mirrors a configure request to the client and, if managed, its
    /// container.
    pub fn on_configure_request(
        &self,
        window: u64,
        changes: ConfigureChanges,
        value_mask: u64,
    ) -> (cmds: Vec<Command>)
        ensures
            cmds@ == self@.configure_commands(window, changes, value_mask),
    {
        let mut cmds: Vec<Command> = Vec::new();
        match self.registry.lookup(window) {
            Some(f) => {
                cmds.push(Command::ConfigureWindow { window: f.frame, changes, value_mask });
            },
            None => {},
        }
        cmds.push(Command::ConfigureWindow { window, changes, value_mask });
        proof {
            assert(cmds@ =~= self@.configure_commands(window, changes, value_mask));
        }
        cmds
    }

    /// Begins a drag on a managed window once its container's geometry is
    /// known: records drag origin and anchor, marks the drag target, and
    /// raises the container. A press on an unmanaged window, or one whose
    /// geometry query failed (`None`), changes nothing.
    pub fn on_button_press(
        &mut self,
        window: u64,
        pointer: Pos,
        frame_geom: Option<FrameGeometry>,
    ) -> (cmds: Vec<Command>)
        ensures
            final(self)@ == old(self)@.press_state(window, pointer, frame_geom),
            cmds@ == old(self)@.press_commands(window, frame_geom),
    {
        let found = self.registry.lookup(window);
        match (found, frame_geom) {
            (Some(f), Some(g)) => {
                self.registry.set_drag_origin(window, g.pos, g.size);
                self.active_window = Some(window);
                self.drag_anchor = pointer;
                let mut cmds: Vec<Command> = Vec::new();
                cmds.push(Command::RaiseWindow { window: f.frame });
                proof {
                    assert(self@ =~= old(self)@.pressed(window, pointer, g));
                    assert(cmds@ =~= old(self)@.press_commands(window, frame_geom));
                }
                cmds
            },
            _ => Vec::new(),
        }
    }

    /// Ends any drag gesture: the controller returns to idle. No geometry
    /// commit is needed, since move and resize were applied incrementally.
    pub fn on_button_release(&mut self)
        ensures
            final(self)@ == (WmView { active_window: None::<u64>, ..old(self)@ }),
    {
        self.active_window = None;
        proof {
            assert(self@ =~= (WmView { active_window: None::<u64>, ..old(self)@ }));
        }
    }

    /// One motion step of a drag: moves or resizes the drag target by the
    /// pointer's offset from the anchor; every other motion is ignored.
    pub fn on_motion_notify(&self, window: u64, pointer: Pos, state: u32) -> (cmds: Vec<
        Command,
    >)
        ensures
            cmds@ == self@.motion_commands(window, pointer, state),
    {
        if !self.registry.is_managed(window) {
            return Vec::new();
        }
        let is_target = match self.active_window {
            Some(a) => a == window,
            None => false,
        };
        if !is_target {
            return Vec::new();
        }
        let d = pointer_delta(pointer, self.drag_anchor);
        if state & DRAG_MODIFIER_MASK != 0 {
            if state & PRIMARY_BUTTON_MASK != 0 {
                self.move_frame(window, d)
            } else if state & SECONDARY_BUTTON_MASK != 0 {
                self.resize(window, d)
            } else {
                Vec::new()
            }
        } else {
            Vec::new()
        }
    }

    /// Classifies a key press; the event loop acts on the decision.
    pub fn on_key_press(&self, window: u64, keycode: u32, state: u32) -> (a: KeyAction)
        ensures
            a == self@.key_action(window, keycode, state),
    {
        if window == self.root {
            if keycode == self.bindings.cycle_key {
                KeyAction::CycleFocus
            } else {
                KeyAction::Ignore
            }
        } else if !self.registry.is_managed(window) {
            KeyAction::Ignore
        } else if state & DRAG_MODIFIER_MASK != 0 {
            if keycode == self.bindings.close_key {
                KeyAction::RequestClose { window }
            } else {
                KeyAction::Ignore
            }
        } else {
            KeyAction::Raise { window }
        }
    }

    /// Resolves an exposure to the decoration repaint of the owning frame,
    /// given the exposed window's children as the server reports them.
    pub fn on_expose(&self, children: &Vec<u64>) -> (r: Option<Command>)
        ensures
            r == self@.expose_command(children@),
    {
        if children.len() == 0 {
            return None;
        }
        match self.registry.lookup(children[0]) {
            None => None,
            Some(f) => Some(Command::DrawDecoration { frame: f.frame, context: f.context }),
        }
    }

    /// Dispatches one event: classifies its kind exhaustively, applies the
    /// handlers that need no server answer, and names the follow-up query
    /// for those that do. Kinds that carry no required reaction change
    /// nothing.
    pub fn handle_event(&mut self, ev: &Event) -> (r: (Vec<Command>, Option<FollowUp>))
        ensures
            final(self)@ == old(self)@.step(*ev),
            r.0@ == old(self)@.step_commands(*ev),
            r.1 == old(self)@.step_followup(*ev),
    {
        match *ev {
            Event::MapRequest { window } => (Vec::new(), Some(FollowUp::PlanFrame { window })),
            Event::UnmapNotify { window, event } => (self.on_unmap_notify(window, event), None),
            Event::ConfigureRequest { window, changes, value_mask } => (
                self.on_configure_request(window, changes, value_mask),
                None,
            ),
            Event::ButtonPress { window, pointer } => {
                let fu = if self.registry.is_managed(window) {
                    Some(FollowUp::BeginDrag { window, pointer })
                } else {
                    None
                };
                (Vec::new(), fu)
            },
            Event::ButtonRelease { window: _ } => {
                self.on_button_release();
                (Vec::new(), None)
            },
            Event::KeyPress { window, keycode, state } => {
                let a = self.on_key_press(window, keycode, state);
                match a {
                    KeyAction::CycleFocus => (
                        Vec::new(),
                        Some(FollowUp::CycleFocus { excluding: self.root }),
                    ),
                    KeyAction::RequestClose { window: w } => (
                        Vec::new(),
                        Some(FollowUp::RequestClose { window: w }),
                    ),
                    KeyAction::Raise { window: w } => {
                        let mut cmds: Vec<Command> = Vec::new();
                        cmds.push(Command::RaiseWindow { window: w });
                        proof {
                            assert(cmds@ =~= old(self)@.step_commands(*ev));
                        }
                        (cmds, None)
                    },
                    KeyAction::Ignore => (Vec::new(), None),
                }
            },
            Event::MotionNotify { window, pointer, state } => (
                self.on_motion_notify(window, pointer, state),
                None,
            ),
            Event::Expose { window } => (Vec::new(), Some(FollowUp::DrawFrame { window })),
            Event::KeyRelease { window: _ } => (Vec::new(), None),
            Event::ReparentNotify { window: _ } => (Vec::new(), None),
            Event::MapNotify { window: _ } => (Vec::new(), None),
            Event::ConfigureNotify { window: _ } => (Vec::new(), None),
            Event::CreateNotify { window: _ } => (Vec::new(), None),
            Event::DestroyNotify { window: _ } => (Vec::new(), None),
            Event::Other { kind: _ } => (Vec::new(), None),
        }
    }
}

/// Drag isolation: a motion event for any window other than the current
/// drag target produces no commands, and hence no geometry change.
pub proof fn lemma_drag_isolation(v: WmView, window: u64, pointer: Pos, state: u32)
    requires
        v.active_window != Some(window),
    ensures
        v.motion_commands(window, pointer, state) == Seq::<Command>::empty(),
{
}

/// Gesture correctness: after a button press at `p0` whose managed window's
/// container then stood at `g.pos`, a motion at `pn` with modifier and
/// primary button held moves the container to `g.pos + (pn - p0)`. The
/// position depends only on the press and the latest pointer position —
/// motion handling changes no state, so consecutive motions do not
/// accumulate.
pub proof fn lemma_gesture_motion(
    v: WmView,
    window: u64,
    p0: Pos,
    g: FrameGeometry,
    pn: Pos,
    state: u32,
)
    requires
        v.windows.contains_key(window),
        state & DRAG_MODIFIER_MASK != 0,
        state & PRIMARY_BUTTON_MASK != 0,
    ensures
        v.pressed(window, p0, g).motion_commands(window, pn, state) == seq![
            Command::MoveWindow {
                window: v.windows[window].frame,
                x: (g.pos.x + (pn.x - p0.x)) as i32,
                y: (g.pos.y + (pn.y - p0.y)) as i32,
            },
        ],
{
    let v1 = v.pressed(window, p0, g);
    assert(v1.windows[window].frame == v.windows[window].frame);
    assert(v1.motion_commands(window, pn, state) =~= seq![
        Command::MoveWindow {
            window: v.windows[window].frame,
            x: (g.pos.x + (pn.x - p0.x)) as i32,
            y: (g.pos.y + (pn.y - p0.y)) as i32,
        },
    ]);
}

/// The interaction-state invariant is preserved by every dispatched event:
/// the drag target, when set, stays a key of the registry.
pub proof fn lemma_step_keeps_drag_target_ok(v: WmView, ev: Event)
    requires
        v.drag_target_ok(),
    ensures
        v.step(ev).drag_target_ok(),
{
}

/// Beginning a drag keeps the invariant too: the press only targets a
/// managed window.
pub proof fn lemma_press_keeps_drag_target_ok(
    v: WmView,
    window: u64,
    pointer: Pos,
    frame_geom: Option<FrameGeometry>,
)
    requires
        v.drag_target_ok(),
    ensures
        v.press_state(window, pointer, frame_geom).drag_target_ok(),
{
}

} // verus!
