//! Event dispatching and gesture behaviour on concrete event sequences.

use gothite::geometry::{Delta, Pos, Size};
use gothite::manager::{FrameGeometry, FrameHandles, KeyBindings, Wm, WindowAttributes};
use gothite::protocol::{
    Command, ConfigureChanges, Event, FollowUp, KeyAction, DRAG_MODIFIER_MASK,
    PRIMARY_BUTTON_MASK, SECONDARY_BUTTON_MASK,
};

const ROOT: u64 = 1;
const CLOSE_KEY: u32 = 70;
const CYCLE_KEY: u32 = 23;

fn wm_with(clients: &[(u64, u64)]) -> Wm {
    let mut wm = Wm::new(ROOT, KeyBindings { close_key: CLOSE_KEY, cycle_key: CYCLE_KEY });
    for (client, frame) in clients.iter() {
        let a = WindowAttributes {
            x: 0,
            y: 0,
            width: 100,
            height: 100,
            override_redirect: false,
            viewable: true,
        };
        assert!(wm.plan_frame(*client, &a, false).is_some());
        wm.commit_frame(
            *client,
            FrameHandles { frame: *frame, surface: frame * 10, context: frame * 10 + 1 },
        );
    }
    wm
}

fn press(wm: &mut Wm, client: u64, at: Pos, origin: Pos, size: Size) {
    let cmds = wm.on_button_press(client, at, Some(FrameGeometry { pos: origin, size }));
    assert_eq!(cmds.len(), 1);
}

#[test]
fn gesture_moves_are_absolute_not_cumulative() {
    let mut wm = wm_with(&[(5, 9)]);
    let state = DRAG_MODIFIER_MASK | PRIMARY_BUTTON_MASK;
    press(&mut wm, 5, Pos { x: 100, y: 100 }, Pos { x: 30, y: 40 }, Size { w: 50, h: 60 });

    let m1 = wm.on_motion_notify(5, Pos { x: 110, y: 105 }, state);
    assert_eq!(m1, vec![Command::MoveWindow { window: 9, x: 40, y: 45 }]);

    // The second motion is measured from the press anchor, not from the
    // previous motion: origin + (p2 - p0).
    let m2 = wm.on_motion_notify(5, Pos { x: 130, y: 90 }, state);
    assert_eq!(m2, vec![Command::MoveWindow { window: 9, x: 60, y: 30 }]);
}

#[test]
fn gesture_resize_follows_drag_origin_size() {
    let mut wm = wm_with(&[(5, 9)]);
    let state = DRAG_MODIFIER_MASK | SECONDARY_BUTTON_MASK;
    press(&mut wm, 5, Pos { x: 200, y: 200 }, Pos { x: 0, y: 0 }, Size { w: 50, h: 50 });

    let cmds = wm.on_motion_notify(5, Pos { x: 230, y: 180 }, state);
    assert_eq!(
        cmds,
        vec![
            Command::ResizeWindow { window: 9, width: 100, height: 50 },
            Command::ResizeWindow { window: 5, width: 80, height: 30 },
            Command::ResizeSurface { surface: 90, width: 100, height: 50 },
        ]
    );
}

#[test]
fn motion_for_other_window_is_isolated() {
    let mut wm = wm_with(&[(5, 9), (6, 20)]);
    let state = DRAG_MODIFIER_MASK | PRIMARY_BUTTON_MASK;
    press(&mut wm, 5, Pos { x: 0, y: 0 }, Pos { x: 0, y: 0 }, Size { w: 50, h: 50 });

    // Window 6 is managed but is not the drag target: no geometry change.
    assert!(wm.on_motion_notify(6, Pos { x: 50, y: 50 }, state).is_empty());
    // An unmanaged window produces nothing either.
    assert!(wm.on_motion_notify(7, Pos { x: 50, y: 50 }, state).is_empty());
}

#[test]
fn motion_without_modifier_or_button_is_ignored() {
    let mut wm = wm_with(&[(5, 9)]);
    press(&mut wm, 5, Pos { x: 0, y: 0 }, Pos { x: 0, y: 0 }, Size { w: 50, h: 50 });
    assert!(wm.on_motion_notify(5, Pos { x: 10, y: 10 }, 0).is_empty());
    assert!(wm.on_motion_notify(5, Pos { x: 10, y: 10 }, PRIMARY_BUTTON_MASK).is_empty());
    assert!(wm.on_motion_notify(5, Pos { x: 10, y: 10 }, DRAG_MODIFIER_MASK).is_empty());
}

#[test]
fn button_release_returns_to_idle() {
    let mut wm = wm_with(&[(5, 9)]);
    press(&mut wm, 5, Pos { x: 0, y: 0 }, Pos { x: 0, y: 0 }, Size { w: 50, h: 50 });
    assert_eq!(wm.active_window, Some(5));
    wm.on_button_release();
    assert_eq!(wm.active_window, None);
    // After release, motions are ignored again.
    let state = DRAG_MODIFIER_MASK | PRIMARY_BUTTON_MASK;
    assert!(wm.on_motion_notify(5, Pos { x: 10, y: 10 }, state).is_empty());
}

#[test]
fn press_without_geometry_or_unmanaged_changes_nothing() {
    let mut wm = wm_with(&[(5, 9)]);
    assert!(wm.on_button_press(5, Pos { x: 0, y: 0 }, None).is_empty());
    assert_eq!(wm.active_window, None);
    let geom = FrameGeometry { pos: Pos { x: 0, y: 0 }, size: Size { w: 1, h: 1 } };
    assert!(wm.on_button_press(6, Pos { x: 0, y: 0 }, Some(geom)).is_empty());
    assert_eq!(wm.active_window, None);
}

#[test]
fn unmap_from_root_is_ignored() {
    let mut wm = wm_with(&[(5, 9)]);
    let cmds = wm.on_unmap_notify(5, ROOT);
    assert!(cmds.is_empty());
    assert!(wm.is_managed(5));
}

#[test]
fn unmap_tears_down_managed_window() {
    let mut wm = wm_with(&[(5, 9)]);
    let cmds = wm.on_unmap_notify(5, 2);
    assert_eq!(cmds.len(), 6);
    assert_eq!(cmds[0], Command::DestroySurface { surface: 90 });
    assert!(!wm.is_managed(5));
    // An unmanaged window is ignored.
    let mut wm2 = wm_with(&[]);
    assert!(wm2.on_unmap_notify(5, 2).is_empty());
}

#[test]
fn key_press_classification() {
    let wm = wm_with(&[(5, 9)]);
    assert_eq!(wm.on_key_press(ROOT, CYCLE_KEY, 0), KeyAction::CycleFocus);
    assert_eq!(wm.on_key_press(ROOT, CLOSE_KEY, 0), KeyAction::Ignore);
    assert_eq!(
        wm.on_key_press(5, CLOSE_KEY, DRAG_MODIFIER_MASK),
        KeyAction::RequestClose { window: 5 }
    );
    assert_eq!(wm.on_key_press(5, CYCLE_KEY, DRAG_MODIFIER_MASK), KeyAction::Ignore);
    assert_eq!(wm.on_key_press(5, 33, 0), KeyAction::Raise { window: 5 });
    assert_eq!(wm.on_key_press(6, CLOSE_KEY, DRAG_MODIFIER_MASK), KeyAction::Ignore);
}

#[test]
fn configure_request_is_mirrored_unchanged() {
    let wm = wm_with(&[(5, 9)]);
    let changes = ConfigureChanges {
        x: 10,
        y: 20,
        width: 300,
        height: 400,
        border_width: 1,
        sibling: 0,
        stack_mode: 0,
    };
    assert_eq!(
        wm.on_configure_request(5, changes, 15),
        vec![
            Command::ConfigureWindow { window: 9, changes, value_mask: 15 },
            Command::ConfigureWindow { window: 5, changes, value_mask: 15 },
        ]
    );
    assert_eq!(
        wm.on_configure_request(6, changes, 15),
        vec![Command::ConfigureWindow { window: 6, changes, value_mask: 15 }]
    );
}

#[test]
fn expose_resolves_owning_frame() {
    let wm = wm_with(&[(5, 9)]);
    let children: Vec<u64> = vec![5];
    assert_eq!(
        wm.on_expose(&children),
        Some(Command::DrawDecoration { frame: 9, context: 91 })
    );
    let no_children: Vec<u64> = vec![];
    assert_eq!(wm.on_expose(&no_children), None);
    let foreign: Vec<u64> = vec![6];
    assert_eq!(wm.on_expose(&foreign), None);
}

#[test]
fn handle_event_routes_each_kind() {
    let mut wm = wm_with(&[(5, 9)]);

    let (cmds, fu) = wm.handle_event(&Event::MapRequest { window: 7 });
    assert!(cmds.is_empty());
    assert_eq!(fu, Some(FollowUp::PlanFrame { window: 7 }));

    let (cmds, fu) = wm.handle_event(&Event::ButtonPress { window: 5, pointer: Pos { x: 3, y: 4 } });
    assert!(cmds.is_empty());
    assert_eq!(fu, Some(FollowUp::BeginDrag { window: 5, pointer: Pos { x: 3, y: 4 } }));

    let (cmds, fu) = wm.handle_event(&Event::ButtonPress { window: 6, pointer: Pos { x: 3, y: 4 } });
    assert!(cmds.is_empty());
    assert_eq!(fu, None);

    let (cmds, fu) = wm.handle_event(&Event::KeyPress { window: ROOT, keycode: CYCLE_KEY, state: 0 });
    assert!(cmds.is_empty());
    assert_eq!(fu, Some(FollowUp::CycleFocus { excluding: ROOT }));

    let (cmds, fu) = wm.handle_event(&Event::KeyPress {
        window: 5,
        keycode: CLOSE_KEY,
        state: DRAG_MODIFIER_MASK,
    });
    assert!(cmds.is_empty());
    assert_eq!(fu, Some(FollowUp::RequestClose { window: 5 }));

    let (cmds, fu) = wm.handle_event(&Event::KeyPress { window: 5, keycode: 33, state: 0 });
    assert_eq!(cmds, vec![Command::RaiseWindow { window: 5 }]);
    assert_eq!(fu, None);

    let (cmds, fu) = wm.handle_event(&Event::Expose { window: 9 });
    assert!(cmds.is_empty());
    assert_eq!(fu, Some(FollowUp::DrawFrame { window: 9 }));

    let (cmds, fu) = wm.handle_event(&Event::MapNotify { window: 5 });
    assert!(cmds.is_empty());
    assert_eq!(fu, None);
    let (cmds, fu) = wm.handle_event(&Event::Other { kind: 99 });
    assert!(cmds.is_empty());
    assert_eq!(fu, None);

    let (cmds, fu) = wm.handle_event(&Event::UnmapNotify { window: 5, event: 2 });
    assert_eq!(cmds.len(), 6);
    assert_eq!(fu, None);
    assert!(!wm.is_managed(5));
}

#[test]
fn handle_event_drives_drag_sequence() {
    let mut wm = wm_with(&[(5, 9)]);
    let state = DRAG_MODIFIER_MASK | PRIMARY_BUTTON_MASK;

    let (_, fu) = wm.handle_event(&Event::ButtonPress { window: 5, pointer: Pos { x: 100, y: 100 } });
    let Some(FollowUp::BeginDrag { window, pointer }) = fu else {
        panic!("expected a drag follow-up");
    };
    let geom = FrameGeometry { pos: Pos { x: 30, y: 40 }, size: Size { w: 50, h: 60 } };
    let cmds = wm.on_button_press(window, pointer, Some(geom));
    assert_eq!(cmds, vec![Command::RaiseWindow { window: 9 }]);

    let (cmds, _) = wm.handle_event(&Event::MotionNotify {
        window: 5,
        pointer: Pos { x: 110, y: 105 },
        state,
    });
    assert_eq!(cmds, vec![Command::MoveWindow { window: 9, x: 40, y: 45 }]);

    let (cmds, fu) = wm.handle_event(&Event::ButtonRelease { window: 5 });
    assert!(cmds.is_empty());
    assert_eq!(fu, None);
    assert_eq!(wm.active_window, None);
}

#[test]
fn resize_unmanaged_window_is_noop() {
    let wm = wm_with(&[]);
    assert!(wm.resize(5, Delta { x: 10, y: 10 }).is_empty());
    assert!(wm.move_frame(5, Delta { x: 10, y: 10 }).is_empty());
}
