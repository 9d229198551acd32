//! The window registry: the single source of truth for which client windows
//! are managed, mapping each client window identifier to its `Frame` record.

use vstd::prelude::*;
use crate::geometry::{Pos, Size};
use std::collections::HashMap;

verus! {

broadcast use vstd::std_specs::hash::group_hash_axioms;

/// One managed client window's decoration wrapper: the server-side container
/// window, the rendering resource bundle bound 1:1 to it, and the geometry
/// recorded at the start of the current drag gesture.
#[derive(Clone, Copy, PartialEq, Eq, Structural, Debug)]
pub struct Frame {
    /// Server-side container window that holds decoration plus client.
    pub frame: u64,
    /// Rendering surface owned by this frame; destroyed exactly once, on
    /// frame teardown.
    pub surface: u64,
    /// Rendering context owned by this frame; destroyed together with the
    /// surface.
    pub context: u64,
    /// Container position committed at the start of the active drag gesture.
    pub drag_start: Pos,
    /// Container size committed at the start of the active resize gesture.
    pub drag_start_size: Size,
}

/// Mapping from client window identifier to its `Frame`. Keys are unique and
/// insertion order is irrelevant; its view is the mathematical map.
pub struct Registry {
    windows: HashMap<u64, Frame>,
}

impl View for Registry {
    type V = Map<u64, Frame>;

    closed spec fn view(&self) -> Map<u64, Frame> {
        self.windows@
    }
}

impl Registry {
    /// An empty registry: nothing is managed.
    pub fn new() -> (r: Registry)
        ensures
            r@ == Map::<u64, Frame>::empty(),
    {
        Registry { windows: HashMap::new() }
    }

    /// Whether `client` is currently managed.
    pub fn is_managed(&self, client: u64) -> (b: bool)
        ensures
            b == self@.contains_key(client),
    {
        self.windows.contains_key(&client)
    }

    /// Inserts a new frame for `client`. A duplicate registration indicates a
    /// protocol inconsistency and is ignored: the existing entry is kept.
    pub fn register(&mut self, client: u64, frame: Frame)
        ensures
            final(self)@ == apply_op(old(self)@, (RegOp::Register { client, frame })),
    {
        if !self.windows.contains_key(&client) {
            self.windows.insert(client, frame);
        }
    }

    /// Looks the client up; absence means "not managed", a normal outcome for
    /// foreign or root windows.
    pub fn lookup(&self, client: u64) -> (r: Option<Frame>)
        ensures
            r == (if self@.contains_key(client) {
                Some(self@[client])
            } else {
                None::<Frame>
            }),
    {
        match self.windows.get(&client) {
            Some(f) => Some(*f),
            None => None,
        }
    }

    /// Removes the entry and hands back its frame so the caller can release
    /// the rendering resources alongside; no-op (and `None`) if absent.
    pub fn unregister_and_release(&mut self, client: u64) -> (r: Option<Frame>)
        ensures
            final(self)@ == apply_op(old(self)@, (RegOp::Unregister { client })),
            r == (if old(self)@.contains_key(client) {
                Some(old(self)@[client])
            } else {
                None::<Frame>
            }),
    {
        self.windows.remove(&client)
    }

    /// Records the geometry at the start of a drag gesture on the client's
    /// frame; no-op if the client is not managed.
    pub fn set_drag_origin(&mut self, client: u64, origin: Pos, origin_size: Size)
        ensures
            !old(self)@.contains_key(client) ==> final(self)@ == old(self)@,
            old(self)@.contains_key(client) ==> final(self)@ == old(self)@.insert(
                client,
                (Frame {
                    drag_start: origin,
                    drag_start_size: origin_size,
                    ..old(self)@[client]
                }),
            ),
    {
        let found = match self.windows.get(&client) {
            Some(f) => Some(*f),
            None => None,
        };
        match found {
            Some(f) => {
                self.windows.insert(
                    client,
                    Frame { drag_start: origin, drag_start_size: origin_size, ..f },
                );
            },
            None => {},
        }
    }
}

/// One registry operation, as the lifecycle performs them.
#[derive(Clone, Copy, PartialEq, Eq, Structural, Debug)]
pub enum RegOp {
    Register { client: u64, frame: Frame },
    Unregister { client: u64 },
}

/// What one operation does to the mapping: a duplicate registration is
/// ignored, unregistration of an absent key is a no-op.
pub open spec fn apply_op(m: Map<u64, Frame>, op: RegOp) -> Map<u64, Frame> {
    match op {
        RegOp::Register { client, frame } => if m.contains_key(client) {
            m
        } else {
            m.insert(client, frame)
        },
        RegOp::Unregister { client } => m.remove(client),
    }
}

/// The mapping after a whole sequence of operations, applied in order.
pub open spec fn apply_ops(m: Map<u64, Frame>, ops: Seq<RegOp>) -> Map<u64, Frame>
    decreases ops.len(),
{
    if ops.len() == 0 {
        m
    } else {
        apply_op(apply_ops(m, ops.drop_last()), ops.last())
    }
}

/// The frame a key should be bound to after a sequence of operations: the
/// frame of the earliest registration for that key not separated from the
/// present by an unregistration, or `None`.
pub open spec fn expected_entry(m: Map<u64, Frame>, ops: Seq<RegOp>, k: u64) -> Option<Frame>
    decreases ops.len(),
{
    if ops.len() == 0 {
        if m.contains_key(k) {
            Some(m[k])
        } else {
            None
        }
    } else {
        let prev = expected_entry(m, ops.drop_last(), k);
        match ops.last() {
            RegOp::Register { client, frame } => if client == k && prev is None {
                Some(frame)
            } else {
                prev
            },
            RegOp::Unregister { client } => if client == k {
                None
            } else {
                prev
            },
        }
    }
}

/// Registry invariant: after any sequence of register/unregister operations,
/// every key in the registry is bound to exactly one live frame — the one
/// `expected_entry` names — and a key without a live registration is absent,
/// so no frame (and no rendering resource bundle) outlives its registration.
pub proof fn lemma_registry_tracks_ops(m: Map<u64, Frame>, ops: Seq<RegOp>, k: u64)
    ensures
        apply_ops(m, ops).contains_key(k) <==> expected_entry(m, ops, k) is Some,
        apply_ops(m, ops).contains_key(k) ==> Some(apply_ops(m, ops)[k]) == expected_entry(
            m,
            ops,
            k,
        ),
    decreases ops.len(),
{
    if ops.len() > 0 {
        lemma_registry_tracks_ops(m, ops.drop_last(), k);
    }
}

} // verus!
