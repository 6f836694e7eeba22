//! A small store of human-readable diagnostic lines, keyed by a closed set
//! of well-known slots, written by services and read by the debug overlay.

use std::collections::HashMap;
use vstd::prelude::*;
use vstd::std_specs::hash::group_hash_axioms;

verus! {

broadcast use group_hash_axioms;

/// The diagnostic slots the overlay knows how to show.
#[derive(Clone, Copy, PartialEq, Eq, Structural, Debug)]
pub enum DebugKey {
    /// The most recent frames-per-second estimate.
    CurrentFPS,
    /// Where the camera stands.
    CameraPosition,
    /// The block the camera looks at.
    CurrentBlock,
    /// The position of that block.
    BlockPos,
}

/// The storage code of a diagnostic slot.
pub open spec fn debug_key_code(key: DebugKey) -> u64 {
    match key {
        DebugKey::CurrentFPS => 0,
        DebugKey::CameraPosition => 1,
        DebugKey::CurrentBlock => 2,
        DebugKey::BlockPos => 3,
    }
}

/// Marks the entity that fires the periodic debug-overlay refresh.
pub struct FPSUpdateEvent;

/// Marks an entity as the debug overlay surface.
pub struct IsDebugUITag;

/// The store of diagnostic lines: at most one line per slot, later writes
/// overwriting earlier ones.
pub struct DebugInfo {
    map: HashMap<u64, String>,
}

impl DebugInfo {
    /// The stored lines, by slot code.
    pub closed spec fn lines(self) -> Map<u64, String> {
        self.map@
    }

    /// An empty store.
    pub fn new() -> (d: Self)
        ensures
            d.lines() == Map::<u64, String>::empty(),
    {
        DebugInfo { map: HashMap::new() }
    }

    /// Writes the line of a slot, overwriting any earlier one.
    pub fn set(&mut self, key: DebugKey, value: String)
        ensures
            final(self).lines() == old(self).lines().insert(debug_key_code(key), value),
    {
        let code = debug_key_code_exec(key);
        self.map.insert(code, value);
    }

    /// The line of a slot, if one was written.
    pub fn get(&self, key: DebugKey) -> (r: Option<&String>)
        ensures
            match r {
                Some(v) => self.lines().dom().contains(debug_key_code(key)) && *v == self.lines()[
                    debug_key_code(key)],
                None => !self.lines().dom().contains(debug_key_code(key)),
            },
    {
        let code = debug_key_code_exec(key);
        self.map.get(&code)
    }
}

/// Computes the storage code of a diagnostic slot.
fn debug_key_code_exec(key: DebugKey) -> (c: u64)
    ensures
        c == debug_key_code(key),
{
    match key {
        DebugKey::CurrentFPS => 0,
        DebugKey::CameraPosition => 1,
        DebugKey::CurrentBlock => 2,
        DebugKey::BlockPos => 3,
    }
}

/// Distinct diagnostic slots never overwrite one another: the slot code is
/// injective over the closed set of keys.
pub proof fn lemma_debug_key_codes_distinct(a: DebugKey, b: DebugKey)
    ensures
        debug_key_code(a) == debug_key_code(b) ==> a == b,
{
}

} // verus!
