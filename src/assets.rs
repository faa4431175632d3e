use vstd::prelude::*;

verus! {

/// Hands out the ids under which the renderer keeps meshes and materials.
#[derive(Clone, Copy, Debug, PartialEq, Eq, Structural)]
pub struct AssetIds {
    pub next: u64,
}

impl AssetIds {
    pub fn new() -> (r: Self)
        ensures
            r.next == 0,
    {
        AssetIds { next: 0 }
    }

    /// A new id: the ids are handed out in order.
    pub fn allocate(&mut self) -> (r: u64)
        ensures
            r == old(self).next,
            final(self).next == old(self).next.wrapping_add(1),
    {
        let id = self.next;
        self.next = self.next.wrapping_add(1);
        id
    }
}

/// The shared mesh and material of every spike, created on first use.
#[derive(Clone, Copy, Debug, PartialEq, Eq, Structural)]
pub struct SpikeData {
    pub mesh: Option<u64>,
    pub material: Option<u64>,
}

/// The shared mesh and materials of every checkpoint, created on first use.
#[derive(Clone, Copy, Debug, PartialEq, Eq, Structural)]
pub struct CheckpointData {
    pub mesh: Option<u64>,
    pub material: Option<u64>,
    pub active_material: Option<u64>,
}

/// A slot after lazy creation: kept if set, else the next id.
pub open spec fn filled(slot: Option<u64>, next: u64) -> Option<u64> {
    if slot is Some { slot } else { Some(next) }
}

/// The next id after lazy creation of a slot.
pub open spec fn bumped(slot: Option<u64>, next: u64) -> u64 {
    if slot is Some { next } else { next.wrapping_add(1) }
}

fn ensure_slot(slot: &mut Option<u64>, assets: &mut AssetIds)
    ensures
        *final(slot) == filled(*old(slot), old(assets).next),
        final(assets).next == bumped(*old(slot), old(assets).next),
{
    if slot.is_none() {
        *slot = Some(assets.allocate());
    }
}

impl SpikeData {
    pub fn new() -> (r: Self)
        ensures
            r.mesh is None,
            r.material is None,
    {
        SpikeData { mesh: None, material: None }
    }

    /// Creates what is missing; what exists is kept.
    pub fn ensure_initialized(&mut self, assets: &mut AssetIds)
        ensures
            final(self).initialized(),
            final(self).mesh == filled(old(self).mesh, old(assets).next),
            final(self).material == filled(old(self).material, bumped(old(self).mesh, old(assets).next)),
            final(assets).next == bumped(old(self).material, bumped(old(self).mesh, old(assets).next)),
    {
        ensure_slot(&mut self.mesh, assets);
        ensure_slot(&mut self.material, assets);
    }

    pub open spec fn initialized(self) -> bool {
        self.mesh is Some && self.material is Some
    }

    pub fn mesh(&self) -> (r: Option<u64>)
        ensures
            r == self.mesh,
    {
        self.mesh
    }

    pub fn material(&self) -> (r: Option<u64>)
        ensures
            r == self.material,
    {
        self.material
    }
}

impl CheckpointData {
    pub fn new() -> (r: Self)
        ensures
            r.mesh is None,
            r.material is None,
            r.active_material is None,
    {
        CheckpointData { mesh: None, material: None, active_material: None }
    }

    /// Creates what is missing; what exists is kept.
    pub fn ensure_initialized(&mut self, assets: &mut AssetIds)
        ensures
            final(self).initialized(),
            final(self).mesh == filled(old(self).mesh, old(assets).next),
            final(self).material == filled(old(self).material, bumped(old(self).mesh, old(assets).next)),
            final(self).active_material == filled(
                old(self).active_material,
                bumped(old(self).material, bumped(old(self).mesh, old(assets).next)),
            ),
            final(assets).next == bumped(
                old(self).active_material,
                bumped(old(self).material, bumped(old(self).mesh, old(assets).next)),
            ),
    {
        ensure_slot(&mut self.mesh, assets);
        ensure_slot(&mut self.material, assets);
        ensure_slot(&mut self.active_material, assets);
    }

    pub open spec fn initialized(self) -> bool {
        self.mesh is Some && self.material is Some && self.active_material is Some
    }

    pub fn mesh(&self) -> (r: Option<u64>)
        ensures
            r == self.mesh,
    {
        self.mesh
    }

    pub fn default_material(&self) -> (r: Option<u64>)
        ensures
            r == self.material,
    {
        self.material
    }

    pub fn active_material(&self) -> (r: Option<u64>)
        ensures
            r == self.active_material,
    {
        self.active_material
    }
}

} // verus!
