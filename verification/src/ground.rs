//! Ground-geometry synchronization.
//!
//! The scene owns exactly one ground slab. Each frame the synchronizer
//! compares the settings' current dimensions with the last dimensions it
//! applied (a level-triggered diff, safe to run every frame); on any
//! difference it atomically replaces the slab — modelled here as rewriting
//! the one `GroundEntity` and bumping its revision — and records the new
//! dimensions as applied.

use vstd::prelude::*;
use crate::math::Vec3;
use crate::math::div_towards_zero;
use crate::math::div_trunc;

verus! {

/// Vertical offset of the slab's center below the origin, hundredths.
pub const GROUND_CENTER_Y: i64 = -200;

/// The one ground slab: a box mesh and a matching box collision shape.
#[derive(Clone, Copy, PartialEq, Eq, Structural, Debug)]
pub struct GroundEntity {
    /// Full extents of the box, hundredths of a unit per axis.
    pub size: Vec3,
    /// How many times the slab has been destroyed and recreated. The
    /// embedding despawns the old visual/collision pair and spawns a new
    /// one exactly when this advances.
    pub revision: u64,
}

/// Change detector state: the dimensions last applied to the slab.
#[derive(Clone, Copy, PartialEq, Eq, Structural, Debug)]
pub struct GroundSynchronizer {
    pub previous: Vec3,
}

/// One synchronizer step: `(synchronizer, ground, rebuilt)` after comparing
/// `current` against the last-applied dimensions.
pub open spec fn synced(s: GroundSynchronizer, g: GroundEntity, current: Vec3) -> (
    GroundSynchronizer,
    GroundEntity,
    bool,
) {
    if current == s.previous {
        (s, g, false)
    } else {
        (
            GroundSynchronizer { previous: current },
            GroundEntity { size: current, revision: (g.revision + 1) as u64 },
            true,
        )
    }
}

impl GroundEntity {
    /// A slab of the given dimensions, at revision zero.
    pub fn spawned(size: Vec3) -> (g: GroundEntity)
        ensures
            g == (GroundEntity { size, revision: 0u64 }),
    {
        GroundEntity { size, revision: 0 }
    }

    /// Half extents of the collision box, each axis half the mesh size
    /// (rounded toward zero at odd hundredths).
    pub fn half_extents(&self) -> (r: Vec3)
        requires
            self.size.x != i64::MIN,
            self.size.y != i64::MIN,
            self.size.z != i64::MIN,
        ensures
            r@ == (
                div_towards_zero(self.size.x as int, 2),
                div_towards_zero(self.size.y as int, 2),
                div_towards_zero(self.size.z as int, 2),
            ),
    {
        Vec3 {
            x: div_trunc(self.size.x, 2),
            y: div_trunc(self.size.y, 2),
            z: div_trunc(self.size.z, 2),
        }
    }
}

impl GroundSynchronizer {
    /// A fresh detector that has applied nothing yet; with it, the first
    /// comparison against any real dimensions rebuilds the slab.
    pub fn new() -> (s: GroundSynchronizer)
        ensures
            s.previous == (Vec3 { x: 0, y: 0, z: 0 }),
    {
        GroundSynchronizer { previous: Vec3 { x: 0, y: 0, z: 0 } }
    }

    /// Compares `current` with the last-applied dimensions; on inequality
    /// replaces the slab and records `current`, on equality does nothing.
    pub fn sync(&mut self, current: Vec3, ground: &mut GroundEntity) -> (rebuilt: bool)
        requires
            old(ground).revision < u64::MAX,
        ensures
            (*final(self), *final(ground), rebuilt) == synced(*old(self), *old(ground), current),
            rebuilt <==> current != old(self).previous,
            final(self).previous == current,
            rebuilt ==> final(ground).size == current && final(ground).revision == old(
                ground,
            ).revision + 1,
            !rebuilt ==> *final(ground) == *old(ground) && *final(self) == *old(self),
    {
        if current == self.previous {
            false
        } else {
            ground.size = current;
            ground.revision = ground.revision + 1;
            self.previous = current;
            true
        }
    }
}

/// The synchronizer is idempotent: with unchanged settings, a second run
/// right after any first one rebuilds nothing and moves nothing — the one
/// slab stays exactly as the first run left it.
pub proof fn lemma_sync_idempotent(s: GroundSynchronizer, g: GroundEntity, current: Vec3)
    ensures
        ({
            let (s1, g1, r1) = synced(s, g, current);
            let (s2, g2, r2) = synced(s1, g1, current);
            !r2 && s2 == s1 && g2 == g1
        }),
{
}

} // verus!
