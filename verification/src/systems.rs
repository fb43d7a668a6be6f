//! Per-frame systems around the player: world setup, camera follow,
//! rotation feedback, and the sprite animation step.

use vstd::prelude::*;
use crate::chunks::{Chunk, ChunkEntry, ChunkModel, ChunkStore};
use crate::player::{GameWorld, Vec2m};

verus! {

/// Fixed per-frame gravity displacement of the world, in thousandths of a
/// unit.
pub const WORLD_GRAVITY: i64 = -1000;

/// Creates the initial world: one unloaded, layerless chunk entity for each
/// coordinate of the 3x3 neighborhood around the origin, in row order from
/// `(-1, -1)` to `(1, 1)`, and the world entity with its gravity constant.
pub fn setup() -> (r: (ChunkStore, GameWorld))
    ensures
        r.0.model().len() == 9,
        forall|k: int|
            0 <= k < 9 ==> r.0.model()[k] == (ChunkModel {
                x: k / 3 - 1,
                y: k % 3 - 1,
                loaded: false,
                layers: Seq::empty(),
            }),
        r.1.gravity == WORLD_GRAVITY,
{
    let mut entries: Vec<ChunkEntry> = Vec::new();
    let mut k: usize = 0;
    while k < 9
        invariant
            k <= 9,
            entries@.len() == k as int,
            forall|m: int|
                0 <= m < k as int ==> entries@[m].model() == (ChunkModel {
                    x: m / 3 - 1,
                    y: m % 3 - 1,
                    loaded: false,
                    layers: Seq::empty(),
                }),
        decreases 9 - k,
    {
        let cx: i32 = (k / 3) as i32 - 1;
        let cy: i32 = (k % 3) as i32 - 1;
        let entry = ChunkEntry { chunk: Chunk::new(cx, cy), loaded: None, layers: Vec::new() };
        proof {
            assert(entry.model().layers =~= Seq::<Seq<Option<u32>>>::empty());
        }
        entries.push(entry);
        k += 1;
    }
    (ChunkStore { entries }, GameWorld { gravity: WORLD_GRAVITY })
}

/// Copies the follow target's translation onto every camera, ignoring each
/// camera's own prior position: no smoothing, no offset, no dead zone.
pub fn bind_follow_target_camera(follow_target: &Vec2m, cameras: &mut Vec<Vec2m>)
    ensures
        final(cameras)@.len() == old(cameras)@.len(),
        forall|i: int| 0 <= i < final(cameras)@.len() ==> final(cameras)@[i] == *follow_target,
{
    let n = cameras.len();
    let mut i: usize = 0;
    while i < n
        invariant
            n == cameras@.len(),
            i <= n,
            forall|j: int| 0 <= j < i as int ==> cameras@[j] == *follow_target,
        decreases n - i,
    {
        cameras[i] = *follow_target;
        i += 1;
    }
}

/// A request to start one timed rotation animation, replacing any animation
/// already running: interpolate from `start` to `end` over `duration_ms`
/// milliseconds, easing in and out, running once. Angles are in thousandths
/// of a radian.
#[derive(Clone, Copy, PartialEq, Eq, Structural, Debug)]
pub struct RotationTween {
    pub start: i64,
    pub end: i64,
    pub duration_ms: u64,
}

/// How long one rotation feedback animation runs, in milliseconds.
pub const TWEEN_DURATION_MS: u64 = 250;

/// Whether a newly computed target rotation differs from the target stored
/// the frame before. On the very first frame no target is stored yet, and
/// the transition from unset to set counts as a change.
pub open spec fn spec_rotation_changed(prev: Option<i64>, target: i64) -> bool {
    match prev {
        Some(p) => p != target,
        None => true,
    }
}

/// Rotation feedback for one frame: exactly when the computed target
/// rotation differs from the stored previous target - which it does on the
/// very first frame, when none is stored yet - returns the animation to
/// start, from the current rotation to the target over the fixed duration,
/// and in every case stores the new target.
pub fn player_animation_system(
    prev_target: &mut Option<i64>,
    current_rotation: i64,
    target_rotation: i64,
) -> (r: Option<RotationTween>)
    ensures
        *final(prev_target) == Some(target_rotation),
        r is Some <==> spec_rotation_changed(*old(prev_target), target_rotation),
        r matches Some(t) ==> t == (RotationTween {
            start: current_rotation,
            end: target_rotation,
            duration_ms: TWEEN_DURATION_MS,
        }),
{
    let changed = match *prev_target {
        Some(prev) => prev != target_rotation,
        None => true,
    };
    let result: Option<RotationTween> = if changed {
        Some(
            RotationTween {
                start: current_rotation,
                end: target_rotation,
                duration_ms: TWEEN_DURATION_MS,
            },
        )
    } else {
        None
    };
    *prev_target = Some(target_rotation);
    result
}

/// Advances a looping sprite animation by one frame: the index steps forward
/// by one and wraps to zero at the frame count.
pub fn next_sprite_index(index: usize, frame_count: usize) -> (r: usize)
    requires
        0 < frame_count,
        index < frame_count,
    ensures
        r as int == (index as int + 1) % (frame_count as int),
        r < frame_count,
{
    (index + 1) % frame_count
}

} // verus!
