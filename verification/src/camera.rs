//! The guard that runs once per frame and asks for the canvas camera when
//! its time has come.
//!
//! The level is loaded in the background, so nothing tells the guard in
//! which frame it arrives. Each frame the caller looks for the level and for
//! the canvas camera and hands over what it found; the guard asks for the
//! camera in the first frame that has the level and no camera.

use crate::scene::{Spawn, CANVAS_CAMERA_ORDER};
use vstd::prelude::*;

verus! {

/// What the guard asks for in a frame: the canvas camera, if the level was
/// found and the camera was not.
pub open spec fn camera_request(level_found: bool, camera_found: bool) -> Option<Spawn> {
    if level_found && !camera_found {
        Some(Spawn::CanvasCamera { order: CANVAS_CAMERA_ORDER })
    } else {
        None
    }
}

/// Number of canvas cameras after the guard has run once in each frame,
/// starting with `start` of them.
///
/// `frames[i]` says whether the level is found in frame `i`. A camera that
/// the guard asks for exists from the next frame on.
pub open spec fn cameras_after(start: nat, frames: Seq<bool>) -> nat
    decreases frames.len(),
{
    if frames.len() == 0 {
        start
    } else {
        let before = cameras_after(start, frames.drop_last());
        if camera_request(frames.last(), before > 0) is Some {
            before + 1
        } else {
            before
        }
    }
}

/// Whether the guard asks for the camera in frame `i`.
pub open spec fn spawned_in(start: nat, frames: Seq<bool>, i: int) -> bool {
    camera_request(frames[i], cameras_after(start, frames.take(i)) > 0) is Some
}

/// Decides whether the canvas camera is to be created in this frame.
pub fn add_camera(level_found: bool, camera_found: bool) -> (spawn: Option<Spawn>)
    ensures
        spawn == camera_request(level_found, camera_found),
{
    if level_found && !camera_found {
        Some(Spawn::CanvasCamera { order: CANVAS_CAMERA_ORDER })
    } else {
        None
    }
}

/// The guard never asks for the camera in a frame that lacks the level.
pub proof fn lemma_waits_for_level(start: nat, frames: Seq<bool>, i: int)
    requires
        0 <= i < frames.len(),
        spawned_in(start, frames, i),
    ensures
        frames[i],
{
}

/// Canvas cameras that exist at the start stay as many as they are,
/// whatever the frames hold.
pub proof fn lemma_camera_kept(start: nat, frames: Seq<bool>)
    requires
        start >= 1,
    ensures
        cameras_after(start, frames) == start,
    decreases frames.len(),
{
    if frames.len() > 0 {
        lemma_camera_kept(start, frames.drop_last());
    }
}

/// Starting without a canvas camera, there is exactly one once a frame has
/// had the level, and none before.
pub proof fn lemma_spawned_once(frames: Seq<bool>)
    ensures
        cameras_after(0, frames) == if frames.contains(true) { 1nat } else { 0nat },
    decreases frames.len(),
{
    if frames.len() > 0 {
        let init = frames.drop_last();
        lemma_spawned_once(init);
        if init.contains(true) {
            assert(frames[init.index_of(true)]);
        } else if !frames.last() {
            assert forall|j: int| 0 <= j < frames.len() implies !frames[j] by {
                if j < init.len() {
                    assert(init[j] == frames[j]);
                }
            }
        }
    }
}

/// Starting without a canvas camera, the guard asks for it in the first
/// frame that has the level, and in no other.
pub proof fn lemma_spawned_in_first_level_frame(frames: Seq<bool>, i: int)
    requires
        0 <= i < frames.len(),
    ensures
        spawned_in(0, frames, i) <==> frames[i] && !frames.take(i).contains(true),
{
    lemma_spawned_once(frames.take(i));
}

/// Starting without a canvas camera, the guard asks for it in at most one
/// frame.
pub proof fn lemma_spawn_frame_unique(frames: Seq<bool>, i: int, j: int)
    requires
        0 <= i < frames.len(),
        0 <= j < frames.len(),
        spawned_in(0, frames, i),
        spawned_in(0, frames, j),
    ensures
        i == j,
{
    lemma_spawned_in_first_level_frame(frames, i);
    lemma_spawned_in_first_level_frame(frames, j);
    if i < j {
        assert(frames.take(j)[i]);
    } else if j < i {
        assert(frames.take(i)[j]);
    }
}

} // verus!
