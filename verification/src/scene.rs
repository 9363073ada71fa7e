//! What has to exist before the first frame: the canvas texture, the sprite
//! that shows it, the camera that draws that sprite to the window, and the
//! root under which the level is loaded.

use crate::layout::{CanvasLayout, Extent};
use vstd::prelude::*;

verus! {

/// Render layer of the canvas sprite and of the camera that shows it.
pub const SCREEN_LAYER: u8 = 1;

/// Place of the canvas camera in the order in which cameras draw: ahead of
/// the screen camera, so that each frame shows the level as it is then.
pub const CANVAS_CAMERA_ORDER: isize = -1;

/// Path of the level file, relative to the asset directory.
pub const LEVEL_PATH: &'static str = "tilemap.ldtk";

/// Which level of the file is shown.
pub const LEVEL_INDEX: usize = 0;

/// Value of the grid cells that become tiles.
pub const TILE_CELL: i32 = 1;

/// An entity that the caller is asked to create.
#[derive(Clone, Copy, Debug, PartialEq, Eq, Structural)]
pub enum Spawn {
    /// The sprite that shows the canvas texture, enlarged by `scale`.
    Canvas { scale: u32, layer: u8 },
    /// The camera that draws the entities of `layer` to the window.
    ScreenCamera { layer: u8 },
    /// The root under which the level file is loaded.
    LevelWorld,
    /// A tagged entity that nothing reads.
    Placeholder,
    /// The camera that draws the level into the canvas texture.
    CanvasCamera { order: isize },
}

/// The offscreen texture: its size, and what it may be used for.
#[derive(Clone, Copy, Debug, PartialEq, Eq, Structural)]
pub struct CanvasTexture {
    pub extent: Extent,
    pub mip_levels: u32,
    pub samples: u32,
    /// A sprite may read it.
    pub sampled: bool,
    /// Data may be copied into it.
    pub copy_target: bool,
    /// A camera may draw into it.
    pub render_target: bool,
}

/// What `setup` asks for: one texture, then the entities in the order in
/// which they are to be created.
#[derive(Debug, PartialEq, Eq)]
pub struct StartupPlan {
    pub texture: CanvasTexture,
    pub spawns: Vec<Spawn>,
}

/// The texture of a canvas: as large as the canvas, a single image without
/// smaller copies, one sample per texel, open to all three uses.
pub open spec fn canvas_texture(layout: CanvasLayout) -> CanvasTexture {
    CanvasTexture {
        extent: Extent { width: layout.width(), height: layout.height() },
        mip_levels: 1,
        samples: 1,
        sampled: true,
        copy_target: true,
        render_target: true,
    }
}

/// The entities of the first frame, in order.
pub open spec fn startup_spawns(layout: CanvasLayout) -> Seq<Spawn> {
    seq![
        Spawn::Canvas { scale: layout.scale(), layer: SCREEN_LAYER },
        Spawn::ScreenCamera { layer: SCREEN_LAYER },
        Spawn::LevelWorld,
        Spawn::Placeholder,
    ]
}

/// Plans the scene for a canvas.
pub fn setup(layout: &CanvasLayout) -> (plan: StartupPlan)
    ensures
        plan.texture == canvas_texture(*layout),
        plan.spawns@ == startup_spawns(*layout),
{
    let texture = CanvasTexture {
        extent: layout.texture_extent(),
        mip_levels: 1,
        samples: 1,
        sampled: true,
        copy_target: true,
        render_target: true,
    };
    let mut spawns: Vec<Spawn> = Vec::new();
    spawns.push(Spawn::Canvas { scale: layout.scale(), layer: SCREEN_LAYER });
    spawns.push(Spawn::ScreenCamera { layer: SCREEN_LAYER });
    spawns.push(Spawn::LevelWorld);
    spawns.push(Spawn::Placeholder);
    StartupPlan { texture, spawns }
}

/// The scene starts with one canvas and without a canvas camera: the first
/// frame finds no canvas camera, and a canvas camera that is created later
/// has exactly one texture to draw into.
pub proof fn lemma_startup_census(layout: CanvasLayout, i: int)
    requires
        0 <= i < startup_spawns(layout).len(),
    ensures
        !(startup_spawns(layout)[i] is CanvasCamera),
        startup_spawns(layout)[i] is Canvas <==> i == 0,
{
}

/// The canvas sprite, enlarged, is exactly as large as the window.
pub proof fn lemma_canvas_fills_window(layout: CanvasLayout)
    ensures
        startup_spawns(layout)[0] matches Spawn::Canvas { scale, .. } && {
            &&& canvas_texture(layout).extent.width * scale == layout.window_width()
            &&& canvas_texture(layout).extent.height * scale == layout.window_height()
        },
{
}

} // verus!
