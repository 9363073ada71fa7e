//! Sizes of the canvas texture and of the window that shows it.

use vstd::prelude::*;

verus! {

/// Width of the standard canvas, in texels.
pub const CANVAS_WIDTH: u32 = 256;

/// Height of the standard canvas, in texels.
pub const CANVAS_HEIGHT: u32 = 256;

/// Factor by which the standard canvas is enlarged on screen.
pub const CANVAS_SCALE: u32 = 2;

/// A width and a height, in whole units.
#[derive(Clone, Copy, Debug, PartialEq, Eq, Structural)]
pub struct Extent {
    pub width: u32,
    pub height: u32,
}

/// Whether a canvas of these measures can be laid out: no measure is zero,
/// and the enlarged canvas still has a width and a height that a window can
/// be given.
pub open spec fn fits(width: int, height: int, scale: int) -> bool {
    &&& 0 < width
    &&& 0 < height
    &&& 0 < scale
    &&& width * scale <= u32::MAX
    &&& height * scale <= u32::MAX
}

/// A canvas of `width` by `height` texels, each shown as a square of
/// `scale` by `scale` window units.
///
/// Every value of this type fits: see [`fits`].
#[derive(Clone, Copy, Debug, PartialEq, Eq, Structural)]
pub struct CanvasLayout {
    width: u32,
    height: u32,
    scale: u32,
}

impl CanvasLayout {
    #[verifier::type_invariant]
    spec fn inv(self) -> bool {
        fits(self.width as int, self.height as int, self.scale as int)
    }

    /// Width of the canvas, in texels.
    pub closed spec fn spec_width(&self) -> u32 {
        self.width
    }

    /// Height of the canvas, in texels.
    pub closed spec fn spec_height(&self) -> u32 {
        self.height
    }

    /// Factor by which the canvas is enlarged on screen.
    pub closed spec fn spec_scale(&self) -> u32 {
        self.scale
    }

    /// What the type promises of each of its values.
    pub open spec fn wf(&self) -> bool {
        fits(self.width() as int, self.height() as int, self.scale() as int)
    }

    /// Width of the window: the canvas's width, enlarged.
    pub open spec fn window_width(&self) -> int {
        self.width() * self.scale()
    }

    /// Height of the window: the canvas's height, enlarged.
    pub open spec fn window_height(&self) -> int {
        self.height() * self.scale()
    }

    /// Lays out a canvas, or returns `None` when the measures do not fit.
    pub fn new(width: u32, height: u32, scale: u32) -> (layout: Option<CanvasLayout>)
        ensures
            layout.is_some() <==> fits(width as int, height as int, scale as int),
            layout matches Some(l) ==> l.wf() && l.width() == width && l.height() == height
                && l.scale() == scale,
    {
        if width == 0 || height == 0 || scale == 0 {
            return None;
        }
        match (width.checked_mul(scale), height.checked_mul(scale)) {
            (Some(_), Some(_)) => Some(CanvasLayout { width, height, scale }),
            _ => None,
        }
    }

    /// The standard canvas: 256 by 256 texels, enlarged twice.
    pub fn standard() -> (layout: CanvasLayout)
        ensures
            layout.wf(),
            layout.width() == CANVAS_WIDTH,
            layout.height() == CANVAS_HEIGHT,
            layout.scale() == CANVAS_SCALE,
    {
        CanvasLayout { width: CANVAS_WIDTH, height: CANVAS_HEIGHT, scale: CANVAS_SCALE }
    }

    /// Width of the canvas, in texels.
    #[verifier::when_used_as_spec(spec_width)]
    pub fn width(&self) -> (width: u32)
        ensures
            width == self.width(),
    {
        self.width
    }

    /// Height of the canvas, in texels.
    #[verifier::when_used_as_spec(spec_height)]
    pub fn height(&self) -> (height: u32)
        ensures
            height == self.height(),
    {
        self.height
    }

    /// Factor by which the canvas is enlarged on screen.
    #[verifier::when_used_as_spec(spec_scale)]
    pub fn scale(&self) -> (scale: u32)
        ensures
            scale == self.scale(),
    {
        self.scale
    }

    /// Size of the offscreen texture that the level is drawn into.
    pub fn texture_extent(&self) -> (extent: Extent)
        ensures
            extent.width == self.width(),
            extent.height == self.height(),
    {
        Extent { width: self.width, height: self.height }
    }

    /// Size of the window that the enlarged canvas fills exactly.
    pub fn window_extent(&self) -> (extent: Extent)
        ensures
            self.wf(),
            extent.width == self.window_width(),
            extent.height == self.window_height(),
    {
        proof {
            use_type_invariant(self);
        }
        Extent { width: self.width * self.scale, height: self.height * self.scale }
    }
}

} // verus!
