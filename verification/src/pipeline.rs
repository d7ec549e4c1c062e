//! The rasterization pipeline: the engine's decision state and the planning
//! of one rasterization call.
//!
//! A call is split in two around the GPU work.  `plan_rasterize` turns the
//! scene's view box into a [`RasterPlan`]: the exact output size, the
//! translation that cancels the view-box origin, the adjusted view box the
//! scene must be given, and the action the renderer cache decided on.  The
//! unverified shell executes the plan (makes the context current, allocates
//! or reuses the GPU target, runs the external build-and-render, reads the
//! pixels back) and hands the raw bytes to `package_readback`, which checks
//! them and builds the exact-size image.

use vstd::prelude::*;
use crate::RasterError;
use crate::cache::{RendererCache, TargetAction, action_of, cache_after, pad16, pad_to_16};
use crate::geom::{MAX_PIXEL_DIM, ViewBox, ceil_px, ceil_to_pixels, lemma_ceil_px};
use crate::pixels::{ColorU8, ReadbackData, RgbaImage};

verus! {

/// The GPU API feature level the engine was built for, chosen once at
/// construction.
#[derive(Clone, Copy, Debug, PartialEq, Eq, Structural)]
pub enum FeatureLevel {
    /// The lower of the two supported levels; the default.
    Basic,
    /// The higher level, for devices that offer the full desktop API.
    Advanced,
}

/// The GL dialect the GPU device must be created with.
#[derive(Clone, Copy, Debug, PartialEq, Eq, Structural)]
pub enum GlApi {
    /// OpenGL ES 3, for the basic level.
    Gles3,
    /// The desktop OpenGL core profile, for the advanced level.
    GlCore,
}

/// The GL dialect that serves a feature level.
pub open spec fn gl_api_of(level: FeatureLevel) -> GlApi {
    match level {
        FeatureLevel::Basic => GlApi::Gles3,
        FeatureLevel::Advanced => GlApi::GlCore,
    }
}

/// Picks the GL API version the device must be created with for `level`.
pub fn gl_api_for_level(level: FeatureLevel) -> (r: GlApi)
    ensures
        r == gl_api_of(level),
{
    match level {
        FeatureLevel::Basic => GlApi::Gles3,
        FeatureLevel::Advanced => GlApi::GlCore,
    }
}

/// Everything one rasterization call needs from the decision core.
#[derive(Clone, Copy, Debug)]
pub struct RasterPlan {
    /// Exact output width in pixels: the ceiling of the view-box width.
    /// Never padded.
    pub width: u32,
    /// Exact output height in pixels: the ceiling of the view-box height.
    pub height: u32,
    /// Width the GPU target is allocated at: `width` padded to 16.
    pub padded_width: u32,
    /// Height the GPU target is allocated at: `height` padded to 16.
    pub padded_height: u32,
    /// X translation, in coordinate units, that the render transform must
    /// apply: minus the view-box origin.
    pub translate_x: i64,
    /// Y translation, in coordinate units: minus the view-box origin.
    pub translate_y: i64,
    /// The view box the scene must be rewritten to before the external
    /// build step: origin zero, size kept.
    pub adjusted: ViewBox,
    /// The clear color for the target, if the caller supplied one; `None`
    /// leaves whatever a prior draw left in the texture.
    pub background: Option<ColorU8>,
    /// What the shell must do to the GPU target before rendering.
    pub action: TargetAction,
}

impl RasterPlan {
    /// Output dimensions small enough that every byte count fits.
    pub open spec fn wf(self) -> bool {
        self.width <= MAX_PIXEL_DIM && self.height <= MAX_PIXEL_DIM
    }
}

/// Decision state of the engine: the renderer cache, the feature level the
/// context was created for, and whether the context was torn down.
#[derive(Clone, Copy, Debug)]
pub struct Rasterizer {
    pub cache: RendererCache,
    pub level: FeatureLevel,
    pub destroyed: bool,
}

/// The plan a rasterization of view box `vb` produces on engine state
/// `pre`, for a valid `vb`.
pub open spec fn plan_of(pre: Rasterizer, vb: ViewBox, background: Option<ColorU8>) -> RasterPlan {
    RasterPlan {
        width: ceil_px(vb.width as int) as u32,
        height: ceil_px(vb.height as int) as u32,
        padded_width: pad16(ceil_px(vb.width as int)) as u32,
        padded_height: pad16(ceil_px(vb.height as int)) as u32,
        translate_x: (-(vb.origin_x as int)) as i64,
        translate_y: (-(vb.origin_y as int)) as i64,
        adjusted: ViewBox { origin_x: 0, origin_y: 0, width: vb.width, height: vb.height },
        background,
        action: action_of(pre.cache, ceil_px(vb.width as int), ceil_px(vb.height as int)),
    }
}

impl Rasterizer {
    /// A fresh engine at the default (basic) feature level: nothing cached,
    /// nothing allocated, not destroyed.
    pub fn new() -> (r: Self)
        ensures
            r.level == FeatureLevel::Basic,
            r.cache.cached is None,
            r.cache.allocations == 0,
            !r.destroyed,
    {
        Self::new_with_level(FeatureLevel::Basic)
    }

    /// A fresh engine at the given feature level.
    pub fn new_with_level(level: FeatureLevel) -> (r: Self)
        ensures
            r.level == level,
            r.cache.cached is None,
            r.cache.allocations == 0,
            !r.destroyed,
    {
        Rasterizer { cache: RendererCache::new(), level, destroyed: false }
    }

    /// Plans one rasterization call.
    ///
    /// A valid view box yields exactly the plan `plan_of` describes and
    /// advances the cache by one request of the plan's pixel size; an
    /// invalid one (negative or out-of-range, the fixed-point image of a
    /// degenerate box) is rejected with `InvalidScene` and changes nothing.
    pub fn plan_rasterize(
        &mut self,
        view_box: ViewBox,
        background: Option<ColorU8>,
    ) -> (r: Result<RasterPlan, RasterError>)
        requires
            !old(self).destroyed,
            old(self).cache.allocations < u64::MAX,
        ensures
            final(self).level == old(self).level,
            final(self).destroyed == old(self).destroyed,
            view_box.is_valid() ==> (r matches Ok(plan)
                && plan == plan_of(*old(self), view_box, background)
                && plan.wf()),
            view_box.is_valid() ==> final(self).cache == cache_after(
                old(self).cache,
                ceil_px(view_box.width as int),
                ceil_px(view_box.height as int),
            ),
            !view_box.is_valid() ==> {
                &&& r matches Err(e) && e == RasterError::InvalidScene
                &&& final(self).cache == old(self).cache
            },
    {
        if !view_box.check_valid() {
            return Err(RasterError::InvalidScene);
        }
        let width = ceil_to_pixels(view_box.width);
        let height = ceil_to_pixels(view_box.height);
        let action = self.cache.prepare(width, height);
        let plan = RasterPlan {
            width,
            height,
            padded_width: pad_to_16(width),
            padded_height: pad_to_16(height),
            translate_x: -view_box.origin_x,
            translate_y: -view_box.origin_y,
            adjusted: ViewBox {
                origin_x: 0,
                origin_y: 0,
                width: view_box.width,
                height: view_box.height,
            },
            background,
            action,
        };
        Ok(plan)
    }

    /// Checks the raw readback of a planned rasterization and packages it
    /// into the exact-size image.
    ///
    /// Succeeds exactly when the readback is an 8-bit RGBA buffer of the
    /// plan's exact (unpadded) size; anything else is the unsupported-format
    /// failure.
    pub fn package_readback(
        &self,
        plan: &RasterPlan,
        data: ReadbackData,
    ) -> (r: Result<RgbaImage, RasterError>)
        requires
            !self.destroyed,
            plan.wf(),
        ensures
            r is Ok <==> (data matches ReadbackData::Rgba8(bytes)
                && bytes@.len() == plan.width * plan.height * 4),
            r matches Ok(img) ==> {
                &&& img.width == plan.width
                &&& img.height == plan.height
                &&& (data matches ReadbackData::Rgba8(bytes) && img.data == bytes)
                &&& img.wf()
            },
            r matches Err(e) ==> e == RasterError::UnsupportedPixelFormat,
    {
        match data {
            ReadbackData::Rgba8(bytes) => match RgbaImage::from_raw(plan.width, plan.height, bytes) {
                Some(img) => Ok(img),
                None => Err(RasterError::UnsupportedPixelFormat),
            },
            ReadbackData::OtherFormat => Err(RasterError::UnsupportedPixelFormat),
        }
    }

    /// Tears the engine down.  The display connection is released by the
    /// shell; here every cached GPU object becomes invalid, and no further
    /// operation may be planned on this engine.
    pub fn destroy(&mut self)
        requires
            !old(self).destroyed,
        ensures
            final(self).destroyed,
            final(self).cache.cached is None,
            final(self).cache.allocations == old(self).cache.allocations,
            final(self).level == old(self).level,
    {
        self.cache.cached = None;
        self.destroyed = true;
    }
}

/// Law: the geometry of a planned rasterization.  The output size is the
/// componentwise ceiling of the view-box size, never padded; the transform
/// translates the view-box origin onto pixel `(0,0)`; the adjusted view box
/// keeps the size under a zero origin; the background passes through; and a
/// zero-size view box plans a zero-size image.
pub proof fn lemma_plan_geometry(pre: Rasterizer, vb: ViewBox, background: Option<ColorU8>)
    requires
        vb.is_valid(),
    ensures
        ({
            let plan = plan_of(pre, vb, background);
            &&& plan.width as int == ceil_px(vb.width as int)
            &&& plan.height as int == ceil_px(vb.height as int)
            &&& plan.translate_x + vb.origin_x == 0
            &&& plan.translate_y + vb.origin_y == 0
            &&& plan.adjusted == (ViewBox {
                origin_x: 0,
                origin_y: 0,
                width: vb.width,
                height: vb.height,
            })
            &&& plan.background == background
            &&& vb.width == 0 ==> plan.width == 0
            &&& vb.height == 0 ==> plan.height == 0
            &&& plan.wf()
        }),
{
    lemma_ceil_px(vb.width as int);
    lemma_ceil_px(vb.height as int);
}

} // verus!
