use pathfinder_rasterize::RasterError;
use pathfinder_rasterize::cache::{RendererCache, TargetAction, pad_to_16};
use pathfinder_rasterize::geom::{COORD_ONE, MAX_COORD, ViewBox, ceil_to_pixels};
use pathfinder_rasterize::pixels::{ColorU8, ReadbackData, RgbaImage};
use pathfinder_rasterize::pipeline::{FeatureLevel, GlApi, Rasterizer, gl_api_for_level};

fn units(v: i64) -> i64 {
    v * COORD_ONE
}

fn view_box(origin_x: i64, origin_y: i64, width: i64, height: i64) -> ViewBox {
    ViewBox { origin_x, origin_y, width, height }
}

#[test]
fn test_pad_to_16() {
    assert_eq!(pad_to_16(0), 0);
    assert_eq!(pad_to_16(1), 16);
    assert_eq!(pad_to_16(16), 16);
    assert_eq!(pad_to_16(17), 32);
    assert_eq!(pad_to_16(100), 112);
    assert_eq!(pad_to_16(16384), 16384);
}

#[test]
fn test_ceil_to_pixels() {
    assert_eq!(ceil_to_pixels(0), 0);
    assert_eq!(ceil_to_pixels(1), 1);
    assert_eq!(ceil_to_pixels(COORD_ONE), 1);
    assert_eq!(ceil_to_pixels(COORD_ONE + 1), 2);
    assert_eq!(ceil_to_pixels(units(100) + COORD_ONE / 2), 101);
    assert_eq!(ceil_to_pixels(MAX_COORD), 16384);
}

#[test]
fn test_cache_create_then_reuse() {
    let mut cache = RendererCache::new();
    assert_eq!(cache.cached, None);
    assert_eq!(cache.allocations, 0);

    let first = cache.prepare(100, 100);
    assert_eq!(first, TargetAction::CreateDeviceAndTarget);
    assert_eq!(cache.cached, Some((112, 112)));
    assert_eq!(cache.allocations, 1);

    let second = cache.prepare(100, 100);
    assert_eq!(second, TargetAction::Reuse);
    assert_eq!(cache.cached, Some((112, 112)));
    assert_eq!(cache.allocations, 1);
}

#[test]
fn test_cache_reuse_within_padding() {
    let mut cache = RendererCache::new();
    cache.prepare(100, 100);
    // 97..=112 all pad to 112, so no reallocation happens.
    let action = cache.prepare(112, 97);
    assert_eq!(action, TargetAction::Reuse);
    assert_eq!(cache.allocations, 1);
}

#[test]
fn test_cache_replace_on_resize() {
    let mut cache = RendererCache::new();
    cache.prepare(100, 100);

    let grow = cache.prepare(130, 100);
    assert_eq!(grow, TargetAction::ReplaceTarget);
    assert_eq!(cache.cached, Some((144, 112)));
    assert_eq!(cache.allocations, 2);

    let shrink = cache.prepare(96, 96);
    assert_eq!(shrink, TargetAction::ReplaceTarget);
    assert_eq!(cache.cached, Some((96, 96)));
    assert_eq!(cache.allocations, 3);
}

#[test]
fn test_cache_padded_dominates_request() {
    let sizes: Vec<(u32, u32)> = vec![(1, 1), (15, 16), (17, 31), (16384, 1), (0, 5)];
    let mut cache = RendererCache::new();
    for &(w, h) in sizes.iter() {
        cache.prepare(w, h);
        let (pw, ph) = cache.cached.unwrap();
        assert!(pw >= w && ph >= h);
        assert_eq!(pw % 16, 0);
        assert_eq!(ph % 16, 0);
        assert!(pw < w + 16 && ph < h + 16);
    }
}

#[test]
fn test_new_levels() {
    let r = Rasterizer::new();
    assert_eq!(r.level, FeatureLevel::Basic);
    assert_eq!(r.cache.cached, None);
    assert_eq!(r.cache.allocations, 0);
    assert!(!r.destroyed);

    let advanced = Rasterizer::new_with_level(FeatureLevel::Advanced);
    assert_eq!(advanced.level, FeatureLevel::Advanced);
    assert!(!advanced.destroyed);
}

#[test]
fn test_gl_api_for_level() {
    assert_eq!(gl_api_for_level(FeatureLevel::Basic), GlApi::Gles3);
    assert_eq!(gl_api_for_level(FeatureLevel::Advanced), GlApi::GlCore);
}

#[test]
fn test_plan_geometry() {
    let mut r = Rasterizer::new();
    // Origin (3.5, -2.25), size (100.5, 40) in scene units.
    let origin_x = units(3) + COORD_ONE / 2;
    let origin_y = -(units(2) + COORD_ONE / 4);
    let vb = view_box(origin_x, origin_y, units(100) + COORD_ONE / 2, units(40));
    let background = Some(ColorU8 { r: 255, g: 0, b: 0, a: 255 });

    let plan = r.plan_rasterize(vb, background).unwrap();
    assert_eq!(plan.width, 101);
    assert_eq!(plan.height, 40);
    assert_eq!(plan.padded_width, 112);
    assert_eq!(plan.padded_height, 48);
    assert_eq!(plan.translate_x, -origin_x);
    assert_eq!(plan.translate_y, -origin_y);
    assert_eq!(plan.adjusted, view_box(0, 0, vb.width, vb.height));
    assert_eq!(plan.background, background);
    assert_eq!(plan.action, TargetAction::CreateDeviceAndTarget);
    assert_eq!(r.cache.cached, Some((112, 48)));
    assert_eq!(r.cache.allocations, 1);
}

#[test]
fn test_plan_same_size_twice_reuses() {
    let mut r = Rasterizer::new();
    let vb = view_box(0, 0, units(100), units(100));
    let first = r.plan_rasterize(vb, None).unwrap();
    assert_eq!(first.action, TargetAction::CreateDeviceAndTarget);
    let second = r.plan_rasterize(vb, None).unwrap();
    assert_eq!(second.action, TargetAction::Reuse);
    assert_eq!(r.cache.allocations, 1);
}

#[test]
fn test_plan_invalid_scene() {
    let mut r = Rasterizer::new();
    let vb = view_box(0, 0, -1, units(10));
    let err = r.plan_rasterize(vb, None).unwrap_err();
    assert_eq!(err, RasterError::InvalidScene);
    assert_eq!(r.cache.cached, None);
    assert_eq!(r.cache.allocations, 0);

    let too_wide = view_box(0, 0, MAX_COORD + 1, units(10));
    assert_eq!(r.plan_rasterize(too_wide, None).unwrap_err(), RasterError::InvalidScene);
}

#[test]
fn test_plan_zero_size() {
    let mut r = Rasterizer::new();
    let vb = view_box(units(7), units(-3), 0, 0);
    let plan = r.plan_rasterize(vb, None).unwrap();
    assert_eq!(plan.width, 0);
    assert_eq!(plan.height, 0);

    let img = r.package_readback(&plan, ReadbackData::Rgba8(Vec::new())).unwrap();
    assert_eq!(img.width, 0);
    assert_eq!(img.height, 0);
    assert_eq!(img.data.len(), 0);
}

#[test]
fn test_package_readback_ok() {
    let mut r = Rasterizer::new();
    let vb = view_box(0, 0, units(2), units(2));
    let plan = r.plan_rasterize(vb, None).unwrap();

    let bytes: Vec<u8> = (0..16).collect();
    let img = r.package_readback(&plan, ReadbackData::Rgba8(bytes.clone())).unwrap();
    assert_eq!(img.width, 2);
    assert_eq!(img.height, 2);
    assert_eq!(img.data, bytes);
    assert_eq!(img.data.len(), (img.width * img.height * 4) as usize);
}

#[test]
fn test_package_readback_wrong_length() {
    let mut r = Rasterizer::new();
    let plan = r.plan_rasterize(view_box(0, 0, units(2), units(2)), None).unwrap();
    let err = r.package_readback(&plan, ReadbackData::Rgba8(vec![0u8; 15])).unwrap_err();
    assert_eq!(err, RasterError::UnsupportedPixelFormat);
}

#[test]
fn test_package_readback_other_format() {
    let mut r = Rasterizer::new();
    let plan = r.plan_rasterize(view_box(0, 0, units(1), units(1)), None).unwrap();
    let err = r.package_readback(&plan, ReadbackData::OtherFormat).unwrap_err();
    assert_eq!(err, RasterError::UnsupportedPixelFormat);
}

#[test]
fn test_from_raw() {
    let img = RgbaImage::from_raw(3, 2, vec![7u8; 24]).unwrap();
    assert_eq!(img.width, 3);
    assert_eq!(img.height, 2);
    assert_eq!(img.data, vec![7u8; 24]);

    assert!(RgbaImage::from_raw(3, 2, vec![7u8; 23]).is_none());
    assert!(RgbaImage::from_raw(3, 2, vec![7u8; 25]).is_none());
}

#[test]
fn test_destroy() {
    let mut r = Rasterizer::new();
    r.plan_rasterize(view_box(0, 0, units(5), units(5)), None).unwrap();
    let allocations = r.cache.allocations;
    r.destroy();
    assert!(r.destroyed);
    assert_eq!(r.cache.cached, None);
    assert_eq!(r.cache.allocations, allocations);
}
