use level_canvas::layout::{CanvasLayout, Extent, CANVAS_HEIGHT, CANVAS_SCALE, CANVAS_WIDTH};

#[test]
fn standard_canvas_measures() {
    let layout = CanvasLayout::standard();
    assert_eq!(layout.width(), 256);
    assert_eq!(layout.height(), 256);
    assert_eq!(layout.scale(), 2);
    assert_eq!((CANVAS_WIDTH, CANVAS_HEIGHT, CANVAS_SCALE), (256, 256, 2));
}

#[test]
fn standard_texture_is_the_canvas() {
    let layout = CanvasLayout::standard();
    assert_eq!(layout.texture_extent(), Extent { width: 256, height: 256 });
}

#[test]
fn standard_window_is_twice_the_canvas() {
    let layout = CanvasLayout::standard();
    assert_eq!(layout.window_extent(), Extent { width: 512, height: 512 });
}

#[test]
fn standard_is_what_new_lays_out() {
    assert_eq!(CanvasLayout::new(256, 256, 2), Some(CanvasLayout::standard()));
}

#[test]
fn window_is_canvas_times_scale() {
    let layout = CanvasLayout::new(100, 50, 3).unwrap();
    assert_eq!(layout.texture_extent(), Extent { width: 100, height: 50 });
    assert_eq!(layout.window_extent(), Extent { width: 300, height: 150 });
}

#[test]
fn new_keeps_its_arguments() {
    let layout = CanvasLayout::new(320, 180, 4).unwrap();
    assert_eq!((layout.width(), layout.height(), layout.scale()), (320, 180, 4));
}

#[test]
fn scale_one_leaves_the_size() {
    let layout = CanvasLayout::new(640, 480, 1).unwrap();
    assert_eq!(layout.window_extent(), layout.texture_extent());
}

#[test]
fn zero_width_does_not_fit() {
    assert_eq!(CanvasLayout::new(0, 256, 2), None);
}

#[test]
fn zero_height_does_not_fit() {
    assert_eq!(CanvasLayout::new(256, 0, 2), None);
}

#[test]
fn zero_scale_does_not_fit() {
    assert_eq!(CanvasLayout::new(256, 256, 0), None);
}

#[test]
fn window_width_past_the_range_does_not_fit() {
    assert_eq!(CanvasLayout::new(65536, 1, 65536), None);
    assert_eq!(CanvasLayout::new(u32::MAX, 1, 2), None);
}

#[test]
fn window_height_past_the_range_does_not_fit() {
    assert_eq!(CanvasLayout::new(1, 65536, 65536), None);
    assert_eq!(CanvasLayout::new(1, u32::MAX, 2), None);
}

#[test]
fn largest_window_fits() {
    let layout = CanvasLayout::new(u32::MAX, 65537, 1).unwrap();
    assert_eq!(layout.window_extent(), Extent { width: u32::MAX, height: 65537 });
    let layout = CanvasLayout::new(65535, 65537, 65535).unwrap();
    assert_eq!(layout.window_extent(), Extent { width: 4294836225, height: 4294967295 });
}
