use terrain_editor::clipmap::{build_rectangles, Clipmap, LayerData, Rectangle, UVec2};

fn rect(x: u32, y: u32, w: u32, h: u32) -> Rectangle {
    Rectangle { pos: UVec2 { x, y }, size: UVec2 { x: w, y: h } }
}

fn clipmap() -> Clipmap<u8> {
    Clipmap::new("test", vec![0u8; 1024 * 1024], 1, 1024, vec![1024, 512])
}

#[test]
fn new_clipmap() {
    let c = clipmap();
    assert_eq!(c.label(), "test");
    assert_eq!(c.data_size(), 1024);
    assert_eq!(c.layer_sizes(), &vec![1024, 512]);
    assert_eq!(c.fullres_data_slice().len(), 1024 * 1024);
    assert!(c.needs_cache());
    let e: Clipmap<u16> = Clipmap::empty(1);
    assert_eq!(e.label(), "uninitialized");
    assert_eq!(e.data_size(), 0);
    assert!(!e.needs_cache());
}

#[test]
fn extract_returns_what_was_written() {
    let mut c = clipmap();
    c.update_fullres(&rect(2, 3, 2, 2), &[1, 2, 3, 4]);
    assert_eq!(c.extract_fullres(&rect(2, 3, 2, 2)), vec![1, 2, 3, 4]);
    assert_eq!(c.extract_fullres(&rect(1, 3, 4, 1)), vec![0, 1, 2, 0]);
    assert_eq!(c.extract_fullres(&rect(3, 2, 1, 3)), vec![0, 2, 4]);
    assert_eq!(c.fullres_data_slice()[3 * 1024 + 2], 1);
    assert_eq!(c.fullres_data_slice()[4 * 1024 + 3], 4);
}

#[test]
fn update_at_the_far_corner() {
    let mut c = clipmap();
    c.update_fullres(&rect(1023, 1023, 1, 1), &[9]);
    assert_eq!(c.extract_fullres(&rect(1022, 1022, 2, 2)), vec![0, 0, 0, 9]);
}

#[test]
fn layers_from_data_cache_or_downscaling() {
    let mut c = clipmap();
    c.update_fullres(&rect(0, 0, 2, 1), &[5, 6]);
    match c.generate_layer(0, &rect(0, 0, 3, 1)) {
        LayerData::Extracted(v) => assert_eq!(v, vec![5, 6, 0]),
        _ => panic!("full resolution level is extracted"),
    }
    match c.generate_layer(1, &rect(4, 8, 16, 16)) {
        LayerData::Downscale { x, y, size } => assert_eq!((x, y, size), (4, 8, 16)),
        _ => panic!("uncached level is downscaled"),
    }
    let mut level: Vec<u8> = vec![0; 512 * 512];
    level[512 * 4 + 2] = 7;
    c.set_cache(vec![level]);
    assert!(!c.needs_cache());
    match c.generate_layer(1, &rect(4, 8, 4, 2)) {
        LayerData::Extracted(v) => assert_eq!(v, vec![7, 0]),
        _ => panic!("cached level is extracted"),
    }
    c.disable_cache();
    assert!(c.needs_cache());
}

#[test]
fn single_rectangle_is_repeated() {
    let r = rect(0, 0, 1024, 1024);
    assert_eq!(build_rectangles(vec![r]), vec![r, r]);
    let r2 = rect(256, 0, 2048, 2048);
    assert_eq!(build_rectangles(vec![r, r2]), vec![r, r2]);
    assert_eq!(build_rectangles(vec![]), vec![]);
}

fn rgba_clipmap() -> Clipmap<u8> {
    Clipmap::new("rgba", vec![0u8; 4 * 1024 * 1024], 4, 1024, vec![1024, 512])
}

#[test]
fn rgba_update_writes_every_value_of_a_point() {
    let mut c = rgba_clipmap();
    let data: Vec<u8> = (1..=16).collect();
    c.update_fullres(&rect(10, 20, 2, 2), &data);
    assert_eq!(c.extract_fullres(&rect(10, 20, 2, 2)), data);
    assert_eq!(c.extract_fullres(&rect(9, 20, 1, 1)), vec![0, 0, 0, 0]);
    assert_eq!(&c.fullres_data_slice()[4 * (21 * 1024 + 11)..4 * (21 * 1024 + 12)], &[13, 14, 15, 16]);
}

#[test]
fn rgba_cache_holds_resized_levels() {
    let mut c = rgba_clipmap();
    // a uniform map resizes to the same uniform values
    let white = vec![255u8; 4 * 1024 * 1024];
    c.update_fullres(&rect(0, 0, 1024, 1024), &white);
    assert!(c.needs_cache());
    c.fill_cache_rgba(false);
    assert!(!c.needs_cache());
    match c.generate_layer(1, &rect(0, 0, 4, 4)) {
        LayerData::Extracted(v) => assert_eq!(v, vec![255u8; 4 * 2 * 2]),
        _ => panic!("cached level is extracted"),
    }
    // a filled cache is kept
    c.fill_cache_rgba(true);
    assert!(!c.needs_cache());
}

#[test]
fn rgba_layers_without_cache_are_resized() {
    let mut c = rgba_clipmap();
    c.update_fullres(&rect(0, 0, 2, 1), &[1, 2, 3, 4, 5, 6, 7, 8]);
    assert_eq!(c.layer_rgba(0, &rect(0, 0, 2, 2), false), vec![1, 2, 3, 4, 5, 6, 7, 8, 0, 0, 0, 0, 0, 0, 0, 0]);
    // the whole map resized to the clipmap size keeps its size
    let level = c.layer_rgba(1, &rect(0, 0, 1024, 1024), false);
    assert_eq!(level.len(), 4 * 1024 * 1024);
    assert_eq!(&level[0..8], &[1, 2, 3, 4, 5, 6, 7, 8]);
    // a smaller square is enlarged to the clipmap size
    let level = c.layer_rgba(1, &rect(0, 0, 512, 512), false);
    assert_eq!(level.len(), 4 * 1024 * 1024);
    assert_eq!(&level[0..4], &[1, 2, 3, 4]);
}
