use terrain_editor::clipmap::UVec2;
use terrain_editor::heightmap::{
    heightmap_from_png_data, normals_compute_layout, normals_compute_slice, ComputeNormalsTaskQueue,
    TerrainHeightMap, TerrainHeightMapView, TerrainTileId,
};

#[test]
fn heightmap_from_big_endian_bytes() {
    let h = heightmap_from_png_data(2, &vec![0, 1, 1, 0, 0xff, 0xff, 0x12, 0x34]).expect("enough data");
    assert_eq!(h.size(), 2);
    assert_eq!(h.data(), &vec![1, 256, 65535, 0x1234]);
    assert_eq!(h.height_at(UVec2 { x: 1, y: 1 }), 0x1234);
    // positions outside are clamped onto the map
    assert_eq!(h.height_at(UVec2 { x: 5, y: 0 }), 256);
    assert_eq!(h.coordinates_to_offset(UVec2 { x: 9, y: 9 }), 3);
}

#[test]
fn heightmap_with_too_few_bytes() {
    let e = heightmap_from_png_data(2, &vec![0, 1, 2]).err().expect("too few bytes");
    assert!(e.starts_with("failed to convert buffer into u16 values: "), "{}", e);
}

#[test]
fn normals_layout() {
    assert_eq!(normals_compute_layout(256), (256, 1));
    assert_eq!(normals_compute_layout(1024), (1024, 1));
    assert_eq!(normals_compute_layout(8192), (1024, 8));
}

#[test]
fn normals_slices_repeat_border_rows() {
    // 4 x 4 map, value = 10 * row + column
    let data: Vec<u16> = (0..16u16).map(|i| (i / 4) * 10 + i % 4).collect();
    let h = TerrainHeightMap::new(4, data);
    let first = normals_compute_slice(&h, 2, 0);
    assert_eq!(first, vec![0, 1, 2, 3, 0, 1, 2, 3, 10, 11, 12, 13, 20, 21, 22, 23]);
    let last = normals_compute_slice(&h, 2, 1);
    assert_eq!(last, vec![10, 11, 12, 13, 20, 21, 22, 23, 30, 31, 32, 33, 30, 31, 32, 33]);
}

#[test]
fn task_queue_runs_one_task_at_a_time() {
    let mut q: ComputeNormalsTaskQueue<u32> = ComputeNormalsTaskQueue::new();
    q.push(1);
    q.push(2);
    assert_eq!(q.len(), 2);
    assert_eq!(q.next_task(), Some(2));
    assert_eq!(q.next_task(), None);
    assert!(!q.finished(1));
    assert_eq!(q.next_task(), Some(1));
    assert!(q.finished(1));
    assert!(!q.finished(1));
}

#[test]
fn tile_ids() {
    let t: TerrainTileId<256> = TerrainTileId::new(3, 5);
    assert_eq!((t.x(), t.y()), (3, 5));
    assert_eq!(t.sampling_offset(), UVec2 { x: 768, y: 1280 });
    assert_eq!(t.half_extent(), UVec2 { x: 128, y: 128 });
    assert_eq!(t.tile_size(), 256);
}

#[test]
fn min_max_of_a_tile_strip() {
    // 512 x 512 map: one strip of two 256 x 256 tiles, rows below are ignored
    let mut data: Vec<u16> = vec![5; 512 * 512];
    for i in 256 * 512..512 * 512 {
        data[i] = 100;
    }
    data[0] = 1;
    data[255 * 512 + 100] = 7;
    data[256 + 3] = 2;
    data[10 * 512 + 300] = 9;
    let h = TerrainHeightMap::new(512, data);
    let view = TerrainHeightMapView::new_strip(TerrainTileId::<256>::new(0, 0), &h);
    let res = view.tiles_min_max_y_strip();
    assert_eq!(res.len(), 2);
    assert_eq!((res[0].0, res[0].1 .0, res[0].2 .0), (TerrainTileId::<256>(0, 0), 1, 7));
    assert_eq!((res[1].0, res[1].1 .0, res[1].2 .0), (TerrainTileId::<256>(1, 0), 2, 9));
}

#[test]
fn update_replaces_heightmap() {
    let mut h = TerrainHeightMap::empty();
    assert_eq!(h.size(), 0);
    h.update(TerrainHeightMap::new(1, vec![42]));
    assert_eq!(h.size(), 1);
    assert_eq!(h.data(), &vec![42]);
}

