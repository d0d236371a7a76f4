use terrain_editor::clipmap::{Rectangle, UVec2};
use terrain_editor::terrain_clipmap::ClipmapTracker;

fn rect(x: u32, y: u32, s: u32) -> Rectangle {
    Rectangle { pos: UVec2 { x, y }, size: UVec2 { x: s, y: s } }
}

#[test]
fn levels_of_a_new_tracker() {
    let t = ClipmapTracker::new(4096, 3);
    assert_eq!(t.level_count(), 3);
    assert_eq!(t.datasource_size(), 4096);
    assert_eq!(t.rectangles(), vec![rect(0, 0, 1024), rect(0, 0, 2048), rect(0, 0, 4096)]);
    assert_eq!(t.data_view_sizes(), vec![4096, 2048, 1024]);
    assert!(t.layers().iter().all(|l| !l.changed()));
}

#[test]
fn level_count_is_limited() {
    // a map of one clipmap size supports one level plus the whole map
    let t = ClipmapTracker::new(1024, 5);
    assert_eq!(t.rectangles(), vec![rect(0, 0, 1024), rect(0, 0, 1024)]);
    // a large map with few levels spreads them over the whole range
    let t = ClipmapTracker::new(16384, 2);
    assert_eq!(t.rectangles(), vec![rect(0, 0, 1024), rect(0, 0, 16384)]);
    let t = ClipmapTracker::new(16384, 3);
    assert_eq!(t.rectangles(), vec![rect(0, 0, 1024), rect(0, 0, 4096), rect(0, 0, 16384)]);
}

#[test]
fn update_follows_position() {
    let mut t = ClipmapTracker::new(4096, 3);
    assert!(t.update(UVec2 { x: 2100, y: 2048 }));
    assert_eq!(t.rectangles(), vec![rect(1536, 1536, 1024), rect(1024, 1024, 2048), rect(0, 0, 4096)]);
    let changed: Vec<bool> = t.layers().iter().map(|l| l.changed()).collect();
    assert_eq!(changed, vec![true, true, false]);

    // same grid cell: nothing moves
    assert!(!t.update(UVec2 { x: 2200, y: 2100 }));
    // forced updates mark all levels
    t.force_update();
    assert!(t.update(UVec2 { x: 2200, y: 2100 }));
    assert!(t.layers().iter().all(|l| l.changed()));
    assert!(!t.update(UVec2 { x: 2200, y: 2100 }));
}

#[test]
fn windows_stay_inside_the_map() {
    let mut t = ClipmapTracker::new(4096, 3);
    t.update(UVec2 { x: 0, y: 4095 });
    assert_eq!(t.rectangles(), vec![rect(0, 3072, 1024), rect(0, 2048, 2048), rect(0, 0, 4096)]);
}

#[test]
fn map_to_level_picks_the_finest_covering_level() {
    let mut t = ClipmapTracker::new(4096, 3);
    t.update(UVec2 { x: 2048, y: 2048 });
    assert_eq!(t.map_to_level(UVec2 { x: 1600, y: 1600 }, UVec2 { x: 1700, y: 1700 }), 0);
    assert_eq!(t.map_to_level(UVec2 { x: 1100, y: 1100 }, UVec2 { x: 1200, y: 1200 }), 1);
    assert_eq!(t.map_to_level(UVec2 { x: 0, y: 0 }, UVec2 { x: 10, y: 10 }), 2);
}

#[test]
fn levels_stay_nested() {
    let mut t = ClipmapTracker::new(16384, 5);
    for (x, y) in [(0u32, 0u32), (16383, 3), (9000, 12000), (600, 15999)] {
        t.update(UVec2 { x, y });
        let r = t.rectangles();
        for i in 0..r.len() {
            assert_eq!(r[i].pos.x % 256, 0);
            assert_eq!(r[i].pos.y % 256, 0);
            assert!(r[i].pos.x + r[i].size.x <= 16384 && r[i].pos.y + r[i].size.y <= 16384);
            for j in i + 1..r.len() {
                assert!(r[j].pos.x <= r[i].pos.x && r[j].pos.y <= r[i].pos.y);
                assert!(r[i].pos.x + r[i].size.x <= r[j].pos.x + r[j].size.x);
                assert!(r[i].pos.y + r[i].size.y <= r[j].pos.y + r[j].size.y);
            }
        }
    }
}
