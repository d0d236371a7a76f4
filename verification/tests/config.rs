use terrain_editor::config::{map_file, numbered_paths, terrain_name, tile_count, MaterialSetConfig, TextureMaps, CLIPMAP_GRANULARITY, CLIPMAP_SIZE, TILE_SIZE};
use terrain_editor::terrain_material::MaterialSlot;

#[test]
fn texture_maps() {
    let m = TextureMaps::new(String::from("bg.png"), String::from("ov.png"), String::from("bc.png"));
    assert_eq!(m.background(), "bg.png");
    assert_eq!(m.overlay(), "ov.png");
    assert_eq!(m.blendcontrol(), "bc.png");
}

#[test]
fn layout_constants() {
    assert_eq!(TILE_SIZE, 256);
    assert_eq!(CLIPMAP_SIZE, 4 * TILE_SIZE);
    assert_eq!(CLIPMAP_GRANULARITY, TILE_SIZE);
}

#[test]
fn material_set_texture_paths() {
    let m = MaterialSetConfig::bevy_example();
    let t = m.textures();
    assert_eq!(t.len(), 17);
    assert_eq!(t[0], (MaterialSlot(0), "_test-data_/textures/texture.diffuse_0.png", "_test-data_/textures/texture.normal_0.png"));
    assert_eq!(t[16].1, "_test-data_/textures/texture.diffuse_16.png");
    assert_eq!(m.texture_size(), 1024);

    let p = MaterialSetConfig::prolog_village();
    let t = p.textures();
    assert_eq!(t.len(), 31);
    assert_eq!(
        t[30],
        (
            MaterialSlot(30),
            "_test-data_/w3.textures/levels/prolog_village/prolog_village.texarray.texture_30.png",
            "_test-data_/w3.textures/levels/prolog_village/prolog_village_normals.texarray.texture_30.png"
        )
    );
    let k = MaterialSetConfig::kaer_morhen();
    assert_eq!(k.textures().len(), 20);
    assert_eq!(k.textures()[19].1, "_test-data_/w3.textures/levels/kaer_morhen/kaer_morhen_valley.texarray.texture_19.png");

    let d = MaterialSetConfig::default();
    let t = d.textures();
    assert_eq!(t.len(), 31);
    assert!(t.iter().all(|(_, a, b)| a.is_empty() && b.is_empty()));
}

#[test]
fn numbered_paths_of_a_prefix() {
    assert_eq!(numbered_paths("a_", ".png", 3), vec!["a_0.png", "a_1.png", "a_2.png"]);
    assert!(numbered_paths("a_", ".png", 0).is_empty());
}

#[test]
fn terrain_files_and_names() {
    assert_eq!(map_file("_test-data_/terrain/", "test", "heightmap", 1024), "_test-data_/terrain//test.heightmap.1024x1024.png");
    assert_eq!(map_file("base", "bevy", "tint", 4096), "base/bevy.tint.4096x4096.png");
    assert_eq!(terrain_name("Kaer Morhen", 16384), "Kaer Morhen (16384 x 16384)");
    assert_eq!(terrain_name("Prologue", 1024), "Prologue (1024 x 1024)");
}

#[test]
fn tile_counts() {
    assert_eq!(tile_count(1024), 16);
    assert_eq!(tile_count(16384), 4096);
    assert_eq!(tile_count(256), 1);
    assert_eq!(tile_count(300), 1);
}
