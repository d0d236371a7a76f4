//! Terrain layout constants, the configuration of the texturing maps and
//! the texture files of the material sets.
use vstd::prelude::*;

use crate::terrain_material::MaterialSlot;
use crate::text::{decimal, push_decimal};

verus! {

/// Edge length of a terrain tile in data points.
pub const TILE_SIZE: u32 = 256;

/// Edge length of every clipmap level (four tiles).
pub const CLIPMAP_SIZE: u32 = 1024;

/// Granularity of clipmap view positions in full data (one tile).
pub const CLIPMAP_GRANULARITY: u32 = 256;

/// Paths of the texturing maps.
#[derive(Clone, Debug)]
pub struct TextureMaps {
    background: String,
    overlay: String,
    blendcontrol: String,
}

impl TextureMaps {
    pub closed spec fn spec_background(self) -> Seq<char> {
        self.background@
    }

    pub closed spec fn spec_overlay(self) -> Seq<char> {
        self.overlay@
    }

    pub closed spec fn spec_blendcontrol(self) -> Seq<char> {
        self.blendcontrol@
    }

    pub fn new(background: String, overlay: String, blendcontrol: String) -> (res: TextureMaps)
        ensures
            res.spec_background() == background@,
            res.spec_overlay() == overlay@,
            res.spec_blendcontrol() == blendcontrol@,
    {
        TextureMaps { background, overlay, blendcontrol }
    }

    pub fn background(&self) -> (res: &str)
        ensures
            res@ == self.spec_background(),
    {
        self.background.as_str()
    }

    pub fn overlay(&self) -> (res: &str)
        ensures
            res@ == self.spec_overlay(),
    {
        self.overlay.as_str()
    }

    pub fn blendcontrol(&self) -> (res: &str)
        ensures
            res@ == self.spec_blendcontrol(),
    {
        self.blendcontrol.as_str()
    }
}

/// `prefix`, the decimal number `i` and `suffix`.
pub open spec fn numbered_path(prefix: Seq<char>, i: nat, suffix: Seq<char>) -> Seq<char> {
    prefix + decimal(i) + suffix
}

/// The paths `prefix + i + suffix` for `i` from 0 to `count - 1`.
pub open spec fn numbered_path_list(prefix: Seq<char>, count: nat, suffix: Seq<char>) -> Seq<Seq<char>> {
    Seq::new(count, |i: int| numbered_path(prefix, i as nat, suffix))
}

/// The views of a list of strings.
pub open spec fn string_views(v: Seq<String>) -> Seq<Seq<char>> {
    v.map_values(|p: String| p@)
}

/// Paths `prefix + i + suffix` for `i` from 0 to `count - 1`.
pub fn numbered_paths(prefix: &str, suffix: &str, count: u8) -> (res: Vec<String>)
    ensures
        string_views(res@) == numbered_path_list(prefix@, count as nat, suffix@),
{
    let mut res: Vec<String> = Vec::new();
    let mut i: u8 = 0;
    while i < count
        invariant
            i <= count,
            res@.len() == i,
            forall|j: int| 0 <= j < i ==> (#[trigger] res@[j])@ == numbered_path(prefix@, j as nat, suffix@),
        decreases count - i,
    {
        let mut path = String::from_str(prefix);
        push_decimal(&mut path, i as u128);
        path.append(suffix);
        assert(path@ =~= numbered_path(prefix@, i as nat, suffix@));
        res.push(path);
        i = i + 1;
    }
    assert(string_views(res@) =~= numbered_path_list(prefix@, count as nat, suffix@));
    res
}

/// The texture files of a material set: one diffuse and one normal texture
/// per material.
#[derive(Clone, Debug)]
pub struct MaterialSetConfig {
    diffuse: Vec<String>,
    normal: Vec<String>,
}

impl MaterialSetConfig {
    pub closed spec fn spec_diffuse(self) -> Seq<Seq<char>> {
        string_views(self.diffuse@)
    }

    pub closed spec fn spec_normal(self) -> Seq<Seq<char>> {
        string_views(self.normal@)
    }

    /// Edge length of every material texture.
    pub fn texture_size(&self) -> (res: u32)
        ensures
            res == 1024,
    {
        1024
    }

    /// The 31 materials of the prologue village.
    pub fn prolog_village() -> (res: MaterialSetConfig)
        ensures
            res.spec_diffuse() == numbered_path_list(
                "_test-data_/w3.textures/levels/prolog_village/prolog_village.texarray.texture_"@, 31, ".png"@),
            res.spec_normal() == numbered_path_list(
                "_test-data_/w3.textures/levels/prolog_village/prolog_village_normals.texarray.texture_"@, 31, ".png"@),
    {
        MaterialSetConfig {
            diffuse: numbered_paths("_test-data_/w3.textures/levels/prolog_village/prolog_village.texarray.texture_", ".png", 31),
            normal: numbered_paths("_test-data_/w3.textures/levels/prolog_village/prolog_village_normals.texarray.texture_", ".png", 31),
        }
    }

    /// The 20 materials of the Kaer Morhen valley.
    pub fn kaer_morhen() -> (res: MaterialSetConfig)
        ensures
            res.spec_diffuse() == numbered_path_list(
                "_test-data_/w3.textures/levels/kaer_morhen/kaer_morhen_valley.texarray.texture_"@, 20, ".png"@),
            res.spec_normal() == numbered_path_list(
                "_test-data_/w3.textures/levels/kaer_morhen/kaer_morhen_valley_normals.texarray.texture_"@, 20, ".png"@),
    {
        MaterialSetConfig {
            diffuse: numbered_paths("_test-data_/w3.textures/levels/kaer_morhen/kaer_morhen_valley.texarray.texture_", ".png", 20),
            normal: numbered_paths("_test-data_/w3.textures/levels/kaer_morhen/kaer_morhen_valley_normals.texarray.texture_", ".png", 20),
        }
    }

    /// The 17 materials of the example textures.
    pub fn bevy_example() -> (res: MaterialSetConfig)
        ensures
            res.spec_diffuse() == numbered_path_list("_test-data_/textures/texture.diffuse_"@, 17, ".png"@),
            res.spec_normal() == numbered_path_list("_test-data_/textures/texture.normal_"@, 17, ".png"@),
    {
        MaterialSetConfig {
            diffuse: numbered_paths("_test-data_/textures/texture.diffuse_", ".png", 17),
            normal: numbered_paths("_test-data_/textures/texture.normal_", ".png", 17),
        }
    }

    /// Every material with its diffuse and normal texture path, numbered
    /// from slot 0 (slots count modulo 256); a material needs both paths.
    pub fn textures(&self) -> (res: Vec<(MaterialSlot, &str, &str)>)
        ensures
            res@.len() == (if self.spec_diffuse().len() < self.spec_normal().len() {
                self.spec_diffuse().len()
            } else {
                self.spec_normal().len()
            }),
            forall|i: int| 0 <= i < res@.len() ==> {
                &&& (#[trigger] res@[i]).0 == MaterialSlot(i as u8)
                &&& res@[i].1@ == self.spec_diffuse()[i]
                &&& res@[i].2@ == self.spec_normal()[i]
            },
    {
        let n = if self.diffuse.len() < self.normal.len() { self.diffuse.len() } else { self.normal.len() };
        let mut res: Vec<(MaterialSlot, &str, &str)> = Vec::new();
        let mut i: usize = 0;
        while i < n
            invariant
                n <= self.diffuse@.len(),
                n <= self.normal@.len(),
                i <= n,
                res@.len() == i,
                forall|j: int| 0 <= j < i ==> {
                    &&& (#[trigger] res@[j]).0 == MaterialSlot(j as u8)
                    &&& res@[j].1@ == self.diffuse@[j]@
                    &&& res@[j].2@ == self.normal@[j]@
                },
            decreases n - i,
        {
            #[verifier::truncate]
            let slot = MaterialSlot(i as u8);
            res.push((slot, self.diffuse[i].as_str(), self.normal[i].as_str()));
            i = i + 1;
        }
        res
    }
}

impl Default for MaterialSetConfig {
    /// 31 materials without texture files.
    fn default() -> (res: MaterialSetConfig)
        ensures
            res.spec_diffuse() == Seq::new(31, |i: int| Seq::<char>::empty()),
            res.spec_normal() == Seq::new(31, |i: int| Seq::<char>::empty()),
    {
        let mut diffuse: Vec<String> = Vec::new();
        let mut normal: Vec<String> = Vec::new();
        let mut i: usize = 0;
        while i < 31
            invariant
                i <= 31,
                diffuse@.len() == i,
                normal@.len() == i,
                forall|j: int| 0 <= j < i ==> (#[trigger] diffuse@[j])@ == Seq::<char>::empty(),
                forall|j: int| 0 <= j < i ==> (#[trigger] normal@[j])@ == Seq::<char>::empty(),
            decreases 31 - i,
        {
            diffuse.push(String::new());
            normal.push(String::new());
            i = i + 1;
        }
        let res = MaterialSetConfig { diffuse, normal };
        assert(res.spec_diffuse() =~= Seq::new(31, |i: int| Seq::<char>::empty()));
        assert(res.spec_normal() =~= Seq::new(31, |i: int| Seq::<char>::empty()));
        res
    }
}

/// Number of terrain tiles of a map of `map_size` points per edge, computed
/// as `map_size / TILE_SIZE * map_size / TILE_SIZE` (left to right).
pub fn tile_count(map_size: u32) -> (res: usize)
    requires
        (map_size / TILE_SIZE) * map_size <= u32::MAX,
    ensures
        res == (map_size / TILE_SIZE) * map_size / (TILE_SIZE as int),
{
    (map_size / TILE_SIZE * map_size / TILE_SIZE) as usize
}

/// `base/prefix.kind.SIZExSIZE.png`: the file of one map of a terrain.
pub open spec fn map_file_path(base: Seq<char>, prefix: Seq<char>, kind: Seq<char>, size: nat) -> Seq<char> {
    base + seq!['/'] + prefix + seq!['.'] + kind + seq!['.'] + decimal(size) + seq!['x'] + decimal(size) + ".png"@
}

/// The path of the `kind` map (heightmap, tint, ...) of a terrain whose
/// files start with `prefix` in directory `base`.
pub fn map_file(base: &str, prefix: &str, kind: &str, size: u32) -> (res: String)
    ensures
        res@ == map_file_path(base@, prefix@, kind@, size as nat),
{
    let mut res = String::from_str(base);
    res.append("/");
    res.append(prefix);
    res.append(".");
    res.append(kind);
    res.append(".");
    push_decimal(&mut res, size as u128);
    res.append("x");
    push_decimal(&mut res, size as u128);
    res.append(".png");
    proof {
        reveal_strlit("/");
        reveal_strlit(".");
        reveal_strlit("x");
    }
    assert(res@ =~= map_file_path(base@, prefix@, kind@, size as nat));
    res
}

/// `title (SIZE x SIZE)`: the name of a terrain.
pub open spec fn terrain_name_text(title: Seq<char>, size: nat) -> Seq<char> {
    title + " ("@ + decimal(size) + " x "@ + decimal(size) + ")"@
}

/// The name of a terrain with maps of `size` points per edge.
pub fn terrain_name(title: &str, size: u32) -> (res: String)
    ensures
        res@ == terrain_name_text(title@, size as nat),
{
    let mut res = String::from_str(title);
    res.append(" (");
    push_decimal(&mut res, size as u128);
    res.append(" x ");
    push_decimal(&mut res, size as u128);
    res.append(")");
    assert(res@ =~= terrain_name_text(title@, size as nat));
    res
}

} // verus!
