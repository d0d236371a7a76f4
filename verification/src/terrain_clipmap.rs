//! Positions of the clipmap level rectangles that follow a tracked position.
use vstd::arithmetic::power2::{is_pow2, pow2};
use vstd::prelude::*;

use crate::clipmap::{Rectangle, UVec2};
use crate::config::{CLIPMAP_GRANULARITY, CLIPMAP_SIZE};

verus! {

/// Upper limit of clipmap levels (e.g. for small clipmaps over big maps).
pub const MAX_SUPPORTED_CLIPMAP_LEVEL: u8 = 8;

/// Rectangle of one clipmap level and whether its position changed in the
/// last update.
#[derive(Clone, Copy, Debug, Default)]
pub struct LayerRectangle {
    rectangle: Rectangle,
    changed: bool,
}

/// Rectangles of all clipmap levels: the rectangle of a level is the part of
/// the full resolution data that it covers.
pub struct ClipmapTracker {
    layer_rectangles: Vec<LayerRectangle>,
    data_size: u32,
    forced_update: bool,
}

/// Number of times `n` can be halved before it reaches one.
pub open spec fn log2(n: nat) -> nat
    decreases n,
{
    if n <= 1 { 0 } else { 1 + log2(n / 2) }
}

/// Exponent of level `i` out of `levels` levels when the exponents 0 to
/// `max_exp` are spread evenly over the levels (rounded half up).
pub open spec fn layer_exponent(i: nat, levels: nat, max_exp: nat) -> nat {
    ((2 * i * max_exp + (levels - 1)) / (2 * (levels - 1) as int)) as nat
}

/// Number of levels to use: at most `max_level`, at most the number of
/// levels the data size supports and at most `MAX_SUPPORTED_CLIPMAP_LEVEL`.
pub open spec fn level_count(max_level: nat, levels_by_size: nat) -> nat {
    let a = if max_level < levels_by_size { max_level } else { levels_by_size };
    if a < MAX_SUPPORTED_CLIPMAP_LEVEL { a } else { MAX_SUPPORTED_CLIPMAP_LEVEL as nat }
}

/// Sizes of the level rectangles for a map of `CLIPMAP_SIZE * 2^exp` points
/// per edge: with fewer than two levels the first level and the full map,
/// otherwise `CLIPMAP_SIZE * 2^e` with the exponents spread evenly from 0 to
/// `exp`.
pub open spec fn layer_sizes_for(exp: nat, max_level: nat) -> Seq<nat> {
    let levels = level_count(max_level, exp + 1);
    if levels < 2 {
        seq![CLIPMAP_SIZE as nat, (CLIPMAP_SIZE * pow2(exp)) as nat]
    } else {
        Seq::new(levels, |i: int| (CLIPMAP_SIZE * pow2(layer_exponent(i as nat, levels, exp))) as nat)
    }
}

/// Lower left corner of the window of `size` points (a multiple of twice the
/// granularity) around `pos`, snapped to the granularity and kept inside a
/// map of `data_size` points.
pub open spec fn window_start(pos: nat, size: nat, data_size: nat) -> nat {
    let g = CLIPMAP_GRANULARITY as nat;
    let half = size / g / 2;
    let data_max = data_size / g;
    let p = pos / g;
    let lower = if p < half { half } else { p };
    let clipped = if lower < data_max - half { lower } else { (data_max - half) as nat };
    ((clipped - half) * g) as nat
}

/// The rectangle lies inside the map, aligned to the granularity.
pub open spec fn placed(r: Rectangle, data_size: nat) -> bool {
    &&& r.size.x == r.size.y
    &&& (r.size.x as int) % (2 * CLIPMAP_GRANULARITY as int) == 0
    &&& CLIPMAP_SIZE <= r.size.x <= data_size
    &&& r.pos.x % CLIPMAP_GRANULARITY == 0
    &&& r.pos.y % CLIPMAP_GRANULARITY == 0
    &&& r.pos.x + r.size.x <= data_size
    &&& r.pos.y + r.size.y <= data_size
}

/// `inner` lies inside `outer`.
pub open spec fn nested(inner: Rectangle, outer: Rectangle) -> bool {
    &&& outer.pos.x <= inner.pos.x
    &&& outer.pos.y <= inner.pos.y
    &&& inner.pos.x + inner.size.x <= outer.pos.x + outer.size.x
    &&& inner.pos.y + inner.size.y <= outer.pos.y + outer.size.y
}

/// Windows around the same position nest: the window of a smaller size lies
/// inside the window of a larger one.
proof fn lemma_window_nested(p: nat, sa: nat, sb: nat, ds: nat)
    requires
        CLIPMAP_SIZE <= sa <= sb <= ds,
        sa % 512 == 0,
        sb % 512 == 0,
        ds % 256 == 0,
    ensures
        window_start(p, sb, ds) <= window_start(p, sa, ds),
        window_start(p, sa, ds) + sa <= window_start(p, sb, ds) + sb,
{
    let ka = sa / 512;
    let kb = sb / 512;
    let dm = ds / 256;
    assert(sa / 256 / 2 == ka);
    assert(sb / 256 / 2 == kb);
    assert(sa == 512 * ka);
    assert(sb == 512 * kb);
    assert(ds == 256 * dm);
    assert(ka <= kb);
    assert(2 * kb <= dm);
}

/// Level sizes never shrink from one level to the next.
proof fn lemma_layer_sizes_ordered(exp: nat, max_level: nat, i: int, j: int)
    requires
        0 <= i <= j < layer_sizes_for(exp, max_level).len(),
    ensures
        layer_sizes_for(exp, max_level)[i] <= layer_sizes_for(exp, max_level)[j],
{
    let levels = level_count(max_level, exp + 1);
    if levels < 2 {
        vstd::arithmetic::power2::lemma_pow2_pos(exp);
    } else {
        let l = levels as int;
        let m = exp as int;
        let ei = layer_exponent(i as nat, levels, exp);
        let ej = layer_exponent(j as nat, levels, exp);
        assert(2 * i * m <= 2 * j * m) by (nonlinear_arith) requires 0 <= i <= j, m >= 0;
        vstd::arithmetic::div_mod::lemma_div_is_ordered(2 * i * m + (l - 1), 2 * j * m + (l - 1), 2 * (l - 1));
        assert(ei <= ej);
        if ei < ej {
            vstd::arithmetic::power2::lemma_pow2_strictly_increases(ei, ej);
        }
    }
}

/// Level rectangles moved to the windows around one position stay nested.
proof fn lemma_windows_nested(before: Seq<LayerRectangle>, after: Seq<LayerRectangle>, pos: UVec2, ds: nat)
    requires
        before.len() == after.len(),
        ds % 256 == 0,
        forall|i: int| 0 <= i < before.len() ==> placed(#[trigger] before[i].rectangle, ds),
        forall|i: int, j: int| 0 <= i < j < before.len() ==>
            nested(#[trigger] before[i].rectangle, #[trigger] before[j].rectangle),
        forall|i: int| 0 <= i < before.len() ==> {
            &&& (#[trigger] after[i]).rectangle.size == before[i].rectangle.size
            &&& after[i].rectangle.pos == UVec2 {
                x: window_start(pos.x as nat, before[i].rectangle.size.x as nat, ds) as u32,
                y: window_start(pos.y as nat, before[i].rectangle.size.y as nat, ds) as u32,
            }
        },
    ensures
        forall|i: int, j: int| 0 <= i < j < after.len() ==>
            nested(#[trigger] after[i].rectangle, #[trigger] after[j].rectangle),
{
    assert forall|i: int, j: int| 0 <= i < j < after.len() implies
        nested(#[trigger] after[i].rectangle, #[trigger] after[j].rectangle) by {
        let a = before[i].rectangle;
        let b = before[j].rectangle;
        assert(placed(a, ds) && placed(b, ds));
        assert(nested(a, b));
        let sa = a.size.x as nat;
        let sb = b.size.x as nat;
        lemma_window_nested(pos.x as nat, sa, sb, ds);
        lemma_window_nested(pos.y as nat, sa, sb, ds);
    }
}

/// Once a level covers an area, every later level covers it too.
pub proof fn law_coarser_levels_cover(tracker: ClipmapTracker, i: int, j: int, min: UVec2, max: UVec2)
    requires
        tracker.wf(),
        0 <= i <= j < tracker.spec_layers().len(),
        spec_covers(tracker.spec_layers()[i].spec_rectangle(), min, max),
    ensures
        spec_covers(tracker.spec_layers()[j].spec_rectangle(), min, max),
{
    if i < j {
        assert(nested(tracker.spec_layers()[i].spec_rectangle(), tracker.spec_layers()[j].spec_rectangle()));
    }
}

/// `[min, max[` lies inside the rectangle.
pub open spec fn spec_covers(r: Rectangle, min: UVec2, max: UVec2) -> bool {
    &&& r.pos.x <= min.x
    &&& r.pos.y <= min.y
    &&& max.x <= r.pos.x + r.size.x
    &&& max.y <= r.pos.y + r.size.y
}

/// The map position `p` lies inside the rectangle.
pub open spec fn contains_point(r: Rectangle, p: UVec2) -> bool {
    &&& r.pos.x <= p.x < r.pos.x + r.size.x
    &&& r.pos.y <= p.y < r.pos.y + r.size.y
}

/// A rectangle covers a non-empty area `[min, max[` exactly when it contains
/// every map position of the area, in both coordinates.
pub proof fn law_covers_means_contains_area(r: Rectangle, min: UVec2, max: UVec2)
    requires
        min.x < max.x,
        min.y < max.y,
    ensures
        spec_covers(r, min, max) <==> forall|p: UVec2|
            min.x <= p.x < max.x && min.y <= p.y < max.y ==> #[trigger] contains_point(r, p),
{
    if forall|p: UVec2| min.x <= p.x < max.x && min.y <= p.y < max.y ==> #[trigger] contains_point(r, p) {
        let lo = UVec2 { x: min.x, y: min.y };
        let hi = UVec2 { x: (max.x - 1) as u32, y: (max.y - 1) as u32 };
        assert(contains_point(r, lo));
        assert(contains_point(r, hi));
    }
}

impl Rectangle {
    /// `[min, max[` lies inside the rectangle.
    pub fn covers(&self, min: UVec2, max: UVec2) -> (res: bool)
        requires
            self.pos.x + self.size.x <= u32::MAX,
            self.pos.y + self.size.y <= u32::MAX,
        ensures
            res == spec_covers(*self, min, max),
    {
        self.pos.x <= min.x && self.pos.y <= min.y && max.x <= self.pos.x + self.size.x
            && max.y <= self.pos.y + self.size.y
    }
}

impl LayerRectangle {
    pub closed spec fn spec_rectangle(self) -> Rectangle {
        self.rectangle
    }

    pub closed spec fn spec_changed(self) -> bool {
        self.changed
    }

    pub fn rectangle(&self) -> (res: &Rectangle)
        ensures
            *res == self.spec_rectangle(),
    {
        &self.rectangle
    }

    pub fn changed(&self) -> (res: bool)
        ensures
            res == self.spec_changed(),
    {
        self.changed
    }

    fn new(pos: UVec2, size: u32) -> (res: LayerRectangle)
        ensures
            res.spec_rectangle() == (Rectangle { pos, size: UVec2 { x: size, y: size } }),
            !res.spec_changed(),
    {
        LayerRectangle { rectangle: Rectangle { pos, size: UVec2 { x: size, y: size } }, changed: false }
    }
}

impl ClipmapTracker {
    pub closed spec fn spec_layers(self) -> Seq<LayerRectangle> {
        self.layer_rectangles@
    }

    pub closed spec fn spec_data_size(self) -> nat {
        self.data_size as nat
    }

    pub closed spec fn spec_forced_update(self) -> bool {
        self.forced_update
    }

    /// At least one and at most eight levels, a map of whole tiles, every
    /// level rectangle inside the map and aligned to the granularity, and
    /// every level rectangle inside the rectangles of all later levels.
    pub open spec fn wf(self) -> bool {
        &&& 1 <= self.spec_layers().len() <= MAX_SUPPORTED_CLIPMAP_LEVEL
        &&& self.spec_data_size() % (CLIPMAP_GRANULARITY as nat) == 0
        &&& CLIPMAP_SIZE <= self.spec_data_size()
        &&& forall|i: int| 0 <= i < self.spec_layers().len() ==>
            placed(#[trigger] self.spec_layers()[i].spec_rectangle(), self.spec_data_size())
        &&& forall|i: int, j: int| 0 <= i < j < self.spec_layers().len() ==>
            nested(#[trigger] self.spec_layers()[i].spec_rectangle(), #[trigger] self.spec_layers()[j].spec_rectangle())
    }

    /// Computes `k` with `data_size == 2^k`.
    fn exponent_of(data_size: u32) -> (k: u32)
        requires
            is_pow2(data_size as int),
        ensures
            data_size == pow2(k as nat),
            k == log2(data_size as nat),
            k < 32,
    {
        let mut r = data_size;
        let mut k: u32 = 0;
        proof {
            vstd::arithmetic::power2::lemma2_to64();
            reveal(is_pow2);
        }
        while r > 1
            invariant
                is_pow2(r as int),
                data_size == r * pow2(k as nat),
                r >= 1,
                r * pow2(k as nat) <= u32::MAX,
                log2(data_size as nat) == k + log2(r as nat),
                k < 32,
            decreases r,
        {
            proof {
                reveal(is_pow2);
                vstd::arithmetic::power2::lemma_pow2_unfold((k + 1) as nat);
                assert(r % 2 == 0);
                assert(r == 2 * (r / 2));
                assert(data_size == (r / 2) * pow2((k + 1) as nat)) by (nonlinear_arith)
                    requires data_size == r * pow2(k as nat), r == 2 * (r / 2),
                        pow2((k + 1) as nat) == 2 * pow2(k as nat);
                if k + 1 >= 32 {
                    vstd::arithmetic::power2::lemma2_to64();
                    vstd::arithmetic::power2::lemma_pow2_adds(32, (k + 1 - 32) as nat);
                    vstd::arithmetic::power2::lemma_pow2_pos((k + 1 - 32) as nat);
                    assert(pow2((k + 1) as nat) >= pow2(32)) by (nonlinear_arith)
                        requires pow2((k + 1) as nat) == pow2(32) * pow2((k + 1 - 32) as nat),
                            pow2((k + 1 - 32) as nat) >= 1, pow2(32) > 0;
                    assert((r / 2) * pow2((k + 1) as nat) >= pow2((k + 1) as nat)) by (nonlinear_arith)
                        requires r / 2 >= 1;
                    assert(false);
                }
            }
            r = r / 2;
            k = k + 1;
        }
        proof {
            reveal(is_pow2);
            assert(r == 1);
        }
        k
    }

    /// Rectangles of all levels at the origin for a map of `data_size`
    /// points per edge, sized as `layer_sizes_for` says.
    fn generate_layers(data_size: u32, max_level: u8) -> (res: Vec<LayerRectangle>)
        requires
            is_pow2(data_size as int),
            data_size >= CLIPMAP_SIZE,
        ensures
            ({
                let exp = (log2(data_size as nat) - 10) as nat;
                let sizes = layer_sizes_for(exp, max_level as nat);
                &&& data_size == CLIPMAP_SIZE * pow2(exp)
                &&& res@.len() == sizes.len()
                &&& 2 <= res@.len() <= MAX_SUPPORTED_CLIPMAP_LEVEL
                &&& forall|i: int| 0 <= i < res@.len() ==> {
                    &&& (#[trigger] res@[i]).spec_rectangle().pos == UVec2 { x: 0, y: 0 }
                    &&& res@[i].spec_rectangle().size.x == sizes[i]
                    &&& res@[i].spec_rectangle().size.y == sizes[i]
                    &&& !res@[i].spec_changed()
                    &&& placed(res@[i].spec_rectangle(), data_size as nat)
                }
            }),
    {
        let k = Self::exponent_of(data_size);
        proof {
            vstd::arithmetic::power2::lemma2_to64();
            if k < 10 {
                vstd::arithmetic::power2::lemma_pow2_strictly_increases(k as nat, 10);
            }
        }
        let exp: u32 = k - 10;
        proof {
            vstd::arithmetic::power2::lemma_pow2_adds(10, exp as nat);
            assert(data_size == CLIPMAP_SIZE * pow2(exp as nat));
            assert(data_size % CLIPMAP_GRANULARITY == 0) by {
                vstd::arithmetic::div_mod::lemma_mod_multiples_basic((4 * pow2(exp as nat)) as int, 256);
            }
        }
        let max_level_by_size: u8 = (1 + exp) as u8;
        let a = if max_level < max_level_by_size { max_level } else { max_level_by_size };
        let level = if a < MAX_SUPPORTED_CLIPMAP_LEVEL { a } else { MAX_SUPPORTED_CLIPMAP_LEVEL };
        let ghost sizes = layer_sizes_for(exp as nat, max_level as nat);
        if level < 2 {
            let res = vec![
                LayerRectangle::new(UVec2 { x: 0, y: 0 }, CLIPMAP_SIZE),
                LayerRectangle::new(UVec2 { x: 0, y: 0 }, data_size),
            ];
            proof {
                vstd::arithmetic::div_mod::lemma_mod_multiples_basic((2 * pow2(exp as nat)) as int, 512);
                assert(data_size == (2 * pow2(exp as nat)) as int * 512);
                assert((CLIPMAP_SIZE as int) % (2 * CLIPMAP_GRANULARITY as int) == 0);
                assert(0int % (CLIPMAP_GRANULARITY as int) == 0);
                assert(sizes =~= seq![CLIPMAP_SIZE as nat, (CLIPMAP_SIZE * pow2(exp as nat)) as nat]);
                assert(placed(res@[0].spec_rectangle(), data_size as nat));
                assert(placed(res@[1].spec_rectangle(), data_size as nat));
            }
            res
        } else {
            let mut res: Vec<LayerRectangle> = Vec::new();
            let mut i: u8 = 0;
            while i < level
                invariant
                    2 <= level <= MAX_SUPPORTED_CLIPMAP_LEVEL,
                    level == level_count(max_level as nat, (exp + 1) as nat),
                    sizes == layer_sizes_for(exp as nat, max_level as nat),
                    sizes.len() == level,
                    exp <= 21,
                    data_size == CLIPMAP_SIZE * pow2(exp as nat),
                    data_size % CLIPMAP_GRANULARITY == 0,
                    0 <= i <= level,
                    res@.len() == i,
                    forall|j: int| 0 <= j < i ==> {
                        &&& (#[trigger] res@[j]).spec_rectangle().pos == UVec2 { x: 0, y: 0 }
                        &&& res@[j].spec_rectangle().size.x == sizes[j]
                        &&& res@[j].spec_rectangle().size.y == sizes[j]
                        &&& !res@[j].spec_changed()
                        &&& placed(res@[j].spec_rectangle(), data_size as nat)
                    },
                decreases level - i,
            {
                let ghost l = level as int;
                let ghost ii = i as int;
                let ghost m = exp as int;
                proof {
                    assert(2 * ii * m + (l - 1) < 2 * (l - 1) * (m + 1)) by (nonlinear_arith)
                        requires 0 <= ii < l, l >= 2, m >= 0;
                    assert(2 * ii * m <= 2 * 7 * 21) by (nonlinear_arith) requires 0 <= ii <= 7, 0 <= m <= 21;
                }
                let e: u32 = (2 * (i as u32) * exp + (level as u32 - 1)) / (2 * (level as u32 - 1));
                proof {
                    let num = 2 * ii * m + (l - 1);
                    let den = 2 * (l - 1);
                    vstd::arithmetic::div_mod::lemma_fundamental_div_mod(num, den);
                    let q = num / den;
                    assert(q <= m) by (nonlinear_arith)
                        requires num == den * q + num % den, num % den >= 0, num < den * (m + 1), den > 0;
                    assert(e == layer_exponent(i as nat, level as nat, exp as nat));
                    if (e as nat) < (exp as nat) {
                        vstd::arithmetic::power2::lemma_pow2_strictly_increases(e as nat, exp as nat);
                    }
                }
                let p = Self::power_of_two(e);
                let size = CLIPMAP_SIZE * p;
                let lr = LayerRectangle::new(UVec2 { x: 0, y: 0 }, size);
                proof {
                    vstd::arithmetic::power2::lemma_pow2_pos(e as nat);
                    vstd::arithmetic::div_mod::lemma_mod_multiples_basic(2 * p as int, 512);
                    assert(sizes[i as int] == size);
                    assert(placed(lr.spec_rectangle(), data_size as nat));
                }
                res.push(lr);
                i = i + 1;
            }
            res
        }
    }

    /// Tracker over a map of `data_size` points per edge (a power of two of
    /// at least `CLIPMAP_SIZE`) with at most `max_level` levels (at least one).
    pub fn new(data_size: u32, max_level: u8) -> (res: ClipmapTracker)
        requires
            is_pow2(data_size as int),
            data_size >= CLIPMAP_SIZE,
            max_level > 0,
        ensures
            res.wf(),
            res.spec_data_size() == data_size,
            !res.spec_forced_update(),
            ({
                let sizes = layer_sizes_for((log2(data_size as nat) - 10) as nat, max_level as nat);
                &&& res.spec_layers().len() == sizes.len()
                &&& forall|i: int| 0 <= i < sizes.len() ==> {
                    &&& (#[trigger] res.spec_layers()[i]).spec_rectangle().pos == UVec2 { x: 0, y: 0 }
                    &&& res.spec_layers()[i].spec_rectangle().size == UVec2 { x: sizes[i] as u32, y: sizes[i] as u32 }
                    &&& !res.spec_layers()[i].spec_changed()
                }
            }),
    {
        let layer_rectangles = Self::generate_layers(data_size, max_level);
        let res = ClipmapTracker { layer_rectangles, data_size, forced_update: false };
        proof {
            let exp = (log2(data_size as nat) - 10) as nat;
            vstd::arithmetic::div_mod::lemma_mod_multiples_basic((4 * pow2(exp)) as int, 256);
            assert forall|i: int, j: int| 0 <= i < j < res.spec_layers().len() implies
                nested(#[trigger] res.spec_layers()[i].spec_rectangle(), #[trigger] res.spec_layers()[j].spec_rectangle()) by {
                lemma_layer_sizes_ordered(exp, max_level as nat, i, j);
            }
            assert forall|i: int| 0 <= i < res.spec_layers().len() implies
                placed(#[trigger] res.spec_layers()[i].spec_rectangle(), res.spec_data_size()) by {
                assert(placed(res.layer_rectangles@[i].spec_rectangle(), data_size as nat));
            }
        }
        res
    }

    /// Size of the reduced data behind every level: the full map reduced so
    /// that the level rectangle becomes `CLIPMAP_SIZE` points wide.
    pub fn data_view_sizes(&self) -> (res: Vec<u32>)
        requires
            self.wf(),
        ensures
            res@.len() == self.spec_layers().len(),
            forall|i: int| 0 <= i < res@.len() ==> #[trigger] res@[i]
                == self.spec_data_size() / (self.spec_layers()[i].spec_rectangle().size.x as nat) * CLIPMAP_SIZE,
    {
        let mut res: Vec<u32> = Vec::new();
        let mut i: usize = 0;
        while i < self.layer_rectangles.len()
            invariant
                self.wf(),
                0 <= i <= self.layer_rectangles@.len(),
                res@.len() == i,
                forall|j: int| 0 <= j < i ==> #[trigger] res@[j]
                    == self.spec_data_size() / (self.spec_layers()[j].spec_rectangle().size.x as nat) * CLIPMAP_SIZE,
            decreases self.layer_rectangles@.len() - i,
        {
            let size = self.layer_rectangles[i].rectangle.size.x;
            proof {
                assert(placed(self.spec_layers()[i as int].spec_rectangle(), self.spec_data_size()));
                assert(placed(self.layer_rectangles@[i as int].rectangle, self.data_size as nat));
                let ds = self.data_size as int;
                let sz = size as int;
                vstd::arithmetic::div_mod::lemma_div_is_ordered(0, ds, sz);
                assert(ds / sz <= ds / 1024) by {
                    vstd::arithmetic::div_mod::lemma_div_is_ordered_by_denominator(ds, 1024, sz);
                }
                assert((ds / 1024) * 1024 <= ds) by {
                    vstd::arithmetic::div_mod::lemma_fundamental_div_mod(ds, 1024);
                }
                assert((ds / sz) * 1024 <= (ds / 1024) * 1024) by (nonlinear_arith)
                    requires ds / sz <= ds / 1024;
            }
            res.push(self.data_size / size * CLIPMAP_SIZE);
            i = i + 1;
        }
        res
    }

    /// The rectangles of all levels.
    pub fn rectangles(&self) -> (res: Vec<Rectangle>)
        ensures
            res@.len() == self.spec_layers().len(),
            forall|i: int| 0 <= i < res@.len() ==> #[trigger] res@[i] == self.spec_layers()[i].spec_rectangle(),
    {
        let mut res: Vec<Rectangle> = Vec::new();
        let mut i: usize = 0;
        while i < self.layer_rectangles.len()
            invariant
                0 <= i <= self.layer_rectangles@.len(),
                res@.len() == i,
                forall|j: int| 0 <= j < i ==> #[trigger] res@[j] == self.spec_layers()[j].spec_rectangle(),
            decreases self.layer_rectangles@.len() - i,
        {
            res.push(self.layer_rectangles[i].rectangle);
            i = i + 1;
        }
        res
    }

    /// Requests that the next update marks every level as changed.
    pub fn force_update(&mut self)
        ensures
            final(self).spec_forced_update(),
            final(self).spec_layers() == old(self).spec_layers(),
            final(self).spec_data_size() == old(self).spec_data_size(),
    {
        self.forced_update = true;
    }

    /// The next update marks every level as changed.
    pub fn is_update_forced(&self) -> (res: bool)
        ensures
            res == self.spec_forced_update(),
    {
        self.forced_update
    }

    pub fn layers(&self) -> (res: &Vec<LayerRectangle>)
        ensures
            res@ == self.spec_layers(),
    {
        &self.layer_rectangles
    }

    pub fn level_count(&self) -> (res: u8)
        requires
            self.wf(),
        ensures
            res == self.spec_layers().len(),
    {
        self.layer_rectangles.len() as u8
    }

    pub fn datasource_size(&self) -> (res: u32)
        ensures
            res == self.spec_data_size(),
    {
        self.data_size
    }

    /// Lower left corner of the window of `size` points around `pos` (one
    /// coordinate), snapped to the granularity and kept inside the map.
    fn window_start_exec(pos: u32, size: u32, data_size: u32) -> (res: u32)
        requires
            data_size % CLIPMAP_GRANULARITY == 0,
            (size as int) % (2 * CLIPMAP_GRANULARITY as int) == 0,
            size <= data_size,
        ensures
            res == window_start(pos as nat, size as nat, data_size as nat),
            res % CLIPMAP_GRANULARITY == 0,
            res + size <= data_size,
    {
        let g = CLIPMAP_GRANULARITY;
        let data_max = data_size / g;
        let half = size / g / 2;
        let ghost ds = data_size as int;
        let ghost sz = size as int;
        proof {
            vstd::arithmetic::div_mod::lemma_fundamental_div_mod(ds, 256);
            vstd::arithmetic::div_mod::lemma_fundamental_div_mod(sz, 512);
            let k = sz / 512;
            assert(sz == 512 * k);
            assert(sz / 256 == 2 * k) by {
                assert(sz == (2 * k) * 256);
                vstd::arithmetic::div_mod::lemma_div_multiples_vanish(2 * k, 256);
            }
            assert(half == k);
            assert(data_max * 256 == ds);
            assert(2 * half * 256 == sz);
            assert(2 * half <= data_max) by (nonlinear_arith)
                requires 2 * half * 256 == sz, data_max * 256 == ds, sz <= ds;
        }
        let p = pos / g;
        let lower = if p < half { half } else { p };
        let clipped = if lower < data_max - half { lower } else { data_max - half };
        let res = (clipped - half) * g;
        proof {
            assert(clipped >= half);
            assert((clipped - half) * 256 + sz <= ds) by (nonlinear_arith)
                requires clipped <= data_max - half, 2 * half * 256 == sz, data_max * 256 == ds, clipped >= half;
            vstd::arithmetic::div_mod::lemma_mod_multiples_basic((clipped - half) as int, 256);
        }
        res
    }

    /// Moves every level rectangle to the window around the map position
    /// `pos` (snapped to the granularity, kept inside the map). A level is
    /// marked as changed if its position moved or an update was forced;
    /// returns whether any level changed. The forced flag is cleared.
    pub fn update(&mut self, pos: UVec2) -> (res: bool)
        requires
            old(self).wf(),
        ensures
            final(self).wf(),
            final(self).spec_data_size() == old(self).spec_data_size(),
            !final(self).spec_forced_update(),
            final(self).spec_layers().len() == old(self).spec_layers().len(),
            forall|i: int| 0 <= i < old(self).spec_layers().len() ==> {
                let before = old(self).spec_layers()[i].spec_rectangle();
                let after = (#[trigger] final(self).spec_layers()[i]).spec_rectangle();
                let ds = old(self).spec_data_size();
                &&& after.size == before.size
                &&& after.pos == UVec2 {
                    x: window_start(pos.x as nat, before.size.x as nat, ds) as u32,
                    y: window_start(pos.y as nat, before.size.y as nat, ds) as u32,
                }
                &&& final(self).spec_layers()[i].spec_changed() == (after.pos != before.pos
                    || old(self).spec_forced_update())
            },
            res == exists|i: int| 0 <= i < final(self).spec_layers().len()
                && (#[trigger] final(self).spec_layers()[i]).spec_changed(),
    {
        let mut changed = false;
        let mut i: usize = 0;
        let ghost layers0 = self.layer_rectangles@;
        while i < self.layer_rectangles.len()
            invariant
                0 <= i <= self.layer_rectangles@.len(),
                self.layer_rectangles@.len() == layers0.len(),
                layers0 == old(self).layer_rectangles@,
                self.data_size == old(self).data_size,
                self.forced_update == old(self).forced_update,
                old(self).wf(),
                forall|j: int| i <= j < layers0.len() ==> #[trigger] self.layer_rectangles@[j] == layers0[j],
                forall|j: int| 0 <= j < i ==> {
                    let before = layers0[j].spec_rectangle();
                    let after = (#[trigger] self.layer_rectangles@[j]).spec_rectangle();
                    let ds = old(self).spec_data_size();
                    &&& after.size == before.size
                    &&& after.pos == UVec2 {
                        x: window_start(pos.x as nat, before.size.x as nat, ds) as u32,
                        y: window_start(pos.y as nat, before.size.y as nat, ds) as u32,
                    }
                    &&& self.layer_rectangles@[j].spec_changed() == (after.pos != before.pos
                        || old(self).spec_forced_update())
                    &&& placed(after, ds)
                },
                changed == exists|j: int| 0 <= j < i && (#[trigger] self.layer_rectangles@[j]).spec_changed(),
            decreases layers0.len() - i,
        {
            let mut layer = self.layer_rectangles[i];
            proof {
                assert(placed(old(self).spec_layers()[i as int].spec_rectangle(), old(self).spec_data_size()));
                assert(placed(layers0[i as int].rectangle, self.data_size as nat));
            }
            let size = layer.rectangle.size.x;
            let x = Self::window_start_exec(pos.x, size, self.data_size);
            let y = Self::window_start_exec(pos.y, size, self.data_size);
            let pos_min = UVec2 { x, y };
            if layer.rectangle.pos != pos_min {
                layer.rectangle.pos = pos_min;
                layer.changed = true;
                changed = true;
            } else {
                layer.changed = false;
            }
            layer.changed = layer.changed || self.forced_update;
            changed = changed || self.forced_update;
            let ghost before_set = self.layer_rectangles@;
            self.layer_rectangles.set(i, layer);
            proof {
                assert(self.layer_rectangles@[i as int] == layer);
                if changed {
                    if layer.changed {
                        assert(self.layer_rectangles@[i as int].spec_changed());
                    } else {
                        let j = choose|j: int| 0 <= j < i && (#[trigger] before_set[j]).spec_changed();
                        assert(self.layer_rectangles@[j].spec_changed());
                    }
                }
                if exists|j: int| 0 <= j < i + 1 && (#[trigger] self.layer_rectangles@[j]).spec_changed() {
                    let j = choose|j: int| 0 <= j < i + 1 && (#[trigger] self.layer_rectangles@[j]).spec_changed();
                    if j < i {
                        assert(before_set[j].spec_changed());
                    }
                }
            }
            i = i + 1;
        }
        self.forced_update = false;
        proof {
            assert forall|j: int| 0 <= j < layers0.len() implies placed(#[trigger] layers0[j].rectangle, self.data_size as nat) by {
                assert(placed(old(self).spec_layers()[j].spec_rectangle(), old(self).spec_data_size()));
            }
            assert forall|a: int, b: int| 0 <= a < b < layers0.len() implies
                nested(#[trigger] layers0[a].rectangle, #[trigger] layers0[b].rectangle) by {
                assert(nested(old(self).spec_layers()[a].spec_rectangle(), old(self).spec_layers()[b].spec_rectangle()));
            }
            lemma_windows_nested(layers0, self.layer_rectangles@, pos, self.data_size as nat);
            assert forall|a: int, b: int| 0 <= a < b < self.spec_layers().len() implies
                nested(#[trigger] self.spec_layers()[a].spec_rectangle(), #[trigger] self.spec_layers()[b].spec_rectangle()) by {
                assert(nested(self.layer_rectangles@[a].rectangle, self.layer_rectangles@[b].rectangle));
            }
            assert forall|a: int| 0 <= a < self.spec_layers().len() implies
                placed(#[trigger] self.spec_layers()[a].spec_rectangle(), self.spec_data_size()) by {
                assert(placed(self.layer_rectangles@[a].rectangle, self.data_size as nat));
            }
            if changed {
                let j = choose|j: int| 0 <= j < i && (#[trigger] self.layer_rectangles@[j]).spec_changed();
                assert(self.spec_layers()[j].spec_changed());
            } else {
                assert forall|j: int| 0 <= j < self.spec_layers().len() implies
                    !(#[trigger] self.spec_layers()[j]).spec_changed() by {
                    assert(!self.layer_rectangles@[j].spec_changed());
                }
            }
        }
        changed
    }

    /// The highest resolution level whose rectangle, like the rectangles of
    /// all levels after it (except the last, which covers the whole map),
    /// covers the map positions `[min, max[`.
    pub fn map_to_level(&self, min: UVec2, max: UVec2) -> (res: u8)
        requires
            self.wf(),
        ensures
            0 <= res < self.spec_layers().len(),
            forall|j: int| res <= j < self.spec_layers().len() - 1 ==>
                spec_covers(#[trigger] self.spec_layers()[j].spec_rectangle(), min, max),
            res > 0 ==> !spec_covers(self.spec_layers()[res - 1].spec_rectangle(), min, max),
            res < self.spec_layers().len() - 1 ==> {
                let r = self.spec_layers()[res as int].spec_rectangle();
                &&& r.pos.x <= min.x
                &&& r.pos.y <= min.y
                &&& max.x <= r.pos.x + r.size.x
                &&& max.y <= r.pos.y + r.size.y
            },
    {
        let len = self.layer_rectangles.len();
        let mut result: u8 = (len - 1) as u8;
        let mut i: usize = len - 1;
        while i > 0
            invariant
                self.wf(),
                len == self.layer_rectangles@.len(),
                0 <= i <= len - 1,
                result == i,
                forall|j: int| result <= j < len - 1 ==>
                    spec_covers(#[trigger] self.spec_layers()[j].spec_rectangle(), min, max),
            decreases i,
        {
            let layer = &self.layer_rectangles[i - 1];
            proof {
                assert(placed(self.spec_layers()[i - 1].spec_rectangle(), self.spec_data_size()));
                assert(placed(self.layer_rectangles@[i - 1].rectangle, self.data_size as nat));
            }
            if layer.rectangle.covers(min, max) {
                result = (i - 1) as u8;
            } else {
                return result;
            }
            i = i - 1;
        }
        result
    }

    /// 2^e for small exponents.
    fn power_of_two(e: u32) -> (p: u32)
        requires
            e < 32,
        ensures
            p == pow2(e as nat),
    {
        let mut p: u32 = 1;
        let mut j: u32 = 0;
        proof {
            vstd::arithmetic::power2::lemma2_to64();
        }
        while j < e
            invariant
                j <= e,
                e < 32,
                p == pow2(j as nat),
            decreases e - j,
        {
            proof {
                vstd::arithmetic::power2::lemma_pow2_unfold((j + 1) as nat);
                vstd::arithmetic::power2::lemma_pow2_strictly_increases((j + 1) as nat, 32);
                vstd::arithmetic::power2::lemma2_to64();
            }
            p = p * 2;
            j = j + 1;
        }
        p
    }
}

} // verus!
