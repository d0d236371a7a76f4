//! Full resolution clipmap data with views of rectangles of it and optional
//! cached lower resolution levels.
use vstd::prelude::*;

use crate::config::CLIPMAP_SIZE;

verus! {

/// Unsigned 2d vector (position or size in data points).
#[derive(Clone, Copy, Debug, Default, PartialEq, Eq, Structural)]
pub struct UVec2 {
    pub x: u32,
    pub y: u32,
}

/// Axis aligned rectangle of data points.
#[derive(Clone, Copy, Debug, Default, PartialEq, Eq, Structural)]
pub struct Rectangle {
    pub pos: UVec2,
    pub size: UVec2,
}

/// Element `col` of row `row` in a sequence of rows of `stride` elements.
pub open spec fn grid_at<T>(s: Seq<T>, stride: int, row: int, col: int) -> T {
    s[row * stride + col]
}

/// Element `col` of row `row` of a window that starts at `start` inside a
/// sequence of rows of `stride` elements.
pub open spec fn window_at<T>(s: Seq<T>, start: int, stride: int, row: int, col: int) -> T {
    s[start + row * stride + col]
}

/// Index `idx` lies in the window of `rows` rows of `line` elements that
/// starts at `start` inside rows of `stride` elements.
pub open spec fn in_window(idx: int, start: int, stride: int, line: int, rows: int) -> bool {
    &&& start <= idx
    &&& (idx - start) / stride < rows
    &&& (idx - start) % stride < line
}

/// Offset of the first value of point (x, y) in a square grid of `size`
/// points per row with `dp` values per point.
pub open spec fn point_offset(dp: int, size: int, x: int, y: int) -> int {
    dp * (y * size + x)
}

/// `res` holds the rows of rectangle `r` cut out of `src`, a square grid of
/// `src_size` points per row with `dp` values per point, row after row.
pub open spec fn is_extract_of<T>(res: Seq<T>, src: Seq<T>, src_size: int, dp: int, r: Rectangle) -> bool {
    let line = dp * r.size.x;
    let start = point_offset(dp, src_size, r.pos.x as int, r.pos.y as int);
    &&& res.len() == line * r.size.y
    &&& forall|row: int, col: int| 0 <= row < r.size.y && 0 <= col < line ==>
        #[trigger] grid_at(res, line, row, col) == window_at(src, start, dp * src_size, row, col)
}

/// Where a rows-of-`stride` position `idx` lies relative to `start`.
proof fn lemma_window_position(idx: int, start: int, stride: int, row: int, col: int)
    requires
        stride > 0,
        0 <= col < stride,
        idx == start + row * stride + col,
    ensures
        (idx - start) / stride == row,
        (idx - start) % stride == col,
{
    vstd::arithmetic::div_mod::lemma_fundamental_div_mod_converse(idx - start, stride, row, col);
}

/// `after` holds the data of `before` with the rows of rectangle `r`
/// overwritten by `new_data` (row after row); nothing else differs.
pub open spec fn is_fullres_update<T: Copy>(before: Clipmap<T>, after: Clipmap<T>, r: Rectangle, new_data: Seq<T>) -> bool {
    let dp = before.spec_datapoint_size();
    let ds = before.spec_data_size();
    let line = dp * r.size.x;
    let stride = dp * ds;
    let start = point_offset(dp, ds, r.pos.x as int, r.pos.y as int);
    &&& after.spec_datapoint_size() == dp
    &&& after.spec_data_size() == ds
    &&& after.spec_data().len() == before.spec_data().len()
    &&& forall|row: int, col: int| 0 <= row < r.size.y && 0 <= col < line ==>
        #[trigger] window_at(after.spec_data(), start, stride, row, col) == grid_at(new_data, line, row, col)
    &&& forall|idx: int| 0 <= idx < before.spec_data().len() && !in_window(idx, start, stride, line, r.size.y as int) ==>
        #[trigger] after.spec_data()[idx] == before.spec_data()[idx]
}

/// A clipmap: full resolution data of a square map (`data_size` points per
/// edge, `datapoint_size` values per point) and the data sizes of all levels.
pub struct Clipmap<T> {
    label: String,
    data: Vec<T>,
    datapoint_size: u32,
    data_size: u32,
    layer_sizes: Vec<u32>,
    cache: Vec<Vec<T>>,
}

/// Where the data of a clipmap level comes from.
pub enum LayerData<T> {
    /// The rectangle, cut out of full resolution data or a cached level.
    Extracted(Vec<T>),
    /// The level must be downscaled from full resolution data (the square
    /// at `x`, `y` with `size` points per edge).
    Downscale { x: u32, y: u32, size: u32 },
}

impl<T: Copy> Clipmap<T> {
    pub closed spec fn spec_data(self) -> Seq<T> {
        self.data@
    }

    pub closed spec fn spec_label(self) -> Seq<char> {
        self.label@
    }

    pub closed spec fn spec_datapoint_size(self) -> int {
        self.datapoint_size as int
    }

    pub closed spec fn spec_data_size(self) -> int {
        self.data_size as int
    }

    pub closed spec fn spec_layer_sizes(self) -> Seq<u32> {
        self.layer_sizes@
    }

    pub closed spec fn spec_cache(self) -> Seq<Seq<T>> {
        self.cache@.map_values(|c: Vec<T>| c@)
    }

    /// The data fits the map size, level sizes are positive and at most the
    /// full size, and a present cache holds one level per reduced size.
    pub closed spec fn wf(self) -> bool {
        let dp = self.datapoint_size as int;
        let ds = self.data_size as int;
        &&& self.data@.len() == dp * (ds * ds)
        &&& dp * ((ds + 1) * ds) <= usize::MAX
        &&& ds * ds <= u32::MAX
        &&& self.layer_sizes@.len() > 0 ==> self.layer_sizes@[0] == ds
        &&& forall|i: int| 0 <= i < self.layer_sizes@.len() ==> 0 < #[trigger] self.layer_sizes@[i] <= ds
            && ds % (self.layer_sizes@[i] as int) == 0
        &&& self.cache@.len() == 0 || self.cache@.len() + 1 == self.layer_sizes@.len()
        &&& forall|i: int| 0 <= i < self.cache@.len() ==>
            (#[trigger] self.cache@[i])@.len() == dp * (self.layer_sizes@[i + 1] * self.layer_sizes@[i + 1])
    }

    /// An uninitialized clipmap without data.
    pub fn empty(datapoint_size: u32) -> (res: Clipmap<T>)
        ensures
            res.wf(),
            res.spec_data_size() == 0,
            res.spec_data() == Seq::<T>::empty(),
            res.spec_layer_sizes() == Seq::<u32>::empty(),
            res.spec_cache() == Seq::<Seq<T>>::empty(),
            res.spec_datapoint_size() == datapoint_size,
            res.spec_label() == "uninitialized"@,
    {
        assert(datapoint_size * (0 * 0) == 0) by (nonlinear_arith);
        let res = Clipmap {
            label: String::from_str("uninitialized"),
            data: Vec::new(),
            datapoint_size,
            data_size: 0,
            layer_sizes: Vec::new(),
            cache: Vec::new(),
        };
        assert(res.cache@.map_values(|c: Vec<T>| c@) =~= Seq::<Seq<T>>::empty());
        res
    }

    /// A clipmap over `data` (`full_size` points per edge) with the data sizes
    /// of all levels. The full size must be a power of two of at least
    /// `CLIPMAP_SIZE`, the first level is full resolution and every level
    /// size divides the one before it.
    pub fn new(label: &str, data: Vec<T>, datapoint_size: u32, full_size: u32, layer_sizes: Vec<u32>) -> (res: Clipmap<T>)
        requires
            vstd::arithmetic::power2::is_pow2(full_size as int),
            full_size >= CLIPMAP_SIZE,
            data@.len() == datapoint_size * (full_size * full_size),
            datapoint_size * ((full_size + 1) * full_size) <= usize::MAX,
            full_size * full_size <= u32::MAX,
            layer_sizes@.len() > 0,
            layer_sizes@[0] == full_size,
            forall|i: int| 0 < i < layer_sizes@.len() ==> #[trigger] layer_sizes@[i] > 0
                && layer_sizes@[i - 1] % layer_sizes@[i] == 0,
        ensures
            res.wf(),
            res.spec_label() == label@,
            res.spec_data() == data@,
            res.spec_data_size() == full_size,
            res.spec_datapoint_size() == datapoint_size,
            res.spec_layer_sizes() == layer_sizes@,
            res.spec_cache() == Seq::<Seq<T>>::empty(),
    {
        proof {
            assert forall|i: int| 0 <= i < layer_sizes@.len() implies 0 < #[trigger] layer_sizes@[i] <= full_size
                && (full_size as int) % (layer_sizes@[i] as int) == 0 by {
                lemma_divisor_chain_bounded(layer_sizes@, i);
            }
        }
        let res = Clipmap {
            label: String::from_str(label),
            data,
            datapoint_size,
            data_size: full_size,
            layer_sizes,
            cache: Vec::new(),
        };
        assert(res.cache@.map_values(|c: Vec<T>| c@) =~= Seq::<Seq<T>>::empty());
        res
    }

    pub fn label(&self) -> (res: &str)
        ensures
            res@ == self.spec_label(),
    {
        self.label.as_str()
    }

    pub fn fullres_data_slice(&self) -> (res: &[T])
        ensures
            res@ == self.spec_data(),
    {
        self.data.as_slice()
    }

    pub fn data_size(&self) -> (res: u32)
        ensures
            res == self.spec_data_size(),
    {
        self.data_size
    }

    pub fn layer_sizes(&self) -> (res: &Vec<u32>)
        ensures
            res@ == self.spec_layer_sizes(),
    {
        &self.layer_sizes
    }

    /// Copies the rows of `rectangle` out of `src` (`src_size` points per
    /// row). The rectangle must lie inside the full map.
    fn extract(&self, src: &Vec<T>, src_size: u32, rectangle: &Rectangle) -> (res: Vec<T>)
        requires
            rectangle.size.x >= 1,
            rectangle.size.y >= 1,
            rectangle.pos.x + rectangle.size.x <= self.spec_data_size(),
            rectangle.pos.y + rectangle.size.y <= self.spec_data_size(),
            rectangle.pos.y * src_size + rectangle.pos.x <= u32::MAX,
            rectangle.size.y * rectangle.size.x <= u32::MAX,
            rectangle.size.x <= src_size,
            self.spec_datapoint_size() * ((rectangle.pos.y + rectangle.size.y) * src_size + rectangle.pos.x) <= usize::MAX,
            self.spec_datapoint_size() * (rectangle.size.y * rectangle.size.x) <= usize::MAX,
            self.spec_datapoint_size() * ((rectangle.pos.y + rectangle.size.y - 1) * src_size
                + rectangle.pos.x + rectangle.size.x) <= src@.len(),
        ensures
            is_extract_of(res@, src@, src_size as int, self.spec_datapoint_size(), *rectangle),
    {
        let datapoint_size = self.datapoint_size as usize;
        let ghost dp = datapoint_size as int;
        let ghost ss = src_size as int;
        let ghost x = rectangle.pos.x as int;
        let ghost y = rectangle.pos.y as int;
        let ghost w = rectangle.size.x as int;
        let ghost h = rectangle.size.y as int;
        proof {
            assert(dp * (ss) <= dp * ((y + h) * ss + x)) by (nonlinear_arith)
                requires dp >= 0, ss >= 0, y >= 0, h >= 1, x >= 0;
            assert(dp * w <= dp * ss) by (nonlinear_arith) requires dp >= 0, w <= ss;
            assert(dp * (y * ss + x) <= dp * ((y + h) * ss + x)) by (nonlinear_arith)
                requires dp >= 0, ss >= 0, h >= 1;
        }
        let src_dataline_size = datapoint_size * src_size as usize;
        let target_dataline_size = datapoint_size * rectangle.size.x as usize;
        let ghost start = point_offset(dp, ss, x, y);
        let ghost stride = src_dataline_size as int;
        let ghost line = target_dataline_size as int;

        let mut result: Vec<T> = Vec::new();
        let mut offset = datapoint_size * (rectangle.pos.y * src_size + rectangle.pos.x) as usize;
        let mut row: u32 = 0;
        while row < rectangle.size.y
            invariant
                0 <= row <= h,
                stride == dp * ss,
                line == dp * w,
                line <= stride,
                start == dp * (y * ss + x),
                offset == start + row * stride,
                dp * ((y + h) * ss + x) <= usize::MAX,
                dp * ((y + h - 1) * ss + x + w) <= src@.len(),
                datapoint_size == dp,
                ss == src_size as int,
                x == rectangle.pos.x as int,
                y == rectangle.pos.y as int,
                src_dataline_size == stride,
                target_dataline_size == line,
                w == rectangle.size.x,
                h == rectangle.size.y,
                result@.len() == row * line,
                forall|r: int, c: int| 0 <= r < row && 0 <= c < line ==>
                    #[trigger] grid_at(result@, line, r, c) == window_at(src@, start, stride, r, c),
            decreases h - row,
        {
            proof {
                assert(offset + line == dp * ((y + row) * ss + x + w)) by (nonlinear_arith)
                    requires offset == start + row * stride, start == dp * (y * ss + x), stride == dp * ss,
                        line == dp * w;
                assert(dp * ((y + row) * ss + x + w) <= dp * ((y + h - 1) * ss + x + w)) by (nonlinear_arith)
                    requires row <= h - 1, dp >= 0, ss >= 0;
                assert(offset + stride <= usize::MAX) by (nonlinear_arith)
                    requires offset == start + row * stride, start == dp * (y * ss + x), stride == dp * ss,
                        row < h, dp >= 0, dp * ((y + h) * ss + x) <= usize::MAX;
            }
            let mut col: usize = 0;
            while col < target_dataline_size
                invariant
                    0 <= col <= line,
                    0 <= row < h,
                    offset + line <= src@.len(),
                    offset + line <= usize::MAX,
                    offset == start + row * stride,
                    target_dataline_size == line,
                    line >= 0,
                    result@.len() == row * line + col,
                    forall|r: int, c: int| 0 <= r < row && 0 <= c < line ==>
                        #[trigger] grid_at(result@, line, r, c) == window_at(src@, start, stride, r, c),
                    forall|c: int| 0 <= c < col ==>
                        #[trigger] grid_at(result@, line, row as int, c) == window_at(src@, start, stride, row as int, c),
                decreases line - col,
            {
                let ghost before = result@;
                result.push(src[offset + col]);
                proof {
                    assert forall|r: int, c: int| 0 <= r < row && 0 <= c < line implies
                        #[trigger] grid_at(result@, line, r, c) == window_at(src@, start, stride, r, c) by {
                        assert(r * line + c < row * line) by (nonlinear_arith) requires r < row, c < line, 0 <= c, 0 <= r;
                        assert(grid_at(before, line, r, c) == window_at(src@, start, stride, r, c));
                    }
                    assert forall|c: int| 0 <= c < col + 1 implies
                        #[trigger] grid_at(result@, line, row as int, c) == window_at(src@, start, stride, row as int, c) by {
                        if c < col {
                            assert(grid_at(before, line, row as int, c) == window_at(src@, start, stride, row as int, c));
                        }
                    }
                }
                col = col + 1;
            }
            offset = offset + src_dataline_size;
            row = row + 1;
            proof {
                assert(result@.len() == row * line) by (nonlinear_arith)
                    requires result@.len() == (row - 1) * line + line;
                assert(offset == start + row * stride) by (nonlinear_arith)
                    requires offset == start + (row - 1) * stride + stride;
            }
        }
        proof {
            assert(line * h == result@.len()) by (nonlinear_arith) requires result@.len() == h * line;
        }
        result
    }

    /// Copies the rows of `rectangle` out of the full resolution data.
    pub fn extract_fullres(&self, rectangle: &Rectangle) -> (res: Vec<T>)
        requires
            self.wf(),
            rectangle.size.x >= 1,
            rectangle.size.y >= 1,
            rectangle.pos.x + rectangle.size.x <= self.spec_data_size(),
            rectangle.pos.y + rectangle.size.y <= self.spec_data_size(),
        ensures
            is_extract_of(res@, self.spec_data(), self.spec_data_size(), self.spec_datapoint_size(), *rectangle),
    {
        proof { self.lemma_fullres_rect_bounds(*rectangle); }
        self.extract(&self.data, self.data_size, rectangle)
    }

    /// Overwrites the rows of `rectangle` in the full resolution data with
    /// `new_data` (row after row); all other data stays as it was.
    pub fn update_fullres(&mut self, rectangle: &Rectangle, new_data: &[T])
        requires
            old(self).wf(),
            rectangle.size.x >= 1,
            rectangle.size.y >= 1,
            rectangle.pos.x + rectangle.size.x <= old(self).spec_data_size(),
            rectangle.pos.y + rectangle.size.y <= old(self).spec_data_size(),
            old(self).spec_datapoint_size() * (rectangle.size.x * rectangle.size.y) == new_data@.len(),
        ensures
            final(self).wf(),
            final(self).spec_label() == old(self).spec_label(),
            final(self).spec_data_size() == old(self).spec_data_size(),
            final(self).spec_datapoint_size() == old(self).spec_datapoint_size(),
            final(self).spec_layer_sizes() == old(self).spec_layer_sizes(),
            final(self).spec_cache() == old(self).spec_cache(),
            is_fullres_update(*old(self), *final(self), *rectangle, new_data@),
    {
        proof { self.lemma_fullres_rect_bounds(*rectangle); }
        let ghost dp = self.datapoint_size as int;
        let ghost ds = self.data_size as int;
        let ghost x = rectangle.pos.x as int;
        let ghost y = rectangle.pos.y as int;
        let ghost w = rectangle.size.x as int;
        let ghost h = rectangle.size.y as int;
        let ghost data0 = self.data@;
        let datapoint_size = self.datapoint_size as usize;
        proof {
            assert(dp * w <= dp * ds) by (nonlinear_arith) requires dp >= 0, w <= ds;
            assert(dp * ds <= dp * ((y + h) * ds + x)) by (nonlinear_arith)
                requires dp >= 0, ds >= 0, y >= 0, h >= 1, x >= 0;
            assert(dp * (y * ds + x) <= dp * ((y + h) * ds + x)) by (nonlinear_arith)
                requires dp >= 0, ds >= 0, h >= 1;
            assert(dp * (w * h) == (dp * w) * h) by (nonlinear_arith);
            assert(dp * (w * h) <= dp * (ds * ds)) by (nonlinear_arith)
                requires dp >= 0, w <= ds, h <= ds, w >= 0, h >= 0;
            assert(dp * (ds * ds) <= dp * ((ds + 1) * ds)) by (nonlinear_arith) requires dp >= 0, ds >= 0;
        }
        let target_dataline_size = datapoint_size * self.data_size as usize;
        let src_dataline_size = datapoint_size * rectangle.size.x as usize;
        let ghost stride = target_dataline_size as int;
        let ghost line = src_dataline_size as int;
        let ghost start = point_offset(dp, ds, x, y);
        assert(start >= 0) by (nonlinear_arith) requires start == dp * (y * ds + x), dp >= 0, y >= 0, ds >= 0, x >= 0;
        let mut target_offset = datapoint_size * (rectangle.pos.y * self.data_size + rectangle.pos.x) as usize;
        let mut src_offset: usize = 0;
        let mut row: u32 = 0;
        while row < rectangle.size.y
            invariant
                0 <= row <= h,
                h == rectangle.size.y,
                w == rectangle.size.x,
                x == rectangle.pos.x,
                y == rectangle.pos.y,
                dp == datapoint_size,
                ds == self.data_size,
                datapoint_size == self.datapoint_size,
                stride == dp * ds,
                line == dp * w,
                line <= stride,
                stride > 0 || line == 0,
                start == dp * (y * ds + x),
                start >= 0,
                target_dataline_size == stride,
                src_dataline_size == line,
                target_offset == start + row * stride,
                src_offset == row * line,
                line * h <= new_data@.len(),
                line * h <= usize::MAX,
                dp * ((y + h) * ds + x) <= usize::MAX,
                self.data@.len() == data0.len(),
                data0.len() == dp * (ds * ds),
                y + h <= ds,
                x + w <= ds,
                forall|r: int, c: int| 0 <= r < row && 0 <= c < line ==>
                    #[trigger] window_at(self.data@, start, stride, r, c) == grid_at(new_data@, line, r, c),
                forall|idx: int| 0 <= idx < data0.len() && !in_window(idx, start, stride, line, row as int) ==>
                    #[trigger] self.data@[idx] == data0[idx],
                self.label == old(self).label,
                self.layer_sizes == old(self).layer_sizes,
                self.cache == old(self).cache,
            decreases h - row,
        {
            proof {
                assert(target_offset + line == dp * ((y + row) * ds + x + w)) by (nonlinear_arith)
                    requires target_offset == start + row * stride, start == dp * (y * ds + x),
                        stride == dp * ds, line == dp * w;
                assert(dp * ((y + row) * ds + x + w) <= dp * (ds * ds)) by (nonlinear_arith)
                    requires row < h, y + h <= ds, x + w <= ds, dp >= 0, x >= 0, y >= 0, w >= 0;
                assert(target_offset + stride <= usize::MAX) by (nonlinear_arith)
                    requires target_offset == start + row * stride, start == dp * (y * ds + x), stride == dp * ds,
                        row < h, dp >= 0, dp * ((y + h) * ds + x) <= usize::MAX;
                assert(src_offset + line <= line * h) by (nonlinear_arith)
                    requires src_offset == row * line, row < h, line >= 0;
                assert(dp * (ds * ds) <= dp * ((ds + 1) * ds)) by (nonlinear_arith) requires dp >= 0, ds >= 0;
            }
            let ghost data_row = self.data@;
            let mut col: usize = 0;
            while col < src_dataline_size
                invariant
                    0 <= col <= line,
                    0 <= row < h,
                    src_dataline_size == line,
                    line <= stride,
                    stride > 0 || line == 0,
                    target_offset == start + row * stride,
                    start >= 0,
                    target_offset + line <= data0.len(),
                    src_offset + line <= new_data@.len(),
                    src_offset == row * line,
                    target_offset + line <= usize::MAX,
                    src_offset + line <= usize::MAX,
                    ds == self.data_size,
                    datapoint_size == self.datapoint_size,
                    self.data@.len() == data0.len(),
                    forall|r: int, c: int| 0 <= r < row && 0 <= c < line ==>
                        #[trigger] window_at(self.data@, start, stride, r, c) == grid_at(new_data@, line, r, c),
                    forall|c: int| 0 <= c < col ==>
                        #[trigger] window_at(self.data@, start, stride, row as int, c) == grid_at(new_data@, line, row as int, c),
                    forall|idx: int| 0 <= idx < data0.len() && !in_window(idx, start, stride, line, row as int)
                        && !(start <= idx && (idx - start) / stride == row && (idx - start) % stride < col) ==>
                        #[trigger] self.data@[idx] == data0[idx],
                    self.label == old(self).label,
                    self.layer_sizes == old(self).layer_sizes,
                    self.cache == old(self).cache,
                decreases line - col,
            {
                let ghost before = self.data@;
                let value = new_data[src_offset + col];
                self.data.set(target_offset + col, value);
                proof {
                    let p = target_offset + col;
                    lemma_window_position(p, start, stride, row as int, col as int);
                    assert forall|r: int, c: int| 0 <= r < row && 0 <= c < line implies
                        #[trigger] window_at(self.data@, start, stride, r, c) == grid_at(new_data@, line, r, c) by {
                        assert(stride > 0);
                        let q = start + r * stride + c;
                        lemma_window_position(q, start, stride, r, c);
                        assert(q != p);
                        assert(r * stride + c < row * stride) by (nonlinear_arith)
                            requires r < row, 0 <= c < stride, 0 <= r;
                        assert(0 <= r * stride) by (nonlinear_arith) requires 0 <= r, 0 <= stride;
                        assert(0 <= q < before.len());
                        assert(window_at(before, start, stride, r, c) == grid_at(new_data@, line, r, c));
                        assert(before[q] == grid_at(new_data@, line, r, c));
                        assert(self.data@ == before.update(p, value));
                        assert(self.data@[q] == before[q]);
                    }
                    assert forall|c: int| 0 <= c < col + 1 implies
                        #[trigger] window_at(self.data@, start, stride, row as int, c) == grid_at(new_data@, line, row as int, c) by {
                        if c < col {
                            lemma_window_position(start + row * stride + c, start, stride, row as int, c);
                            assert(window_at(before, start, stride, row as int, c) == grid_at(new_data@, line, row as int, c));
                        } else {
                            assert(src_offset + col == row * line + c);
                        }
                    }
                    assert forall|idx: int| 0 <= idx < data0.len() && !in_window(idx, start, stride, line, row as int)
                        && !(start <= idx && (idx - start) / stride == row && (idx - start) % stride < col + 1) implies
                        #[trigger] self.data@[idx] == data0[idx] by {
                        assert(idx != p);
                        assert(before[idx] == data0[idx]);
                    }
                }
                col = col + 1;
            }
            proof {
                assert forall|idx: int| 0 <= idx < data0.len() && !in_window(idx, start, stride, line, row + 1) implies
                    #[trigger] self.data@[idx] == data0[idx] by {
                    if !in_window(idx, start, stride, line, row as int)
                        && !(start <= idx && (idx - start) / stride == row && (idx - start) % stride < col) {
                    } else {
                        assert(false);
                    }
                }
            }
            target_offset = target_offset + target_dataline_size;
            src_offset = src_offset + src_dataline_size;
            row = row + 1;
            proof {
                assert(target_offset == start + row * stride) by (nonlinear_arith)
                    requires target_offset == start + (row - 1) * stride + stride;
                assert(src_offset == row * line) by (nonlinear_arith)
                    requires src_offset == (row - 1) * line + line;
            }
        }
    }

    /// Drops the cached levels.
    pub fn disable_cache(&mut self)
        requires
            old(self).wf(),
        ensures
            final(self).wf(),
            final(self).spec_cache() == Seq::<Seq<T>>::empty(),
            final(self).spec_data() == old(self).spec_data(),
            final(self).spec_label() == old(self).spec_label(),
            final(self).spec_data_size() == old(self).spec_data_size(),
            final(self).spec_datapoint_size() == old(self).spec_datapoint_size(),
            final(self).spec_layer_sizes() == old(self).spec_layer_sizes(),
    {
        if self.cache.len() > 0 {
            self.cache = Vec::new();
        }
        assert(self.cache@.map_values(|c: Vec<T>| c@) =~= Seq::<Seq<T>>::empty());
    }

    /// The cached levels are missing and there is data to build them from.
    pub fn needs_cache(&self) -> (res: bool)
        ensures
            res == (self.spec_cache().len() == 0 && self.spec_data_size() > 0),
    {
        self.cache.len() == 0 && self.data_size > 0
    }

    /// Stores the reduced levels (every level after the first, each with
    /// `datapoint_size` values for each of its points).
    pub fn set_cache(&mut self, levels: Vec<Vec<T>>)
        requires
            old(self).wf(),
            levels@.len() + 1 == old(self).spec_layer_sizes().len(),
            forall|i: int| 0 <= i < levels@.len() ==> (#[trigger] levels@[i])@.len()
                == old(self).spec_datapoint_size() * (old(self).spec_layer_sizes()[i + 1] * old(self).spec_layer_sizes()[i + 1]),
        ensures
            final(self).wf(),
            final(self).spec_cache() == levels@.map_values(|c: Vec<T>| c@),
            final(self).spec_data() == old(self).spec_data(),
            final(self).spec_label() == old(self).spec_label(),
            final(self).spec_data_size() == old(self).spec_data_size(),
            final(self).spec_datapoint_size() == old(self).spec_datapoint_size(),
            final(self).spec_layer_sizes() == old(self).spec_layer_sizes(),
    {
        self.cache = levels;
    }

    /// The data of clipmap level `level` for the full resolution `rectangle`:
    /// level 0 is cut out of the full resolution data, a cached level is cut
    /// out of its cache with the rectangle scaled down to the level size, and
    /// any other level must be downscaled from the full resolution data.
    pub fn generate_layer(&self, level: usize, rectangle: &Rectangle) -> (res: LayerData<T>)
        requires
            self.wf(),
            rectangle.size.x >= 1,
            rectangle.size.y >= 1,
            rectangle.pos.x + rectangle.size.x <= self.spec_data_size(),
            rectangle.pos.y + rectangle.size.y <= self.spec_data_size(),
            0 < level <= self.spec_cache().len() ==> {
                let scale = self.spec_data_size() / (self.spec_layer_sizes()[level as int] as int);
                rectangle.size.x >= scale && rectangle.size.y >= scale
            },
        ensures
            level == 0 ==> (res matches LayerData::Extracted(v) && is_extract_of(
                v@, self.spec_data(), self.spec_data_size(), self.spec_datapoint_size(), *rectangle)),
            0 < level <= self.spec_cache().len() ==> {
                let level_size = self.spec_layer_sizes()[level as int] as int;
                let scale = self.spec_data_size() / level_size;
                let scaled = Rectangle {
                    pos: UVec2 { x: ((rectangle.pos.x as int) / scale) as u32, y: ((rectangle.pos.y as int) / scale) as u32 },
                    size: UVec2 { x: ((rectangle.size.x as int) / scale) as u32, y: ((rectangle.size.y as int) / scale) as u32 },
                };
                (res matches LayerData::Extracted(v) && is_extract_of(
                    v@, self.spec_cache()[level - 1], level_size, self.spec_datapoint_size(), scaled))
            },
            level > self.spec_cache().len() ==> res == (LayerData::<T>::Downscale {
                x: rectangle.pos.x,
                y: rectangle.pos.y,
                size: rectangle.size.x,
            }),
    {
        if level == 0 {
            proof { self.lemma_fullres_rect_bounds(*rectangle); }
            LayerData::Extracted(self.extract(&self.data, self.data_size, rectangle))
        } else if level - 1 < self.cache.len() {
            let level_size = self.layer_sizes[level];
            let scale = self.data_size / level_size;
            let ghost dp = self.datapoint_size as int;
            let ghost ds = self.data_size as int;
            let ghost ls = level_size as int;
            proof {
                lemma_scaled_span(rectangle.pos.x as int, rectangle.size.x as int, ds, ls);
                lemma_scaled_span(rectangle.pos.y as int, rectangle.size.y as int, ds, ls);
            }
            let scaled = Rectangle {
                pos: UVec2 { x: rectangle.pos.x / scale, y: rectangle.pos.y / scale },
                size: UVec2 { x: rectangle.size.x / scale, y: rectangle.size.y / scale },
            };
            let ghost sx = scaled.pos.x as int;
            let ghost sy = scaled.pos.y as int;
            let ghost sw = scaled.size.x as int;
            let ghost sh = scaled.size.y as int;
            proof {
                vstd::arithmetic::div_mod::lemma_div_is_ordered(scale as int, rectangle.size.x as int, scale as int);
                vstd::arithmetic::div_mod::lemma_div_is_ordered(scale as int, rectangle.size.y as int, scale as int);
                vstd::arithmetic::div_mod::lemma_div_basics(scale as int);
                assert(sw >= 1 && sh >= 1);
                assert(sx + sw <= ls && sy + sh <= ls);
                assert(sy * ls + sx <= ls * ls) by (nonlinear_arith)
                    requires sy + sh <= ls, sx + sw <= ls, sh >= 1, sw >= 1, sy >= 0, sx >= 0;
                assert(ls * ls <= ds * ds) by (nonlinear_arith) requires 0 < ls <= ds;
                assert(sh * sw <= ls * ls) by (nonlinear_arith)
                    requires sy + sh <= ls, sx + sw <= ls, sy >= 0, sx >= 0, sh >= 0, sw >= 0;
                assert(dp * ((sy + sh) * ls + sx) <= dp * ((ds + 1) * ds)) by (nonlinear_arith)
                    requires sy + sh <= ls, sx + sw <= ls, sw >= 1, dp >= 0, sx >= 0, sy >= 0, ls <= ds, ls >= 0;
                assert(dp * (sh * sw) <= dp * ((ds + 1) * ds)) by (nonlinear_arith)
                    requires sh * sw <= ls * ls, ls * ls <= ds * ds, dp >= 0, ds >= 0;
                assert(dp * ((sy + sh - 1) * ls + sx + sw) <= dp * (ls * ls)) by (nonlinear_arith)
                    requires sy + sh <= ls, sx + sw <= ls, sh >= 1, dp >= 0, sx >= 0, sy >= 0;
                assert(self.cache@[level - 1]@.len() == dp * (ls * ls));
            }
            LayerData::Extracted(self.extract(&self.cache[level - 1], level_size, &scaled))
        } else {
            LayerData::Downscale { x: rectangle.pos.x, y: rectangle.pos.y, size: rectangle.size.x }
        }
    }

    proof fn lemma_fullres_rect_bounds(self, r: Rectangle)
        requires
            self.wf(),
            r.size.x >= 1,
            r.size.y >= 1,
            r.pos.x + r.size.x <= self.spec_data_size(),
            r.pos.y + r.size.y <= self.spec_data_size(),
        ensures
            r.pos.y * self.data_size + r.pos.x <= u32::MAX,
            r.size.y * r.size.x <= u32::MAX,
            self.spec_datapoint_size() * ((r.pos.y + r.size.y) * self.data_size + r.pos.x) <= usize::MAX,
            self.spec_datapoint_size() * (r.size.y * r.size.x) <= usize::MAX,
            self.spec_datapoint_size() * ((r.pos.y + r.size.y - 1) * self.data_size
                + r.pos.x + r.size.x) <= self.spec_data().len(),
    {
        let dp = self.datapoint_size as int;
        let ds = self.data_size as int;
        let x = r.pos.x as int;
        let y = r.pos.y as int;
        let w = r.size.x as int;
        let h = r.size.y as int;
        assert(y * ds + x <= ds * ds) by (nonlinear_arith) requires y + h <= ds, x + w <= ds, h >= 1, w >= 1, y >= 0, x >= 0;
        assert(h * w <= ds * ds) by (nonlinear_arith) requires y + h <= ds, x + w <= ds, y >= 0, x >= 0, h >= 0, w >= 0;
        assert(dp * ((y + h) * ds + x) <= dp * ((ds + 1) * ds)) by (nonlinear_arith)
            requires y + h <= ds, x + w <= ds, w >= 1, dp >= 0, x >= 0, y >= 0, ds >= 0;
        assert(dp * (h * w) <= dp * (ds * ds)) by (nonlinear_arith)
            requires h * w <= ds * ds, dp >= 0;
        assert(dp * (ds * ds) <= dp * ((ds + 1) * ds)) by (nonlinear_arith) requires dp >= 0, ds >= 0;
        assert(dp * ((y + h - 1) * ds + x + w) <= dp * (ds * ds)) by (nonlinear_arith)
            requires y + h <= ds, x + w <= ds, h >= 1, dp >= 0, x >= 0, y >= 0;
    }
}

/// Clipmap levels need at least two texture array slots: a single rectangle
/// is repeated.
pub fn build_rectangles(rectangles: Vec<Rectangle>) -> (res: Vec<Rectangle>)
    ensures
        rectangles@.len() == 1 ==> res@ == seq![rectangles@[0], rectangles@[0]],
        rectangles@.len() != 1 ==> res@ == rectangles@,
{
    let mut rectangles = rectangles;
    if rectangles.len() == 1 {
        let first = rectangles[0];
        rectangles.push(first);
        assert(rectangles@ =~= seq![first, first]);
    }
    rectangles
}

/// A chain of sizes that each divide the one before them never grows, and
/// every size divides the first one.
proof fn lemma_divisor_chain_bounded(sizes: Seq<u32>, i: int)
    requires
        sizes.len() > 0,
        0 <= i < sizes.len(),
        sizes[0] > 0,
        forall|j: int| 0 < j < sizes.len() ==> #[trigger] sizes[j] > 0 && sizes[j - 1] % sizes[j] == 0,
    ensures
        0 < sizes[i] <= sizes[0],
        (sizes[0] as int) % (sizes[i] as int) == 0,
    decreases i,
{
    if i == 0 {
        vstd::arithmetic::div_mod::lemma_mod_multiples_basic(1, sizes[0] as int);
    } else {
        lemma_divisor_chain_bounded(sizes, i - 1);
        let a = sizes[i - 1] as int;
        let b = sizes[i] as int;
        let f = sizes[0] as int;
        vstd::arithmetic::div_mod::lemma_fundamental_div_mod(a, b);
        vstd::arithmetic::div_mod::lemma_fundamental_div_mod(f, a);
        let k = a / b;
        let m = f / a;
        assert(a == b * k);
        assert(f == a * m);
        if k <= 0 {
            assert(b * k <= 0) by (nonlinear_arith) requires b > 0, k <= 0;
        }
        assert(b <= b * k) by (nonlinear_arith) requires b > 0, k >= 1;
        assert(f == (k * m) * b) by (nonlinear_arith) requires f == a * m, a == b * k;
        vstd::arithmetic::div_mod::lemma_mod_multiples_basic(k * m, b);
    }
}

/// Scaling a span inside `0..ds` down by `ds / ls` keeps it inside `0..ls`.
proof fn lemma_scaled_span(p: int, w: int, ds: int, ls: int)
    requires
        0 < ls <= ds,
        ds % ls == 0,
        p >= 0,
        w >= 0,
        p + w <= ds,
    ensures
        ds / ls > 0,
        ds / (ds / ls) == ls,
        p / (ds / ls) + w / (ds / ls) <= ls,
        p / (ds / ls) >= 0,
        w / (ds / ls) >= 0,
{
    let s = ds / ls;
    vstd::arithmetic::div_mod::lemma_fundamental_div_mod(ds, ls);
    assert(ds == ls * s);
    if s <= 0 {
        assert(ls * s <= 0) by (nonlinear_arith) requires ls > 0, s <= 0;
    }
    assert(s > 0);
    vstd::arithmetic::div_mod::lemma_div_multiples_vanish(ls, s);
    assert(ds == s * ls) by (nonlinear_arith) requires ds == ls * s;
    vstd::arithmetic::div_mod::lemma_fundamental_div_mod(p, s);
    vstd::arithmetic::div_mod::lemma_fundamental_div_mod(w, s);
    let qp = p / s;
    let qw = w / s;
    let rp = p % s;
    let rw = w % s;
    assert(0 <= rp && 0 <= rw);
    assert(qp >= 0) by (nonlinear_arith) requires p == s * qp + rp, s > 0, p >= 0, rp < s;
    assert(qw >= 0) by (nonlinear_arith) requires w == s * qw + rw, s > 0, w >= 0, rw < s;
    assert(s * (qp + qw) <= s * ls) by (nonlinear_arith)
        requires p == s * qp + rp, w == s * qw + rw, rp >= 0, rw >= 0, p + w <= ds, ds == s * ls;
    assert(qp + qw <= ls) by (nonlinear_arith) requires s * (qp + qw) <= s * ls, s > 0;
}

/// Reading back a rectangle that was just written returns the written data
/// (`datapoint_size` values per point of the rectangle).
pub proof fn law_extract_returns_update<T: Copy>(
    before: Clipmap<T>,
    after: Clipmap<T>,
    rectangle: Rectangle,
    new_data: Seq<T>,
    extracted: Seq<T>,
)
    requires
        before.wf(),
        rectangle.size.x >= 1,
        rectangle.size.y >= 1,
        rectangle.pos.x + rectangle.size.x <= before.spec_data_size(),
        rectangle.pos.y + rectangle.size.y <= before.spec_data_size(),
        before.spec_datapoint_size() * (rectangle.size.x * rectangle.size.y) == new_data.len(),
        is_fullres_update(before, after, rectangle, new_data),
        is_extract_of(extracted, after.spec_data(), after.spec_data_size(), after.spec_datapoint_size(), rectangle),
    ensures
        extracted == new_data,
{
    let dp = before.spec_datapoint_size();
    let w = rectangle.size.x as int;
    let h = rectangle.size.y as int;
    let line = dp * w;
    let ds = before.spec_data_size();
    let start = point_offset(dp, ds, rectangle.pos.x as int, rectangle.pos.y as int);
    assert(dp * (w * h) == line * h) by (nonlinear_arith) requires line == dp * w;
    assert(extracted.len() == line * h);
    assert(extracted.len() == new_data.len());
    assert forall|k: int| 0 <= k < extracted.len() implies extracted[k] == new_data[k] by {
        assert(line > 0) by (nonlinear_arith) requires 0 <= k < line * h, h >= 1, line >= 0;
        vstd::arithmetic::div_mod::lemma_fundamental_div_mod(k, line);
        let row = k / line;
        let col = k % line;
        assert(k == row * line + col) by (nonlinear_arith) requires k == line * row + col;
        assert(0 <= row < h) by (nonlinear_arith) requires k == line * row + col, 0 <= col < line, 0 <= k < line * h;
        assert(grid_at(extracted, line, row, col) == window_at(after.spec_data(), start, dp * ds, row, col));
        assert(window_at(after.spec_data(), start, dp * ds, row, col) == grid_at(new_data, line, row, col));
    }
    assert(extracted =~= new_data);
}

/// What image's `imageops::resize` gives for the RGBA image of `size` x
/// `size` points in `data`, resized to `target` x `target` points with the
/// triangle filter (`filtered`) or nearest neighbour, as raw RGBA values.
pub uninterp spec fn resized_rgba(data: Seq<u8>, size: u32, target: u32, filtered: bool) -> Seq<u8>;

/// image's `RgbaImage::from_raw`, `imageops::resize` and `into_raw`: the
/// RGBA image `data` of `size` x `size` points resized to `target` x
/// `target` points. The contract names the values and states their number
/// (the documented size of the resized image); how they are filtered is not
/// stated.
#[verifier::external_body]
fn resize_rgba(data: Vec<u8>, size: u32, target: u32, filtered: bool) -> (res: Vec<u8>)
    requires
        size >= 1,
        target >= 1,
        data@.len() == 4 * (size * size),
        4 * (target * target) <= usize::MAX,
    ensures
        res@ == resized_rgba(data@, size, target, filtered),
        res@.len() == 4 * (target * target),
{
    let img = image::RgbaImage::from_raw(size, size, data).expect("rgba data of the given size");
    let filter = match filtered {
        true => image::imageops::FilterType::Triangle,
        false => image::imageops::FilterType::Nearest,
    };
    image::imageops::resize(&img, target, target, filter).into_raw()
}

/// The reduced levels of an RGBA map of `ds` points per edge: every level
/// size after the first, the whole map resized to it.
pub open spec fn rgba_cache_levels(data: Seq<u8>, ds: u32, layer_sizes: Seq<u32>, filtered: bool) -> Seq<Seq<u8>> {
    Seq::new((layer_sizes.len() - 1) as nat, |i: int| resized_rgba(data, ds, layer_sizes[i + 1], filtered))
}

impl Clipmap<u8> {
    /// Pregenerates the reduced levels of an RGBA clipmap (four values per
    /// point) from its full resolution data, if they are missing and there is
    /// data and level sizes; the triangle filter is used if `filtered`.
    pub fn fill_cache_rgba(&mut self, filtered: bool)
        requires
            old(self).wf(),
            old(self).spec_datapoint_size() == 4,
        ensures
            final(self).wf(),
            final(self).spec_data() == old(self).spec_data(),
            final(self).spec_label() == old(self).spec_label(),
            final(self).spec_data_size() == old(self).spec_data_size(),
            final(self).spec_datapoint_size() == old(self).spec_datapoint_size(),
            final(self).spec_layer_sizes() == old(self).spec_layer_sizes(),
            old(self).spec_cache().len() == 0 && old(self).spec_data_size() > 0
                && old(self).spec_layer_sizes().len() > 0 ==> final(self).spec_cache()
                == rgba_cache_levels(old(self).spec_data(), old(self).spec_data_size() as u32, old(self).spec_layer_sizes(), filtered),
            !(old(self).spec_cache().len() == 0 && old(self).spec_data_size() > 0
                && old(self).spec_layer_sizes().len() > 0) ==> final(self).spec_cache() == old(self).spec_cache(),
    {
        if self.needs_cache() && self.layer_sizes.len() > 0 {
            let ghost ds = self.data_size as int;
            let mut levels: Vec<Vec<u8>> = Vec::new();
            let mut i: usize = 1;
            while i < self.layer_sizes.len()
                invariant
                    self.wf(),
                    self.datapoint_size == 4,
                    self.data_size >= 1,
                    ds == self.data_size,
                    1 <= i <= self.layer_sizes@.len(),
                    levels@.len() == i - 1,
                    forall|j: int| 0 <= j < i - 1 ==> (#[trigger] levels@[j])@
                        == resized_rgba(self.data@, self.data_size, self.layer_sizes@[j + 1], filtered),
                    forall|j: int| 0 <= j < i - 1 ==> (#[trigger] levels@[j])@.len()
                        == 4 * (self.layer_sizes@[j + 1] * self.layer_sizes@[j + 1]),
                decreases self.layer_sizes@.len() - i,
            {
                let level_size = self.layer_sizes[i];
                proof {
                    let ls = level_size as int;
                    assert(0 < ls <= ds);
                    assert(4 * (ls * ls) <= 4 * ((ds + 1) * ds)) by (nonlinear_arith) requires 0 < ls <= ds;
                }
                let data = self.data.clone();
                assert(data@ =~= self.data@);
                let level = resize_rgba(data, self.data_size, level_size, filtered);
                levels.push(level);
                i = i + 1;
            }
            let ghost lv = levels@;
            self.set_cache(levels);
            proof {
                assert(self.spec_cache() =~= rgba_cache_levels(self.spec_data(), self.data_size, self.spec_layer_sizes(), filtered));
            }
        }
    }

    /// The RGBA data of clipmap level `level` for the square full resolution
    /// `rectangle`: as `generate_layer` cuts it out, or, for levels without
    /// cache, the square cut out of the full resolution data and resized to
    /// `CLIPMAP_SIZE` points per edge.
    pub fn layer_rgba(&self, level: usize, rectangle: &Rectangle, filtered: bool) -> (res: Vec<u8>)
        requires
            self.wf(),
            self.spec_datapoint_size() == 4,
            rectangle.size.x >= 1,
            rectangle.size.x == rectangle.size.y,
            rectangle.pos.x + rectangle.size.x <= self.spec_data_size(),
            rectangle.pos.y + rectangle.size.y <= self.spec_data_size(),
            0 < level <= self.spec_cache().len() ==> {
                let scale = self.spec_data_size() / (self.spec_layer_sizes()[level as int] as int);
                rectangle.size.x >= scale && rectangle.size.y >= scale
            },
        ensures
            level == 0 ==> is_extract_of(res@, self.spec_data(), self.spec_data_size(), 4, *rectangle),
            0 < level <= self.spec_cache().len() ==> {
                let level_size = self.spec_layer_sizes()[level as int] as int;
                let scale = self.spec_data_size() / level_size;
                let scaled = Rectangle {
                    pos: UVec2 { x: ((rectangle.pos.x as int) / scale) as u32, y: ((rectangle.pos.y as int) / scale) as u32 },
                    size: UVec2 { x: ((rectangle.size.x as int) / scale) as u32, y: ((rectangle.size.y as int) / scale) as u32 },
                };
                is_extract_of(res@, self.spec_cache()[level - 1], level_size, 4, scaled)
            },
            level > self.spec_cache().len() ==> exists|square: Seq<u8>|
                is_extract_of(square, self.spec_data(), self.spec_data_size(), 4, *rectangle)
                && res@ == resized_rgba(square, rectangle.size.x, CLIPMAP_SIZE, filtered),
    {
        match self.generate_layer(level, rectangle) {
            LayerData::Extracted(data) => data,
            LayerData::Downscale { x, y, size } => {
                let square = self.extract_fullres(rectangle);
                proof {
                    let w = rectangle.size.x as int;
                    assert(square@.len() == 4 * (w * w)) by (nonlinear_arith)
                        requires square@.len() == (4 * w) * w;
                    assert(4 * (1024 * 1024) <= usize::MAX);
                }
                let ghost sq = square@;
                let res = resize_rgba(square, size, CLIPMAP_SIZE, filtered);
                assert(is_extract_of(sq, self.spec_data(), self.spec_data_size(), 4, *rectangle));
                res
            },
        }
    }
}

} // verus!
