//! Heightmap data: 16 bit heights from decoded image data, tile height
//! ranges and the row slices handed to the normal computation.
use byteorder::ReadBytesExt;
use vstd::prelude::*;

use crate::clipmap::UVec2;
use crate::config::TILE_SIZE;

verus! {

/// Upper limit of heightmap rows per normal computation (bounds the size of
/// one GPU storage buffer).
pub const COMPUTE_NORMALS_MAX_ROWS: usize = 1024;

/// Square heightmap of `size` x `size` 16 bit heights, row after row.
pub struct TerrainHeightMap {
    size: u32,
    data: Vec<u16>,
}

/// Lowest height of a tile.
#[derive(Clone, Copy, Debug)]
pub struct MinHeight(pub u16);

/// Highest height of a tile.
#[derive(Clone, Copy, Debug)]
pub struct MaxHeight(pub u16);

/// Column and row of a terrain tile of `TILE` x `TILE` data points.
#[derive(Debug, Clone, Copy, Default, PartialEq, Eq, Hash)]
pub struct TerrainTileId<const TILE: u32>(pub u8, pub u8);

/// View on a horizontal strip of tiles of a heightmap, starting at a tile.
pub struct TerrainHeightMapView<'heightmap> {
    start_tile: TerrainTileId<TILE_SIZE>,
    heightmap: &'heightmap TerrainHeightMap,
}

/// Index of point (x, y) in a row-major square grid of `size` points per row,
/// with coordinates beyond the last row and column moved onto them.
pub open spec fn clamped_offset(size: int, x: int, y: int) -> int {
    let cx = if x < size - 1 { x } else { size - 1 };
    let cy = if y < size - 1 { y } else { size - 1 };
    size * cy + cx
}

/// Row `r` clamped to `0..rows`.
pub open spec fn clamp_row(r: int, rows: int) -> int {
    if r < 0 { 0 } else if r >= rows { rows - 1 } else { r }
}

/// The 16 bit big-endian values in `bytes` (pairs of bytes, high byte first).
pub open spec fn big_endian_u16(bytes: Seq<u8>, i: int) -> u16 {
    (bytes[2 * i] as int * 256 + bytes[2 * i + 1] as int) as u16
}

/// byteorder's `ReadBytesExt::read_u16_into::<BigEndian>` on a cursor over
/// `bytes`: fills `dst` with the big-endian 16 bit values at the start of
/// `bytes` and fails if `bytes` holds fewer than `2 * dst.len()` bytes. On
/// failure the contents of `dst` are left unspecified, and the text of the
/// error (the display of the `std::io::Error`) is not stated.
#[verifier::external_body]
fn read_u16_be_into(bytes: &[u8], dst: &mut Vec<u16>) -> (res: Result<(), String>)
    ensures
        final(dst)@.len() == old(dst)@.len(),
        res is Ok <==> 2 * old(dst)@.len() <= bytes@.len(),
        res is Ok ==> forall|i: int| 0 <= i < final(dst)@.len() ==> #[trigger] final(dst)@[i] == big_endian_u16(bytes@, i),
{
    std::io::Cursor::new(bytes).read_u16_into::<byteorder::BigEndian>(dst.as_mut_slice()).map_err(|e| e.to_string())
}

impl TerrainHeightMap {
    pub closed spec fn spec_size(self) -> u32 {
        self.size
    }

    pub closed spec fn spec_data(self) -> Seq<u16> {
        self.data@
    }

    /// The data holds `size * size` heights.
    pub open spec fn wf(self) -> bool {
        self.spec_data().len() == self.spec_size() as int * self.spec_size() as int
    }

    pub fn new(size: u32, data: Vec<u16>) -> (res: TerrainHeightMap)
        ensures
            res.spec_size() == size,
            res.spec_data() == data@,
            data@.len() == size as int * size as int ==> res.wf(),
    {
        TerrainHeightMap { size, data }
    }

    /// An empty heightmap.
    pub fn empty() -> (res: TerrainHeightMap)
        ensures
            res.wf(),
            res.spec_size() == 0,
            res.spec_data() == Seq::<u16>::empty(),
    {
        TerrainHeightMap { size: 0, data: Vec::new() }
    }

    /// Replaces size and data with those of `new_heightmap`.
    pub fn update(&mut self, new_heightmap: TerrainHeightMap)
        ensures
            final(self).spec_size() == new_heightmap.spec_size(),
            final(self).spec_data() == new_heightmap.spec_data(),
    {
        self.size = new_heightmap.size;
        self.data = new_heightmap.data;
    }

    pub fn size(&self) -> (res: u32)
        ensures
            res == self.spec_size(),
    {
        self.size
    }

    pub fn data(&self) -> (res: &Vec<u16>)
        ensures
            res@ == self.spec_data(),
    {
        &self.data
    }

    /// Index of the point `p`, with coordinates outside the map moved onto
    /// the last row and column.
    pub fn coordinates_to_offset(&self, p: UVec2) -> (res: usize)
        requires
            self.spec_size() >= 1,
            self.spec_size() as int * self.spec_size() as int <= u32::MAX + 1,
        ensures
            res == clamped_offset(self.spec_size() as int, p.x as int, p.y as int),
            res < self.spec_size() as int * self.spec_size() as int,
    {
        let last = self.size - 1;
        let y = if p.y < last { p.y } else { last };
        let x = if p.x < last { p.x } else { last };
        proof {
            let s = self.size as int;
            assert(s * y + x < s * s) by (nonlinear_arith) requires 0 <= y <= s - 1, 0 <= x <= s - 1, s >= 1;
            assert(s * y + x <= u32::MAX);
        }
        (self.size * y + x) as usize
    }

    /// The height at point `p` (clamped onto the map).
    pub fn height_at(&self, p: UVec2) -> (res: u16)
        requires
            self.wf(),
            self.spec_size() >= 1,
            self.spec_size() as int * self.spec_size() as int <= u32::MAX + 1,
        ensures
            res == self.spec_data()[clamped_offset(self.spec_size() as int, p.x as int, p.y as int)],
    {
        let offset = self.coordinates_to_offset(p);
        self.data[offset]
    }
}


/// Heights of a `size` x `size` heightmap from 16 bit big-endian image data.
/// Fails if the data holds too few bytes.
pub fn heightmap_from_png_data(size: u32, img_data: &Vec<u8>) -> (res: Result<TerrainHeightMap, String>)
    requires
        size as int * size as int <= u32::MAX,
    ensures
        res is Ok <==> 2 * (size as int * size as int) <= img_data@.len(),
        res matches Ok(h) ==> {
            &&& h.wf()
            &&& h.spec_size() == size
            &&& forall|i: int| 0 <= i < h.spec_data().len() ==> #[trigger] h.spec_data()[i] == big_endian_u16(img_data@, i)
        },
        res matches Err(e) ==> "failed to convert buffer into u16 values: "@.is_prefix_of(e@),
{
    let count = (size * size) as usize;
    let mut buffer_u16: Vec<u16> = vec![0u16; count];
    match read_u16_be_into(img_data.as_slice(), &mut buffer_u16) {
        Ok(()) => Ok(TerrainHeightMap::new(size, buffer_u16)),
        Err(e) => {
            let mut msg = String::from_str("failed to convert buffer into u16 values: ");
            let ghost prefix = msg@;
            msg.append(e.as_str());
            assert(prefix.is_prefix_of(msg@)) by {
                assert(msg@.subrange(0, prefix.len() as int) =~= prefix);
            }
            Err(msg)
        },
    }
}

/// Rows per normal computation for a heightmap of `data_width` points per
/// row (a power of two) and the number of such row slices.
pub fn normals_compute_layout(data_width: usize) -> (res: (usize, usize))
    requires
        vstd::arithmetic::power2::is_pow2(data_width as int),
    ensures
        res.0 == (if data_width < COMPUTE_NORMALS_MAX_ROWS { data_width } else { COMPUTE_NORMALS_MAX_ROWS }),
        res.0 >= 1,
        res.1 == data_width / res.0,
        res.1 >= 1,
        data_width % res.0 == 0,
{
    let max_rows = if data_width < COMPUTE_NORMALS_MAX_ROWS { data_width } else { COMPUTE_NORMALS_MAX_ROWS };
    proof {
        reveal(vstd::arithmetic::power2::is_pow2);
        if data_width >= COMPUTE_NORMALS_MAX_ROWS {
            lemma_pow2_multiple_of_1024(data_width as int);
        } else {
            vstd::arithmetic::div_mod::lemma_mod_self_0(data_width as int);
        }
        vstd::arithmetic::div_mod::lemma_div_is_ordered(max_rows as int, data_width as int, max_rows as int);
        vstd::arithmetic::div_mod::lemma_div_basics(max_rows as int);
    }
    (max_rows, data_width / max_rows)
}

/// A power of two of at least 1024 is a multiple of 1024.
proof fn lemma_pow2_multiple_of_1024(n: int)
    requires
        vstd::arithmetic::power2::is_pow2(n),
        n >= 1024,
    ensures
        n % 1024 == 0,
    decreases n,
{
    reveal(vstd::arithmetic::power2::is_pow2);
    if n == 1024 {
    } else {
        assert(n % 2 == 0);
        let h = n / 2;
        assert(vstd::arithmetic::power2::is_pow2(h));
        if h < 1024 {
            assert(vstd::arithmetic::power2::is_pow2(512)) by {
                reveal_with_fuel(vstd::arithmetic::power2::is_pow2, 11);
            }
            lemma_pow2_gap(h, 512);
        } else {
            lemma_pow2_multiple_of_1024(h);
            assert(n == 2 * h);
            vstd::arithmetic::div_mod::lemma_fundamental_div_mod(h, 1024);
            vstd::arithmetic::div_mod::lemma_mod_multiples_basic(2 * (h / 1024), 1024);
            assert(n == (2 * (h / 1024)) * 1024);
        }
    }
}

/// No power of two lies strictly between a power of two `m` and `2 * m`.
proof fn lemma_pow2_gap(q: int, m: int)
    requires
        vstd::arithmetic::power2::is_pow2(q),
        vstd::arithmetic::power2::is_pow2(m),
    ensures
        q <= m || q >= 2 * m,
    decreases m,
{
    reveal(vstd::arithmetic::power2::is_pow2);
    if m == 1 || q == 1 {
    } else {
        assert(q % 2 == 0 && m % 2 == 0);
        lemma_pow2_gap(q / 2, m / 2);
    }
}

/// Heights handed to one normal computation: the `max_rows` rows of slice
/// `slice` plus one row before and one row after them (rows outside the map
/// repeat the first or last row), row after row.
pub fn normals_compute_slice(heightmap: &TerrainHeightMap, max_rows: usize, slice: usize) -> (res: Vec<u16>)
    requires
        heightmap.wf(),
        heightmap.spec_size() >= 1,
        1 <= max_rows <= heightmap.spec_size(),
        slice < (heightmap.spec_size() as int) / (max_rows as int),
        heightmap.spec_size() as int * (max_rows + 2) <= usize::MAX,
        heightmap.spec_size() as int * heightmap.spec_size() as int <= usize::MAX,
    ensures
        ({
            let w = heightmap.spec_size() as int;
            &&& res@.len() == w * (max_rows + 2)
            &&& forall|r: int, c: int| 0 <= r < max_rows + 2 && 0 <= c < w ==>
                #[trigger] crate::clipmap::grid_at(res@, w, r, c)
                    == heightmap.spec_data()[clamp_row(slice * max_rows + r - 1, w) * w + c]
        }),
{
    let data_width = heightmap.size as usize;
    let ghost w = data_width as int;
    let mut data: Vec<u16> = Vec::new();
    let mut r: usize = 0;
    proof {
        let m = max_rows as int;
        let sl = slice as int;
        vstd::arithmetic::div_mod::lemma_fundamental_div_mod(w, m);
        assert(sl * m <= w - m) by (nonlinear_arith)
            requires sl < w / m, w == m * (w / m) + w % m, w % m >= 0, m >= 1, sl >= 0;
        assert(w + 2 <= w * (m + 2)) by (nonlinear_arith) requires w >= 1, m >= 1;
    }
    let rows = max_rows + 2;
    while r < rows
        invariant
            w == heightmap.spec_size(),
            data_width == w,
            w >= 1,
            rows == max_rows + 2,
            slice * max_rows <= w - max_rows,
            w + 2 <= usize::MAX,
            heightmap.wf(),
            w * (max_rows + 2) <= usize::MAX,
            w * w <= usize::MAX,
            0 <= r <= rows,
            data@.len() == r * w,
            forall|rr: int, c: int| 0 <= rr < r && 0 <= c < w ==>
                #[trigger] crate::clipmap::grid_at(data@, w, rr, c)
                    == heightmap.spec_data()[clamp_row(slice * max_rows + rr - 1, w) * w + c],
        decreases rows - r,
    {
        let source_row: usize = if slice * max_rows + r < 1 {
            0
        } else if slice * max_rows + r - 1 >= data_width {
            data_width - 1
        } else {
            slice * max_rows + r - 1
        };
        let ghost sr = source_row as int;
        proof {
            assert(sr == clamp_row(slice * max_rows + r - 1, w));
            assert(sr * w + w <= w * w) by (nonlinear_arith) requires 0 <= sr <= w - 1, w >= 1;
        }
        let start = source_row * data_width;
        let mut c: usize = 0;
        while c < data_width
            invariant
                w == heightmap.spec_size(),
                data_width == w,
                heightmap.wf(),
                start == sr * w,
                start + w <= w * w,
                w * w <= usize::MAX,
                sr == clamp_row(slice * max_rows + r - 1, w),
                0 <= c <= w,
                r < rows,
                data@.len() == r * w + c,
                forall|rr: int, cc: int| 0 <= rr < r && 0 <= cc < w ==>
                    #[trigger] crate::clipmap::grid_at(data@, w, rr, cc)
                        == heightmap.spec_data()[clamp_row(slice * max_rows + rr - 1, w) * w + cc],
                forall|cc: int| 0 <= cc < c ==>
                    #[trigger] crate::clipmap::grid_at(data@, w, r as int, cc)
                        == heightmap.spec_data()[clamp_row(slice * max_rows + r - 1, w) * w + cc],
            decreases w - c,
        {
            let ghost before = data@;
            data.push(heightmap.data[start + c]);
            proof {
                assert forall|rr: int, cc: int| 0 <= rr < r && 0 <= cc < w implies
                    #[trigger] crate::clipmap::grid_at(data@, w, rr, cc)
                        == heightmap.spec_data()[clamp_row(slice * max_rows + rr - 1, w) * w + cc] by {
                    assert(rr * w + cc < r * w) by (nonlinear_arith) requires rr < r, cc < w, 0 <= cc, 0 <= rr;
                    assert(crate::clipmap::grid_at(before, w, rr, cc)
                        == heightmap.spec_data()[clamp_row(slice * max_rows + rr - 1, w) * w + cc]);
                }
                assert forall|cc: int| 0 <= cc < c + 1 implies
                    #[trigger] crate::clipmap::grid_at(data@, w, r as int, cc)
                        == heightmap.spec_data()[clamp_row(slice * max_rows + r - 1, w) * w + cc] by {
                    if cc < c {
                        assert(crate::clipmap::grid_at(before, w, r as int, cc)
                            == heightmap.spec_data()[clamp_row(slice * max_rows + r - 1, w) * w + cc]);
                    }
                }
            }
            c = c + 1;
        }
        r = r + 1;
        proof {
            assert(data@.len() == r * w) by (nonlinear_arith) requires data@.len() == (r - 1) * w + w;
        }
    }
    proof {
        assert(data@.len() == w * (max_rows + 2)) by (nonlinear_arith)
            requires data@.len() == r * w, r == max_rows + 2;
    }
    data
}

/// Queue of normal computation tasks; one task is processed at a time.
pub struct ComputeNormalsTaskQueue<T> {
    queue: Vec<T>,
    pending: usize,
}

impl<T> ComputeNormalsTaskQueue<T> {
    pub closed spec fn spec_queue(self) -> Seq<T> {
        self.queue@
    }

    pub closed spec fn spec_pending(self) -> nat {
        self.pending as nat
    }

    pub fn new() -> (res: ComputeNormalsTaskQueue<T>)
        ensures
            res.spec_queue() == Seq::<T>::empty(),
            res.spec_pending() == 0,
    {
        ComputeNormalsTaskQueue { queue: Vec::new(), pending: 0 }
    }

    /// Queues a task.
    pub fn push(&mut self, task: T)
        ensures
            final(self).spec_queue() == old(self).spec_queue().push(task),
            final(self).spec_pending() == old(self).spec_pending(),
    {
        self.queue.push(task);
    }

    /// Number of tasks waiting.
    pub fn len(&self) -> (res: usize)
        ensures
            res == self.spec_queue().len(),
    {
        self.queue.len()
    }

    /// If no task is in progress, takes the last queued task and marks it as
    /// in progress.
    pub fn next_task(&mut self) -> (res: Option<T>)
        ensures
            old(self).spec_pending() == 0 && old(self).spec_queue().len() > 0 ==> {
                &&& res == Some(old(self).spec_queue().last())
                &&& final(self).spec_queue() == old(self).spec_queue().drop_last()
                &&& final(self).spec_pending() == 1
            },
            !(old(self).spec_pending() == 0 && old(self).spec_queue().len() > 0) ==> {
                &&& res is None
                &&& final(self).spec_queue() == old(self).spec_queue()
                &&& final(self).spec_pending() == old(self).spec_pending()
            },
    {
        if self.pending == 0 {
            let task = self.queue.pop();
            if task.is_some() {
                self.pending = self.pending + 1;
            }
            task
        } else {
            None
        }
    }

    /// Marks `count` tasks in progress as done; returns true if the last task
    /// in progress finished and the queue is empty.
    pub fn finished(&mut self, count: usize) -> (res: bool)
        ensures
            final(self).spec_queue() == old(self).spec_queue(),
            old(self).spec_pending() > 0 ==> final(self).spec_pending() == (if old(self).spec_pending() > count {
                old(self).spec_pending() - count
            } else {
                0
            }),
            old(self).spec_pending() == 0 ==> final(self).spec_pending() == 0,
            res == (old(self).spec_pending() > 0 && final(self).spec_pending() == 0
                && old(self).spec_queue().len() == 0),
    {
        if self.pending > 0 {
            self.pending = self.pending.saturating_sub(count);
            self.pending == 0 && self.queue.len() == 0
        } else {
            false
        }
    }
}

impl<const TILE: u32> TerrainTileId<TILE> {
    pub fn new(x: u8, y: u8) -> (res: TerrainTileId<TILE>)
        ensures
            res == TerrainTileId::<TILE>(x, y),
    {
        TerrainTileId(x, y)
    }

    pub fn x(&self) -> (res: u8)
        ensures
            res == self.0,
    {
        self.0
    }

    pub fn y(&self) -> (res: u8)
        ensures
            res == self.1,
    {
        self.1
    }

    /// First data point of the tile.
    pub fn sampling_offset(&self) -> (res: UVec2)
        requires
            TILE <= 16777216,
        ensures
            res == (UVec2 { x: (self.0 * TILE) as u32, y: (self.1 * TILE) as u32 }),
    {
        proof {
            assert(self.0 * TILE <= 255 * 16777216) by (nonlinear_arith) requires self.0 <= 255, TILE <= 16777216;
            assert(self.1 * TILE <= 255 * 16777216) by (nonlinear_arith) requires self.1 <= 255, TILE <= 16777216;
        }
        UVec2 { x: self.0 as u32 * TILE, y: self.1 as u32 * TILE }
    }

    /// Half the tile size in both directions.
    pub fn half_extent(&self) -> (res: UVec2)
        ensures
            res == (UVec2 { x: TILE / 2, y: TILE / 2 }),
    {
        UVec2 { x: TILE / 2, y: TILE / 2 }
    }

    pub fn tile_size(&self) -> (res: u32)
        ensures
            res == TILE,
    {
        TILE
    }
}

/// Height at row `r`, column `c` of tile column `x` in the strip of tiles
/// whose first data row is `y0`.
pub open spec fn tile_height(data: Seq<u16>, size: int, y0: int, x: int, r: int, c: int) -> u16 {
    data[(y0 + r) * size + x * TILE_SIZE + c]
}

/// `lo` and `hi` are the lowest and the highest height of tile column `x`.
pub open spec fn tile_range(data: Seq<u16>, size: int, y0: int, x: int, lo: u16, hi: u16) -> bool {
    let t = TILE_SIZE as int;
    &&& forall|r: int, c: int| 0 <= r < t && 0 <= c < t ==> lo <= #[trigger] tile_height(data, size, y0, x, r, c) <= hi
    &&& exists|r: int, c: int| 0 <= r < t && 0 <= c < t && tile_height(data, size, y0, x, r, c) == lo
    &&& exists|r: int, c: int| 0 <= r < t && 0 <= c < t && tile_height(data, size, y0, x, r, c) == hi
}

impl<'heightmap> TerrainHeightMapView<'heightmap> {
    pub closed spec fn spec_start_tile(self) -> TerrainTileId<TILE_SIZE> {
        self.start_tile
    }

    pub closed spec fn spec_heightmap(self) -> TerrainHeightMap {
        *self.heightmap
    }

    /// View on the strip of tiles in the row of `start`.
    pub fn new_strip(start: TerrainTileId<TILE_SIZE>, heightmap: &'heightmap TerrainHeightMap) -> (res: Self)
        ensures
            res.spec_start_tile() == start,
            res.spec_heightmap() == *heightmap,
    {
        TerrainHeightMapView { start_tile: start, heightmap }
    }

    /// Lowest and highest height of every tile in the strip, from left to
    /// right.
    pub fn tiles_min_max_y_strip(&self) -> (res: Vec<(TerrainTileId<TILE_SIZE>, MinHeight, MaxHeight)>)
        requires
            self.spec_heightmap().wf(),
            self.spec_heightmap().spec_size() >= TILE_SIZE,
            self.spec_heightmap().spec_size() % TILE_SIZE == 0,
            (self.spec_start_tile().1 + 1) * TILE_SIZE <= self.spec_heightmap().spec_size(),
            self.spec_heightmap().spec_size() as int * self.spec_heightmap().spec_size() as int <= u32::MAX,
        ensures
            ({
                let size = self.spec_heightmap().spec_size() as int;
                let y0 = self.spec_start_tile().1 * TILE_SIZE;
                &&& res@.len() == size / (TILE_SIZE as int)
                &&& forall|x: int| 0 <= x < res@.len() ==> {
                    &&& (#[trigger] res@[x]).0 == TerrainTileId::<TILE_SIZE>(x as u8, self.spec_start_tile().1)
                    &&& tile_range(self.spec_heightmap().spec_data(), size, y0, x, res@[x].1.0, res@[x].2.0)
                }
            }),
    {
        let heightmap = self.heightmap;
        let size = heightmap.size;
        let tile_size = TILE_SIZE;
        let tiles_per_edge = (size / tile_size) as usize;
        let ghost sz = size as int;
        let ghost t = tile_size as int;
        let ghost y0 = (self.start_tile.1 * TILE_SIZE) as int;
        let ghost data = heightmap.data@;
        proof {
            assert(y0 * sz <= sz * sz) by (nonlinear_arith) requires y0 + t <= sz, t >= 1, y0 >= 0;
        }
        let offset_start = (self.start_tile.sampling_offset().y * size) as usize;
        let mut result: Vec<(TerrainTileId<TILE_SIZE>, MinHeight, MaxHeight)> = Vec::new();
        let mut x: usize = 0;
        while x < tiles_per_edge
            invariant
                sz == heightmap.spec_size(),
                size == sz,
                t == 256,
                tile_size == t,
                data == heightmap.spec_data(),
                data.len() == sz * sz,
                sz * sz <= u32::MAX,
                y0 + t <= sz,
                y0 >= 0,
                offset_start == y0 * sz,
                tiles_per_edge == sz / t,
                0 <= x <= tiles_per_edge,
                result@.len() == x,
                forall|xx: int| 0 <= xx < x ==> {
                    &&& (#[trigger] result@[xx]).0 == TerrainTileId::<TILE_SIZE>(xx as u8, self.start_tile.1)
                    &&& tile_range(data, sz, y0, xx, result@[xx].1.0, result@[xx].2.0)
                },
            decreases tiles_per_edge - x,
        {
            let mut lo: u16 = u16::MAX;
            let mut hi: u16 = 0;
            let ghost mut lo_r: int = 0;
            let ghost mut lo_c: int = 0;
            let ghost mut hi_r: int = 0;
            let ghost mut hi_c: int = 0;
            proof {
                assert((x + 1) * t <= sz) by (nonlinear_arith)
                    requires x < sz / t, t > 0, sz >= 0;
            }
            let mut r: u32 = 0;
            while r < tile_size
                invariant
                    sz == heightmap.spec_size(),
                    size == sz,
                    t == 256,
                    tile_size == t,
                    data == heightmap.spec_data(),
                    data.len() == sz * sz,
                    sz * sz <= u32::MAX,
                    y0 + t <= sz,
                    y0 >= 0,
                    offset_start == y0 * sz,
                    (x + 1) * t <= sz,
                    0 <= r <= t,
                    r == 0 ==> lo == u16::MAX && hi == 0 && lo_r == 0 && lo_c == 0 && hi_r == 0 && hi_c == 0,
                    r > 0 ==> 0 <= lo_r < r && 0 <= lo_c < t && tile_height(data, sz, y0, x as int, lo_r, lo_c) == lo,
                    r > 0 ==> 0 <= hi_r < r && 0 <= hi_c < t && tile_height(data, sz, y0, x as int, hi_r, hi_c) == hi,
                    forall|rr: int, cc: int| 0 <= rr < r && 0 <= cc < t ==>
                        lo <= #[trigger] tile_height(data, sz, y0, x as int, rr, cc) <= hi,
                decreases t - r,
            {
                let mut c: u32 = 0;
                proof {
                    assert((y0 + r) * sz + x * t + t <= sz * sz) by (nonlinear_arith)
                        requires y0 + r < sz, (x + 1) * t <= sz, y0 >= 0, r >= 0, sz >= 0, x >= 0;
                }
                proof {
                    assert(r * sz <= (y0 + r) * sz) by (nonlinear_arith) requires y0 >= 0, sz >= 0, r >= 0;
                    assert(offset_start + r * sz == (y0 + r) * sz) by (nonlinear_arith)
                        requires offset_start == y0 * sz;
                    assert(x * t <= (y0 + r) * sz + x * t);
                }
                let row_start = offset_start + (r as usize) * (size as usize) + x * (tile_size as usize);
                proof {
                    assert(row_start == (y0 + r) * sz + x * t) by (nonlinear_arith)
                        requires row_start == offset_start + r * sz + x * t, offset_start == y0 * sz;
                }
                while c < tile_size
                    invariant
                        t == 256,
                        tile_size == t,
                        data == heightmap.spec_data(),
                        data.len() == sz * sz,
                        sz * sz <= u32::MAX,
                        row_start == (y0 + r) * sz + x * t,
                        row_start + t <= sz * sz,
                        0 <= r < t,
                        0 <= c <= t,
                        r == 0 && c == 0 ==> lo == u16::MAX && hi == 0 && lo_r == 0 && lo_c == 0 && hi_r == 0 && hi_c == 0,
                        r > 0 || c > 0 ==> 0 <= lo_r <= r && 0 <= lo_c < t && (lo_r < r || lo_c < c)
                            && tile_height(data, sz, y0, x as int, lo_r, lo_c) == lo,
                        r > 0 || c > 0 ==> 0 <= hi_r <= r && 0 <= hi_c < t && (hi_r < r || hi_c < c)
                            && tile_height(data, sz, y0, x as int, hi_r, hi_c) == hi,
                        forall|rr: int, cc: int| 0 <= rr < r && 0 <= cc < t ==>
                            lo <= #[trigger] tile_height(data, sz, y0, x as int, rr, cc) <= hi,
                        forall|cc: int| 0 <= cc < c ==>
                            lo <= #[trigger] tile_height(data, sz, y0, x as int, r as int, cc) <= hi,
                    decreases t - c,
                {
                    let v = heightmap.data[row_start + c as usize];
                    proof {
                        assert(v == tile_height(data, sz, y0, x as int, r as int, c as int));
                    }
                    if v < lo {
                        lo = v;
                        proof { lo_r = r as int; lo_c = c as int; }
                    }
                    if v > hi {
                        hi = v;
                        proof { hi_r = r as int; hi_c = c as int; }
                    }
                    c = c + 1;
                }
                r = r + 1;
            }
            let id = TerrainTileId::new(x as u8, self.start_tile.1);
            result.push((id, MinHeight(lo), MaxHeight(hi)));
            proof {
                assert(tile_range(data, sz, y0, x as int, lo, hi)) by {
                    assert(tile_height(data, sz, y0, x as int, lo_r, lo_c) == lo);
                    assert(tile_height(data, sz, y0, x as int, hi_r, hi_c) == hi);
                }
            }
            x = x + 1;
        }
        result
    }
}

} // verus!
