//! The tile compositor: folds a stream of tiles into one mutable output
//! grid addressed by world coordinates.
//!
//! The output is seeded with the pixel type's zero value and a
//! geo-transform derived from the target bounding box.  Each incoming tile
//! is projected onto the output through the two geo-transforms; only the
//! overlapping pixel region is copied, pixels outside the output extent are
//! discarded, and each destination pixel is fully overwritten by whichever
//! tile last covers it — last write wins, no blending.  A tile whose
//! projection is invalid (mismatched resolution or origins off the pixel
//! raster) fails the whole composite with a geometry error; mere
//! non-overlap is not an error.

use vstd::arithmetic::div_mod::{
    lemma_fundamental_div_mod, lemma_fundamental_div_mod_converse_div,
    lemma_fundamental_div_mod_converse_mod, lemma_mod_division_less_than_divisor,
};
use vstd::prelude::*;

use crate::error::Error;
use crate::grid::{Grid, GridShape};
use crate::pixel::Pixel;
use crate::query::BoundingBox2D;
use crate::tile::{GeoTransform, Tile};

verus! {

/// A single output raster being assembled: a grid plus the geo-transform
/// that addresses it in world coordinates.
#[derive(Debug)]
pub struct OutputRaster<P> {
    pub grid: Grid<P>,
    pub geo_transform: GeoTransform,
}

impl<P: Pixel> OutputRaster<P> {
    /// The grid matches its shape; the pixel sizes point east and south.
    pub open spec fn wf(self) -> bool {
        &&& self.grid.wf()
        &&& self.geo_transform.pixel_size_x > 0
        &&& self.geo_transform.pixel_size_y < 0
    }
}

/// A tile's projection onto the output is valid: the two geo-transforms
/// agree in resolution and the tile's origin lies on the output's pixel
/// raster.  A projection that is merely outside the output extent is still
/// valid; it just covers nothing.
pub open spec fn blit_ok(out_gt: GeoTransform, tile_gt: GeoTransform) -> bool {
    &&& tile_gt.pixel_size_x == out_gt.pixel_size_x
    &&& tile_gt.pixel_size_y == out_gt.pixel_size_y
    &&& (tile_gt.origin_x - out_gt.origin_x) % (out_gt.pixel_size_x as int) == 0
    &&& (out_gt.origin_y - tile_gt.origin_y) % (-out_gt.pixel_size_y as int) == 0
}

/// The column of the output grid the tile's left edge projects to.
pub open spec fn col_offset(out_gt: GeoTransform, tile_gt: GeoTransform) -> int {
    (tile_gt.origin_x - out_gt.origin_x) / (out_gt.pixel_size_x as int)
}

/// The row of the output grid the tile's top edge projects to.  Rows grow
/// downward, so the offset is measured against the negated y pixel size.
pub open spec fn row_offset(out_gt: GeoTransform, tile_gt: GeoTransform) -> int {
    (out_gt.origin_y - tile_gt.origin_y) / (-out_gt.pixel_size_y as int)
}

/// The output contents after one tile is blitted at row offset `dr` and
/// column offset `dc`: every output cell the tile covers holds the tile's
/// value, every other cell keeps what it held.
pub open spec fn blit_values<P: Pixel>(
    out0: Seq<int>,
    shape: GridShape,
    tile: Tile<P>,
    dr: int,
    dc: int,
) -> Seq<int> {
    Seq::new(
        out0.len(),
        |i: int|
            {
                let r = i / (shape.cols as int);
                let c = i % (shape.cols as int);
                let tr = r - dr;
                let tc = c - dc;
                if 0 <= tr < tile.grid.shape.rows && 0 <= tc < tile.grid.shape.cols {
                    tile.grid.values()[tr * (tile.grid.shape.cols as int) + tc]
                } else {
                    out0[i]
                }
            },
    )
}

/// The output contents midway through one blit: only the first `done`
/// tile cells, in the tile's row-major order, have been copied.
pub open spec fn blit_values_upto<P: Pixel>(
    out0: Seq<int>,
    shape: GridShape,
    tile: Tile<P>,
    dr: int,
    dc: int,
    done: int,
) -> Seq<int> {
    Seq::new(
        out0.len(),
        |i: int|
            {
                let r = i / (shape.cols as int);
                let c = i % (shape.cols as int);
                let tr = r - dr;
                let tc = c - dc;
                if 0 <= tr < tile.grid.shape.rows && 0 <= tc < tile.grid.shape.cols
                    && tr * (tile.grid.shape.cols as int) + tc < done {
                    tile.grid.values()[tr * (tile.grid.shape.cols as int) + tc]
                } else {
                    out0[i]
                }
            },
    )
}

/// A row-major cell index decomposes into the row `i / cols` and the
/// column `i % cols`, and the row is within `rows` whenever the index is
/// within the grid.
proof fn lemma_rowmajor_split(i: int, rows: int, cols: int)
    requires
        cols > 0,
        0 <= i < rows * cols,
    ensures
        i == cols * (i / cols) + (i % cols),
        0 <= i % cols < cols,
        0 <= i / cols < rows,
{
    lemma_fundamental_div_mod(i, cols);
    lemma_mod_division_less_than_divisor(i, cols);
    assert(0 <= i / cols) by (nonlinear_arith)
        requires
            cols > 0,
            0 <= i,
            i == cols * (i / cols) + (i % cols),
            0 <= i % cols < cols,
    ;
    assert(i / cols < rows) by (nonlinear_arith)
        requires
            cols > 0,
            i < rows * cols,
            i == cols * (i / cols) + (i % cols),
            0 <= i % cols < cols,
    ;
}

/// Conversely, a row and column within bounds name exactly one row-major
/// cell index, which decomposes back into them.
proof fn lemma_rowmajor_join(r: int, c: int, rows: int, cols: int)
    requires
        cols > 0,
        0 <= r < rows,
        0 <= c < cols,
    ensures
        0 <= r * cols + c < rows * cols,
        (r * cols + c) / cols == r,
        (r * cols + c) % cols == c,
{
    assert(0 <= r * cols + c < rows * cols) by (nonlinear_arith)
        requires
            cols > 0,
            0 <= r < rows,
            0 <= c < cols,
    ;
    lemma_fundamental_div_mod_converse_div(r * cols + c, cols, r, c);
    lemma_fundamental_div_mod_converse_mod(r * cols + c, cols, r, c);
}

/// Exact division of `diff` by the positive `step`: the quotient, exactly
/// when `step` divides `diff`.
fn div_exact(diff: i128, step: i128) -> (r: Option<i128>)
    requires
        step > 0,
        i128::MIN < diff,
    ensures
        r is Some <==> (diff as int) % (step as int) == 0,
        r matches Some(q) ==> {
            &&& q == (diff as int) / (step as int)
            &&& diff == q * step
            &&& (diff >= 0 ==> 0 <= q <= diff)
            &&& (diff < 0 ==> diff <= q <= 0)
        },
{
    if diff >= 0 {
        let m = diff as u128;
        let s = step as u128;
        if m % s == 0 {
            let q = m / s;
            proof {
                lemma_fundamental_div_mod(diff as int, step as int);
                assert(q <= m) by (nonlinear_arith)
                    requires
                        s >= 1,
                        q == m / s,
                ;
            }
            Some(q as i128)
        } else {
            None
        }
    } else {
        let m = (-diff) as u128;
        let s = step as u128;
        if m % s == 0 {
            let q = m / s;
            proof {
                lemma_fundamental_div_mod(m as int, s as int);
                assert(m == s * ((m as int) / (s as int)));
                assert(diff as int == (-((m as int) / (s as int))) * (step as int) + 0) by (nonlinear_arith)
                    requires
                        diff as int == -(m as int),
                        m == s * ((m as int) / (s as int)),
                        s == step,
                ;
                lemma_fundamental_div_mod_converse_div(
                    diff as int,
                    step as int,
                    -((m as int) / (s as int)),
                    0,
                );
                lemma_fundamental_div_mod_converse_mod(
                    diff as int,
                    step as int,
                    -((m as int) / (s as int)),
                    0,
                );
                assert(q <= m) by (nonlinear_arith)
                    requires
                        s >= 1,
                        q == m / s,
                ;
            }
            Some(-(q as i128))
        } else {
            proof {
                if (diff as int) % (step as int) == 0 {
                    lemma_fundamental_div_mod(diff as int, step as int);
                    assert(diff as int == (step as int) * ((diff as int) / (step as int)));
                    assert(m as int == (s as int) * (-((diff as int) / (step as int)))) by (nonlinear_arith)
                        requires
                            diff as int == (step as int) * ((diff as int) / (step as int)),
                            m as int == -(diff as int),
                            s == step,
                    ;
                    assert(m as int == (-((diff as int) / (step as int))) * (s as int) + 0) by (nonlinear_arith)
                        requires
                            m as int == (s as int) * (-((diff as int) / (step as int))),
                    ;
                    lemma_fundamental_div_mod_converse_mod(
                        m as int,
                        s as int,
                        -((diff as int) / (step as int)),
                        0,
                    );
                }
            }
            None
        }
    }
}

/// Blits one tile onto the output grid: projects the tile's pixels through
/// the two geo-transforms and overwrites the overlapping region, cell for
/// cell.  Cells outside the output extent are discarded; a projection off
/// the output's pixel raster or at a different resolution is a geometry
/// error and leaves the output untouched.
#[verifier::rlimit(100)]
pub fn blit<P: Pixel>(out: &mut OutputRaster<P>, tile: &Tile<P>) -> (r: Result<(), Error>)
    requires
        old(out).wf(),
        tile.wf(),
    ensures
        final(out).wf(),
        final(out).geo_transform == old(out).geo_transform,
        final(out).grid.shape == old(out).grid.shape,
        final(out).grid.no_data == old(out).grid.no_data,
        r is Ok <==> blit_ok(old(out).geo_transform, tile.geo_transform),
        r is Ok ==> final(out).grid.values() =~= blit_values(
            old(out).grid.values(),
            old(out).grid.shape,
            *tile,
            row_offset(old(out).geo_transform, tile.geo_transform),
            col_offset(old(out).geo_transform, tile.geo_transform),
        ),
        r matches Err(e) ==> e == Error::Geometry && *final(out) == *old(out),
{
    let gt = out.geo_transform;
    let tgt = tile.geo_transform;
    if tgt.pixel_size_x != gt.pixel_size_x || tgt.pixel_size_y != gt.pixel_size_y {
        return Err(Error::Geometry);
    }
    let diff_x = (tgt.origin_x as i128) - (gt.origin_x as i128);
    let diff_y = (gt.origin_y as i128) - (tgt.origin_y as i128);
    let step_x = gt.pixel_size_x as i128;
    let step_y = -(gt.pixel_size_y as i128);
    let dc = match div_exact(diff_x, step_x) {
        Some(q) => q,
        None => {
            return Err(Error::Geometry);
        },
    };
    let dr = match div_exact(diff_y, step_y) {
        Some(q) => q,
        None => {
            return Err(Error::Geometry);
        },
    };
    proof {
        assert(dc == col_offset(old(out).geo_transform, tile.geo_transform));
        assert(dr == row_offset(old(out).geo_transform, tile.geo_transform));
        assert(blit_ok(old(out).geo_transform, tile.geo_transform));
    }
    let ghost out0 = out.grid.values();
    let ghost shape0 = out.grid.shape;
    let tcols = tile.grid.shape.cols;
    let trows = tile.grid.shape.rows;
    let orows = out.grid.shape.rows;
    let ocols = out.grid.shape.cols;
    let n = tile.grid.data.len();
    let mut t: usize = 0;
    proof {
        assert(out.grid.values() =~= blit_values_upto(out0, shape0, *tile, dr as int, dc as int, 0));
    }
    while t < n
        invariant
            t <= n,
            n == tile.grid.data@.len(),
            tile.wf(),
            tcols == tile.grid.shape.cols,
            trows == tile.grid.shape.rows,
            out.wf(),
            out.grid.shape == shape0,
            orows == shape0.rows,
            ocols == shape0.cols,
            out.geo_transform == old(out).geo_transform,
            out.grid.no_data == old(out).grid.no_data,
            out0.len() == shape0.cell_count(),
            -0x1_0000_0000_0000_0000 < dr < 0x1_0000_0000_0000_0000,
            -0x1_0000_0000_0000_0000 < dc < 0x1_0000_0000_0000_0000,
            out.grid.values() =~= blit_values_upto(
                out0,
                shape0,
                *tile,
                dr as int,
                dc as int,
                t as int,
            ),
        decreases n - t,
    {
        proof {
            assert(tcols > 0) by (nonlinear_arith)
                requires
                    (t as int) < (trows as int) * (tcols as int),
                    t >= 0,
            ;
        }
        let tr = t / tcols;
        let tc = t % tcols;
        proof {
            lemma_rowmajor_split(t as int, trows as int, tcols as int);
        }
        let our = dr + (tr as i128);
        let ouc = dc + (tc as i128);
        if 0 <= our && our < (orows as i128) && 0 <= ouc && ouc < (ocols as i128) {
            let v = tile.grid.cell(tr, tc);
            proof {
                lemma_rowmajor_join(our as int, ouc as int, orows as int, ocols as int);
                assert((tr as int) * (tcols as int) == (tcols as int) * (tr as int))
                    by (nonlinear_arith);
                assert(crate::cell_index(tr as int, tc as int, tcols as int) == t as int);
                assert(v.val() == tile.grid.values()[t as int]);
            }
            let ghost pre = out.grid.values();
            out.grid.set_cell(our as usize, ouc as usize, v);
            proof {
                lemma_blit_upto_step(out0, shape0, *tile, dr as int, dc as int, t as int);
                assert(crate::cell_index(our as int, ouc as int, ocols as int) == (our as int)
                    * (ocols as int) + (ouc as int));
                assert(out.grid.values() =~= pre.update(
                    (our as int) * (ocols as int) + (ouc as int),
                    tile.grid.values()[t as int],
                ));
                assert(out.grid.values() =~= blit_values_upto(
                    out0,
                    shape0,
                    *tile,
                    dr as int,
                    dc as int,
                    t as int + 1,
                ));
            }
        } else {
            proof {
                lemma_blit_upto_step(out0, shape0, *tile, dr as int, dc as int, t as int);
                assert(out.grid.values() =~= blit_values_upto(
                    out0,
                    shape0,
                    *tile,
                    dr as int,
                    dc as int,
                    t as int + 1,
                ));
            }
        }
        t = t + 1;
    }
    proof {
        lemma_blit_upto_complete(out0, shape0, *tile, dr as int, dc as int);
    }
    Ok(())
}

/// The target bounding box and pixel dimensions admit a seeded output:
/// positive dimensions whose cell count is representable, a box of positive
/// extent that divides evenly into the requested pixels, and pixel sizes
/// that fit the world-coordinate type.
pub open spec fn seed_ok(bbox: BoundingBox2D, width: usize, height: usize) -> bool {
    &&& 0 < width
    &&& 0 < height
    &&& (height as int) * (width as int) <= usize::MAX
    &&& bbox.size_x() > 0
    &&& bbox.size_y() > 0
    &&& bbox.size_x() % (width as int) == 0
    &&& bbox.size_y() % (height as int) == 0
    &&& bbox.size_x() / (width as int) <= i64::MAX
    &&& bbox.size_y() / (height as int) <= i64::MAX
}

/// Seeds the output for a composite: a grid of the pixel type's zero
/// value, `height` by `width`, whose geo-transform puts the origin at the
/// box's upper-left corner with pixel sizes `box extent / pixel count`,
/// the y size negated for top-down row order.  A request the box cannot
/// satisfy is a geometry error.
pub fn seed_output<P: Pixel>(bbox: BoundingBox2D, width: usize, height: usize) -> (r: Result<
    OutputRaster<P>,
    Error,
>)
    ensures
        r is Ok <==> seed_ok(bbox, width, height),
        r matches Ok(o) ==> {
            &&& o.wf()
            &&& o.grid.shape == (GridShape { rows: height, cols: width })
            &&& o.grid.no_data is None
            &&& forall|i: int| 0 <= i < o.grid.values().len() ==> o.grid.values()[i] == 0
            &&& o.geo_transform.origin_x == bbox.lower_left.x
            &&& o.geo_transform.origin_y == bbox.upper_right.y
            &&& o.geo_transform.pixel_size_x == bbox.size_x() / (width as int)
            &&& o.geo_transform.pixel_size_y == -(bbox.size_y() / (height as int))
        },
        r matches Err(e) ==> e == Error::Geometry,
{
    if width == 0 || height == 0 {
        return Err(Error::Geometry);
    }
    let sx = (bbox.upper_right.x as i128) - (bbox.lower_left.x as i128);
    let sy = (bbox.upper_right.y as i128) - (bbox.lower_left.y as i128);
    if sx <= 0 || sy <= 0 {
        return Err(Error::Geometry);
    }
    let sxu = sx as u128;
    let syu = sy as u128;
    let wu = width as u128;
    let hu = height as u128;
    if sxu % wu != 0 || syu % hu != 0 {
        return Err(Error::Geometry);
    }
    let px = sxu / wu;
    let py = syu / hu;
    if px > i64::MAX as u128 || py > i64::MAX as u128 {
        return Err(Error::Geometry);
    }
    proof {
        lemma_fundamental_div_mod(sxu as int, wu as int);
        assert(px >= 1) by (nonlinear_arith)
            requires
                sxu as int == (wu as int) * (px as int),
                sxu > 0,
                wu > 0,
                px >= 0,
        ;
        lemma_fundamental_div_mod(syu as int, hu as int);
        assert(py >= 1) by (nonlinear_arith)
            requires
                syu as int == (hu as int) * (py as int),
                syu > 0,
                hu > 0,
                py >= 0,
        ;
    }
    let shape = GridShape { rows: height, cols: width };
    match Grid::new_filled(shape, P::zero()) {
        Some(grid) => Ok(
            OutputRaster {
                grid,
                geo_transform: GeoTransform {
                    origin_x: bbox.lower_left.x,
                    origin_y: bbox.upper_right.y,
                    pixel_size_x: px as i64,
                    pixel_size_y: -(py as i64),
                },
            },
        ),
        None => Err(Error::Geometry),
    }
}

/// Every tile of the stream projects validly onto an output with this
/// geo-transform.
pub open spec fn all_blittable<P: Pixel>(gt: GeoTransform, tiles: Seq<Tile<P>>) -> bool {
    forall|i: int| 0 <= i < tiles.len() ==> blit_ok(gt, (#[trigger] tiles[i]).geo_transform)
}

/// The output contents after folding a stream of tiles left-to-right in
/// emission order, each blitted at its projected offsets: every output
/// cell holds the value of the last tile that covered it, and the seed
/// value where no tile did.
pub open spec fn composed_values<P: Pixel>(
    out0: Seq<int>,
    shape: GridShape,
    gt: GeoTransform,
    tiles: Seq<Tile<P>>,
) -> Seq<int>
    decreases tiles.len(),
{
    if tiles.len() == 0 {
        out0
    } else {
        let prev = composed_values(out0, shape, gt, tiles.drop_last());
        let t = tiles.last();
        blit_values(prev, shape, t, row_offset(gt, t.geo_transform), col_offset(gt, t.geo_transform))
    }
}

/// Folds a stream of tiles into the output grid, in emission order,
/// overwriting overlapping cells last-write-wins.  The first tile whose
/// projection is invalid aborts the whole composite with a geometry error;
/// the tiles already folded remain folded.
pub fn compose<P: Pixel>(out: &mut OutputRaster<P>, tiles: &Vec<Tile<P>>) -> (r: Result<
    (),
    Error,
>)
    requires
        old(out).wf(),
        forall|i: int| 0 <= i < tiles@.len() ==> (#[trigger] tiles@[i]).wf(),
    ensures
        final(out).wf(),
        final(out).geo_transform == old(out).geo_transform,
        final(out).grid.shape == old(out).grid.shape,
        final(out).grid.no_data == old(out).grid.no_data,
        r is Ok <==> all_blittable(old(out).geo_transform, tiles@),
        r is Ok ==> final(out).grid.values() =~= composed_values(
            old(out).grid.values(),
            old(out).grid.shape,
            old(out).geo_transform,
            tiles@,
        ),
        r matches Err(e) ==> e == Error::Geometry,
        r is Err ==> exists|j: int|
            {
                &&& 0 <= j < tiles@.len()
                &&& !blit_ok(old(out).geo_transform, (#[trigger] tiles@[j]).geo_transform)
                &&& (forall|i: int| 0 <= i < j ==> blit_ok(
                    old(out).geo_transform,
                    (#[trigger] tiles@[i]).geo_transform,
                ))
                &&& final(out).grid.values() =~= composed_values(
                    old(out).grid.values(),
                    old(out).grid.shape,
                    old(out).geo_transform,
                    tiles@.take(j),
                )
            },
{
    let ghost out0 = out.grid.values();
    let ghost shape0 = out.grid.shape;
    let ghost gt0 = out.geo_transform;
    let n = tiles.len();
    let mut k: usize = 0;
    proof {
        assert(tiles@.take(0) =~= Seq::<Tile<P>>::empty());
    }
    while k < n
        invariant
            k <= n,
            n == tiles@.len(),
            forall|i: int| 0 <= i < tiles@.len() ==> (#[trigger] tiles@[i]).wf(),
            out.wf(),
            out.geo_transform == gt0,
            out.grid.shape == shape0,
            out.grid.no_data == old(out).grid.no_data,
            gt0 == old(out).geo_transform,
            shape0 == old(out).grid.shape,
            out0 == old(out).grid.values(),
            forall|i: int| 0 <= i < k ==> blit_ok(gt0, (#[trigger] tiles@[i]).geo_transform),
            out.grid.values() =~= composed_values(out0, shape0, gt0, tiles@.take(k as int)),
        decreases n - k,
    {
        let tile = &tiles[k];
        let ghost prev = out.grid.values();
        match blit(out, tile) {
            Ok(()) => {
                proof {
                    assert(tiles@.take(k as int + 1).drop_last() =~= tiles@.take(k as int));
                    assert(tiles@.take(k as int + 1).last() == tiles@[k as int]);
                    assert(prev == composed_values(out0, shape0, gt0, tiles@.take(k as int)));
                    assert(out.grid.values() =~= composed_values(
                        out0,
                        shape0,
                        gt0,
                        tiles@.take(k as int + 1),
                    ));
                }
            },
            Err(e) => {
                proof {
                    let j = k as int;
                    assert(!blit_ok(gt0, tiles@[j].geo_transform));
                    assert(out.grid.values() =~= composed_values(
                        out0,
                        shape0,
                        gt0,
                        tiles@.take(j),
                    ));
                }
                return Err(e);
            },
        }
        k = k + 1;
    }
    proof {
        assert(tiles@.take(n as int) =~= tiles@);
    }
    Ok(())
}

/// The geo-transform a seeded output derives from its target bounding box:
/// origin at the box's upper-left corner, pixel sizes the box extent per
/// requested pixel count, the y size negated for top-down row order.
pub open spec fn seed_transform(bbox: BoundingBox2D, width: usize, height: usize) -> GeoTransform {
    GeoTransform {
        origin_x: bbox.lower_left.x,
        origin_y: bbox.upper_right.y,
        pixel_size_x: (bbox.size_x() / (width as int)) as i64,
        pixel_size_y: (-(bbox.size_y() / (height as int))) as i64,
    }
}

/// The zero-filled seed contents of a `rows` by `cols` output.
pub open spec fn zero_seed(rows: int, cols: int) -> Seq<int> {
    Seq::new((rows * cols) as nat, |i: int| 0)
}

/// Assembles one output raster of the requested pixel dimensions from a
/// tile stream: the output is seeded with zero over the target bounding
/// box and the stream is folded into it in emission order, last write
/// wins.  Fails with a geometry error when the box cannot be rastered as
/// requested or some tile's projection is invalid.
pub fn render_raster<P: Pixel>(
    bbox: BoundingBox2D,
    width: usize,
    height: usize,
    tiles: &Vec<Tile<P>>,
) -> (r: Result<OutputRaster<P>, Error>)
    requires
        forall|i: int| 0 <= i < tiles@.len() ==> (#[trigger] tiles@[i]).wf(),
    ensures
        r is Ok <==> (seed_ok(bbox, width, height) && all_blittable(
            seed_transform(bbox, width, height),
            tiles@,
        )),
        r matches Ok(o) ==> {
            &&& o.wf()
            &&& o.grid.shape == (GridShape { rows: height, cols: width })
            &&& o.grid.no_data is None
            &&& o.geo_transform == seed_transform(bbox, width, height)
            &&& o.grid.values() =~= composed_values(
                zero_seed(height as int, width as int),
                GridShape { rows: height, cols: width },
                seed_transform(bbox, width, height),
                tiles@,
            )
        },
        r matches Err(e) ==> e == Error::Geometry,
{
    let mut out = match seed_output::<P>(bbox, width, height) {
        Ok(o) => o,
        Err(e) => {
            return Err(e);
        },
    };
    proof {
        assert(out.geo_transform == seed_transform(bbox, width, height));
        assert(out.grid.values() =~= zero_seed(height as int, width as int));
    }
    match compose(&mut out, tiles) {
        Ok(()) => Ok(out),
        Err(e) => Err(e),
    }
}

/// Folding an empty tile stream leaves a freshly seeded output unchanged.
pub proof fn lemma_compose_empty<P: Pixel>(out0: Seq<int>, shape: GridShape, gt: GeoTransform)
    ensures
        composed_values::<P>(out0, shape, gt, Seq::<Tile<P>>::empty()) == out0,
{
}

/// A single tile blitted at offset zero whose shape equals the output's
/// reproduces that tile's data exactly, whatever the seed held.
pub proof fn lemma_blit_exact_cover<P: Pixel>(out0: Seq<int>, shape: GridShape, tile: Tile<P>)
    requires
        tile.wf(),
        tile.grid.shape == shape,
        out0.len() == shape.cell_count(),
    ensures
        blit_values(out0, shape, tile, 0, 0) =~= tile.grid.values(),
{
    let full = blit_values(out0, shape, tile, 0, 0);
    assert(tile.grid.values().len() == shape.cell_count());
    assert forall|i: int| 0 <= i < out0.len() implies full[i] == tile.grid.values()[i] by {
        assert(shape.cols as int > 0) by (nonlinear_arith)
            requires
                0 <= i < out0.len(),
                out0.len() == (shape.rows as int) * (shape.cols as int),
                shape.cols >= 0,
        ;
        lemma_rowmajor_split(i, shape.rows as int, shape.cols as int);
        let r = i / (shape.cols as int);
        let c = i % (shape.cols as int);
        assert(r * (shape.cols as int) + c == i) by (nonlinear_arith)
            requires
                i == (shape.cols as int) * r + c,
        ;
    }
}

/// Folding the single tile that exactly covers the output extent — same
/// geo-transform, same shape — reproduces that tile's data exactly,
/// whatever the pixel sizes are and whatever the seed held.
pub proof fn lemma_compose_exact_cover<P: Pixel>(
    out0: Seq<int>,
    shape: GridShape,
    gt: GeoTransform,
    tile: Tile<P>,
)
    requires
        tile.wf(),
        tile.grid.shape == shape,
        tile.geo_transform == gt,
        gt.pixel_size_x > 0,
        gt.pixel_size_y < 0,
        out0.len() == shape.cell_count(),
    ensures
        all_blittable(gt, seq![tile]),
        composed_values(out0, shape, gt, seq![tile]) =~= tile.grid.values(),
{
    lemma_same_transform_offsets(gt);
    assert(seq![tile].drop_last() =~= Seq::<Tile<P>>::empty());
    lemma_compose_empty::<P>(out0, shape, gt);
    assert(composed_values(out0, shape, gt, seq![tile].drop_last()) == out0);
    assert(seq![tile].last() == tile);
    assert(composed_values(out0, shape, gt, seq![tile]) == blit_values(out0, shape, tile, 0, 0));
    lemma_blit_exact_cover(out0, shape, tile);
}

/// The offsets of a tile whose geo-transform equals the output's are zero.
pub proof fn lemma_same_transform_offsets(gt: GeoTransform)
    requires
        gt.pixel_size_x > 0,
        gt.pixel_size_y < 0,
    ensures
        blit_ok(gt, gt),
        row_offset(gt, gt) == 0,
        col_offset(gt, gt) == 0,
{
    vstd::arithmetic::div_mod::lemma_small_mod(0, gt.pixel_size_x as nat);
    vstd::arithmetic::div_mod::lemma_small_mod(0, (-gt.pixel_size_y) as nat);
    vstd::arithmetic::div_mod::lemma_basic_div(0, gt.pixel_size_x as int);
    vstd::arithmetic::div_mod::lemma_basic_div(0, (-gt.pixel_size_y) as int);
}

/// Last write wins: folding two tiles that both exactly cover the output
/// extent, in order, yields the second tile's values at every cell — an
/// overwrite, not an average.
pub proof fn lemma_compose_overwrite<P: Pixel>(
    out0: Seq<int>,
    shape: GridShape,
    gt: GeoTransform,
    a: Tile<P>,
    b: Tile<P>,
)
    requires
        a.wf(),
        b.wf(),
        a.grid.shape == shape,
        b.grid.shape == shape,
        a.geo_transform == gt,
        b.geo_transform == gt,
        gt.pixel_size_x > 0,
        gt.pixel_size_y < 0,
        out0.len() == shape.cell_count(),
    ensures
        composed_values(out0, shape, gt, seq![a, b]) =~= b.grid.values(),
{
    lemma_same_transform_offsets(gt);
    let s = seq![a, b];
    assert(s.drop_last() =~= seq![a]);
    assert(seq![a].drop_last() =~= Seq::<Tile<P>>::empty());
    lemma_compose_empty::<P>(out0, shape, gt);
    assert(composed_values(out0, shape, gt, seq![a].drop_last()) == out0);
    assert(seq![a].last() == a);
    let after_a = composed_values(out0, shape, gt, seq![a]);
    assert(after_a == blit_values(out0, shape, a, 0, 0));
    lemma_blit_exact_cover(out0, shape, a);
    assert(after_a.len() == shape.cell_count());
    let after_b = composed_values(out0, shape, gt, s);
    assert(after_b == blit_values(after_a, shape, b, 0, 0));
    lemma_blit_exact_cover(after_a, shape, b);
}

/// One step of the blit: copying tile cell `t` either overwrites exactly
/// the output cell it projects to, or — when that cell lies outside the
/// output extent — changes nothing.
proof fn lemma_blit_upto_step<P: Pixel>(
    out0: Seq<int>,
    shape: GridShape,
    tile: Tile<P>,
    dr: int,
    dc: int,
    t: int,
)
    requires
        tile.wf(),
        tile.grid.shape.cols > 0,
        0 <= t < tile.grid.shape.rows * tile.grid.shape.cols,
        out0.len() == shape.cell_count(),
    ensures
        ({
            let tr = t / (tile.grid.shape.cols as int);
            let tc = t % (tile.grid.shape.cols as int);
            let our = dr + tr;
            let ouc = dc + tc;
            if 0 <= our < shape.rows && 0 <= ouc < shape.cols {
                blit_values_upto(out0, shape, tile, dr, dc, t + 1) =~= blit_values_upto(
                    out0,
                    shape,
                    tile,
                    dr,
                    dc,
                    t,
                ).update(our * (shape.cols as int) + ouc, tile.grid.values()[t])
            } else {
                blit_values_upto(out0, shape, tile, dr, dc, t + 1) =~= blit_values_upto(
                    out0,
                    shape,
                    tile,
                    dr,
                    dc,
                    t,
                )
            }
        }),
{
    let tcols = tile.grid.shape.cols as int;
    let trows = tile.grid.shape.rows as int;
    let tr = t / tcols;
    let tc = t % tcols;
    let our = dr + tr;
    let ouc = dc + tc;
    lemma_rowmajor_split(t, trows, tcols);
    let prev = blit_values_upto(out0, shape, tile, dr, dc, t);
    let next = blit_values_upto(out0, shape, tile, dr, dc, t + 1);
    if 0 <= our < shape.rows && 0 <= ouc < shape.cols {
        lemma_rowmajor_join(our, ouc, shape.rows as int, shape.cols as int);
        let target = our * (shape.cols as int) + ouc;
        assert forall|i: int| 0 <= i < out0.len() implies next[i] == prev.update(
            target,
            tile.grid.values()[t],
        )[i] by {
            lemma_rowmajor_split(i, shape.rows as int, shape.cols as int);
            let r = i / (shape.cols as int);
            let c = i % (shape.cols as int);
            if i == target {
                assert(r == our && c == ouc);
                assert(0 <= r - dr < trows && 0 <= c - dc < tcols);
                assert((r - dr) * tcols + (c - dc) == t) by (nonlinear_arith)
                    requires
                        r - dr == tr,
                        c - dc == tc,
                        t == tcols * tr + tc,
                ;
            } else {
                if 0 <= r - dr < trows && 0 <= c - dc < tcols {
                    if (r - dr) * tcols + (c - dc) == t {
                        lemma_rowmajor_join(r - dr, c - dc, trows, tcols);
                        assert(r - dr == tr && c - dc == tc);
                        assert(i == target) by (nonlinear_arith)
                            requires
                                r == our,
                                c == ouc,
                                i == (shape.cols as int) * r + c,
                                target == our * (shape.cols as int) + ouc,
                        ;
                        assert(false);
                    }
                }
            }
        }
    } else {
        assert forall|i: int| 0 <= i < out0.len() implies next[i] == prev[i] by {
            assert(shape.cols as int > 0) by (nonlinear_arith)
                requires
                    0 <= i < out0.len(),
                    out0.len() == (shape.rows as int) * (shape.cols as int),
                    shape.cols >= 0,
            ;
            lemma_rowmajor_split(i, shape.rows as int, shape.cols as int);
            let r = i / (shape.cols as int);
            let c = i % (shape.cols as int);
            if 0 <= r - dr < trows && 0 <= c - dc < tcols {
                if (r - dr) * tcols + (c - dc) == t {
                    lemma_rowmajor_join(r - dr, c - dc, trows, tcols);
                    assert(r - dr == tr && c - dc == tc);
                    assert(false);
                }
            }
        }
    }
}

/// After every tile cell has been copied, the partial blit is the full
/// blit.
proof fn lemma_blit_upto_complete<P: Pixel>(
    out0: Seq<int>,
    shape: GridShape,
    tile: Tile<P>,
    dr: int,
    dc: int,
)
    requires
        tile.wf(),
        out0.len() == shape.cell_count(),
    ensures
        blit_values_upto(
            out0,
            shape,
            tile,
            dr,
            dc,
            tile.grid.shape.rows * tile.grid.shape.cols,
        ) =~= blit_values(out0, shape, tile, dr, dc),
{
    let tcols = tile.grid.shape.cols as int;
    let trows = tile.grid.shape.rows as int;
    let n = trows * tcols;
    let upto = blit_values_upto(out0, shape, tile, dr, dc, n);
    let full = blit_values(out0, shape, tile, dr, dc);
    assert forall|i: int| 0 <= i < out0.len() implies upto[i] == full[i] by {
        assert(shape.cols as int > 0) by (nonlinear_arith)
            requires
                0 <= i < out0.len(),
                out0.len() == (shape.rows as int) * (shape.cols as int),
                shape.cols >= 0,
        ;
        let r = i / (shape.cols as int);
        let c = i % (shape.cols as int);
        if 0 <= r - dr < trows && 0 <= c - dc < tcols {
            assert((r - dr) * tcols + (c - dc) < n) by (nonlinear_arith)
                requires
                    0 <= r - dr < trows,
                    0 <= c - dc < tcols,
                    n == trows * tcols,
            ;
        }
    }
}

} // verus!
