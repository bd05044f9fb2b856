//! The stream transform and pairing engine.
//!
//! A unary per-tile transform changes only a tile's grid contents and keeps
//! its position, time interval and geo-transform.  The paired-time
//! transform issues two sub-queries at fixed instants and combines the two
//! resulting streams pairwise by emission order, truncating at the shorter
//! stream.  Both shapes compose: the output of one transform is a valid
//! input to another.
//!
//! Calls into the compute engine itself happen outside the library; the
//! functions here build the exchange buffers the engine consumes and check
//! and rebuild tiles from the buffers it returns.

use vstd::prelude::*;

use crate::error::Error;
use crate::grid::{combined_value, Grid};
use crate::pixel::Pixel;
use crate::query::QueryRectangle;
use crate::tile::{metadata_matches, Tile};
use crate::time::{change_detection_instants, days_from_unix_epoch};

verus! {

/// The tile `r` is the tile `t` with every grid cell combined with the
/// scalar `s`: metadata preserved, no-data cells passed through, every
/// other cell the wrapping sum.
pub open spec fn is_scalar_combined<P: Pixel>(r: Tile<P>, t: Tile<P>, s: int) -> bool {
    &&& metadata_matches(r, t)
    &&& r.wf()
    &&& r.grid.values().len() == t.grid.values().len()
    &&& forall|i: int| 0 <= i < t.grid.values().len() ==> r.grid.values()[i] == combined_value(
        t.grid.values()[i],
        s,
        t.grid.no_data_val(),
        P::min_val(),
        P::max_val(),
    )
}

/// Combines every cell of the tile's grid with the scalar `value`,
/// skipping cells that equal the no-data sentinel; position, time interval
/// and geo-transform are preserved.
pub fn add_scalar_tile<P: Pixel>(tile: Tile<P>, value: P) -> (r: Tile<P>)
    requires
        tile.wf(),
    ensures
        is_scalar_combined(r, tile, value.val()),
{
    let grid = tile.grid.combine_scalar(value);
    Tile { time: tile.time, position: tile.position, geo_transform: tile.geo_transform, grid }
}

/// Applies the scalar combination to every tile of a stream, in emission
/// order.  Tile metadata is preserved tile for tile.
pub fn add_scalar_stream<P: Pixel>(tiles: Vec<Tile<P>>, value: P) -> (r: Vec<Tile<P>>)
    requires
        forall|i: int| 0 <= i < tiles@.len() ==> #[trigger] tiles@[i].wf(),
    ensures
        r@.len() == tiles@.len(),
        forall|i: int| 0 <= i < tiles@.len() ==> #[trigger] is_scalar_combined(
            r@[i],
            tiles@[i],
            value.val(),
        ),
{
    let ghost tiles0 = tiles@;
    let mut rest = tiles;
    let mut out: Vec<Tile<P>> = Vec::new();
    let mut k: usize = 0;
    let n = rest.len();
    while k < n
        invariant
            k <= n,
            n == tiles0.len(),
            rest@ =~= tiles0.subrange(k as int, n as int),
            forall|i: int| 0 <= i < tiles0.len() ==> #[trigger] tiles0[i].wf(),
            out@.len() == k,
            forall|i: int| 0 <= i < k ==> #[trigger] is_scalar_combined(
                out@[i],
                tiles0[i],
                value.val(),
            ),
        decreases n - k,
    {
        let tile = rest.remove(0);
        proof {
            assert(tile == tiles0[k as int]);
        }
        let transformed = add_scalar_tile(tile, value);
        out.push(transformed);
        proof {
            assert(rest@ =~= tiles0.subrange(k as int + 1, n as int));
            assert(is_scalar_combined(out@[k as int], tiles0[k as int], value.val()));
        }
        k = k + 1;
    }
    out
}

/// Zips two tile streams pairwise by emission order: the i-th tile of the
/// first stream pairs with the i-th tile of the second.  When either stream
/// ends, pairing stops — the shorter stream wins, with no error and no
/// padding.
pub fn pair_streams<P: Pixel>(a: Vec<Tile<P>>, b: Vec<Tile<P>>) -> (r: Vec<(Tile<P>, Tile<P>)>)
    ensures
        r@.len() == if a@.len() <= b@.len() { a@.len() } else { b@.len() },
        forall|i: int| 0 <= i < r@.len() ==> (#[trigger] r@[i]).0 == a@[i] && r@[i].1 == b@[i],
{
    let ghost a0 = a@;
    let ghost b0 = b@;
    let n = if a.len() <= b.len() { a.len() } else { b.len() };
    let mut rest_a = a;
    let mut rest_b = b;
    let mut out: Vec<(Tile<P>, Tile<P>)> = Vec::new();
    let mut k: usize = 0;
    while k < n
        invariant
            k <= n,
            n <= a0.len(),
            n <= b0.len(),
            rest_a@ =~= a0.subrange(k as int, a0.len() as int),
            rest_b@ =~= b0.subrange(k as int, b0.len() as int),
            out@.len() == k,
            forall|i: int| 0 <= i < k ==> (#[trigger] out@[i]).0 == a0[i] && out@[i].1 == b0[i],
        decreases n - k,
    {
        let ta = rest_a.remove(0);
        let tb = rest_b.remove(0);
        proof {
            assert(ta == a0[k as int]);
            assert(tb == b0[k as int]);
        }
        out.push((ta, tb));
        proof {
            assert(rest_a@ =~= a0.subrange(k as int + 1, a0.len() as int));
            assert(rest_b@ =~= b0.subrange(k as int + 1, b0.len() as int));
            assert(out@[k as int].0 == a0[k as int] && out@[k as int].1 == b0[k as int]);
        }
        k = k + 1;
    }
    out
}

/// Concatenates two streams: the first stream's tiles are emitted, then
/// the second's.  This is the emission order of the two-pass engine
/// transform, whose fitting pass re-emits its input tiles before the
/// transforming pass emits the transformed ones.
pub fn chain_streams<P: Pixel>(first: Vec<Tile<P>>, second: Vec<Tile<P>>) -> (r: Vec<Tile<P>>)
    ensures
        r@ =~= first@ + second@,
{
    let mut r = first;
    let mut second = second;
    r.append(&mut second);
    r
}

/// The two sub-queries of the paired-time transform: the caller's query
/// with its time interval replaced by the fixed "before" and "after"
/// change-detection instants.  Bounding box and resolution are kept.
pub fn paired_time_queries(query: &QueryRectangle) -> (r: (QueryRectangle, QueryRectangle))
    ensures
        r.0.bbox == query.bbox,
        r.1.bbox == query.bbox,
        r.0.spatial_resolution == query.spatial_resolution,
        r.1.spatial_resolution == query.spatial_resolution,
        r.0.time_interval.start == 86_400_000 * days_from_unix_epoch(2014, 1, 1),
        r.0.time_interval.end == r.0.time_interval.start,
        r.1.time_interval.start == 86_400_000 * days_from_unix_epoch(2014, 6, 1),
        r.1.time_interval.end == r.1.time_interval.start,
{
    let (before, after) = change_detection_instants();
    (
        QueryRectangle {
            bbox: query.bbox,
            time_interval: before,
            spatial_resolution: query.spatial_resolution,
        },
        QueryRectangle {
            bbox: query.bbox,
            time_interval: after,
            spatial_resolution: query.spatial_resolution,
        },
    )
}

/// The dense row-major exchange buffer for one grid, as handed across the
/// compute-engine boundary: every cell widened to the exchange integer.
pub fn engine_buffer<P: Pixel>(grid: &Grid<P>) -> (r: Vec<i128>)
    ensures
        r@.len() == grid.values().len(),
        forall|i: int| 0 <= i < r@.len() ==> r@[i] == grid.values()[i],
{
    let mut out: Vec<i128> = Vec::new();
    let n = grid.data.len();
    let mut k: usize = 0;
    while k < n
        invariant
            k <= n,
            n == grid.data@.len(),
            out@.len() == k,
            forall|i: int| 0 <= i < k ==> out@[i] == grid.data@[i].val(),
        decreases n - k,
    {
        out.push(grid.data[k].widen());
        k = k + 1;
    }
    proof {
        assert forall|i: int| 0 <= i < out@.len() implies out@[i] == grid.values()[i] by {
            assert(grid.values()[i] == grid.data@[i].val());
        }
    }
    out
}

/// Rebuilds a tile from a buffer the compute engine returned for it,
/// narrowing every value back to the pixel representation.  The rebuilt
/// tile carries the template's metadata unchanged.  Fails with
/// `ComputeEngine` exactly when the buffer's length does not match the
/// template's shape or some value lies outside the representation's range.
pub fn tile_from_engine_buffer<P: Pixel>(template: &Tile<P>, buffer: &Vec<i128>) -> (r: Result<
    Tile<P>,
    Error,
>)
    requires
        template.wf(),
    ensures
        r is Ok <==> (buffer@.len() == template.grid.values().len() && forall|i: int|
            0 <= i < buffer@.len() ==> P::min_val() <= #[trigger] buffer@[i] <= P::max_val()),
        r matches Ok(t) ==> {
            &&& metadata_matches(t, *template)
            &&& t.wf()
            &&& t.grid.values().len() == buffer@.len()
            &&& forall|i: int| 0 <= i < buffer@.len() ==> t.grid.values()[i] == buffer@[i]
        },
        r matches Err(e) ==> e == Error::ComputeEngine,
{
    if buffer.len() != template.grid.data.len() {
        return Err(Error::ComputeEngine);
    }
    let mut data: Vec<P> = Vec::new();
    let n = buffer.len();
    let mut k: usize = 0;
    while k < n
        invariant
            k <= n,
            n == buffer@.len(),
            data@.len() == k,
            forall|i: int| 0 <= i < k ==> P::min_val() <= #[trigger] buffer@[i] <= P::max_val(),
            forall|i: int| 0 <= i < k ==> data@[i].val() == buffer@[i],
        decreases n - k,
    {
        match P::narrow(buffer[k]) {
            Some(p) => {
                data.push(p);
            },
            None => {
                return Err(Error::ComputeEngine);
            },
        }
        k = k + 1;
    }
    let t = Tile {
        time: template.time,
        position: template.position,
        geo_transform: template.geo_transform,
        grid: Grid {
            shape: template.grid.shape,
            data,
            no_data: template.grid.no_data,
        },
    };
    proof {
        assert forall|i: int| 0 <= i < buffer@.len() implies t.grid.values()[i] == buffer@[i] by {
            assert(t.grid.values()[i] == t.grid.data@[i].val());
        }
    }
    Ok(t)
}

/// Round trip across the engine boundary: a buffer holding exactly a
/// tile's own values — as [`engine_buffer`] produces — lies within the
/// pixel representation's range at every position, so rebuilding the tile
/// from it succeeds and reproduces the tile's values.
pub proof fn lemma_engine_buffer_round_trip<P: Pixel>(tile: Tile<P>, buffer: Seq<int>)
    requires
        tile.wf(),
        buffer.len() == tile.grid.values().len(),
        forall|i: int| 0 <= i < buffer.len() ==> #[trigger] buffer[i] == tile.grid.values()[i],
    ensures
        forall|i: int| 0 <= i < buffer.len() ==> P::min_val() <= #[trigger] buffer[i]
            <= P::max_val(),
{
    assert forall|i: int| 0 <= i < buffer.len() implies P::min_val() <= #[trigger] buffer[i]
        <= P::max_val() by {
        assert(tile.grid.values()[i] == tile.grid.data@[i].val());
        tile.grid.data@[i].lemma_val_in_range();
    }
}

/// Checks that the two tiles of a pair can be combined: their shapes must
/// agree.  Fails with a `Shape` error carrying the two cell counts.
pub fn paired_shape_check<P: Pixel>(pre: &Tile<P>, post: &Tile<P>) -> (r: Result<(), Error>)
    requires
        pre.wf(),
        post.wf(),
    ensures
        r is Ok <==> pre.grid.shape == post.grid.shape,
        r matches Err(e) ==> e == (Error::Shape {
            expected: pre.grid.data@.len() as usize,
            found: post.grid.data@.len() as usize,
        }),
{
    if pre.grid.shape == post.grid.shape {
        Ok(())
    } else {
        Err(Error::Shape { expected: pre.grid.data.len(), found: post.grid.data.len() })
    }
}

/// Rebuilds the output tile of one paired combination from the change map
/// the compute engine returned, conventionally using the spatial and
/// temporal metadata of the first ("before") tile.  Fails with a `Shape`
/// error when the pair's shapes disagree, and with `ComputeEngine` when
/// the returned buffer is malformed.
pub fn paired_output_tile<P: Pixel>(
    pre: &Tile<P>,
    post: &Tile<P>,
    buffer: &Vec<i128>,
) -> (r: Result<Tile<P>, Error>)
    requires
        pre.wf(),
        post.wf(),
    ensures
        r is Ok <==> (pre.grid.shape == post.grid.shape
            && buffer@.len() == pre.grid.values().len()
            && forall|i: int| 0 <= i < buffer@.len() ==> P::min_val() <= #[trigger] buffer@[i]
                <= P::max_val()),
        r matches Ok(t) ==> {
            &&& metadata_matches(t, *pre)
            &&& t.wf()
            &&& t.grid.values().len() == buffer@.len()
            &&& forall|i: int| 0 <= i < buffer@.len() ==> t.grid.values()[i] == buffer@[i]
        },
        r matches Err(e) ==> if pre.grid.shape != post.grid.shape {
            e == (Error::Shape {
                expected: pre.grid.data@.len() as usize,
                found: post.grid.data@.len() as usize,
            })
        } else {
            e == Error::ComputeEngine
        },
{
    match paired_shape_check(pre, post) {
        Ok(()) => tile_from_engine_buffer(pre, buffer),
        Err(e) => Err(e),
    }
}

} // verus!
