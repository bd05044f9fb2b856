//! Query processors: lazy tile streams behind one pixel-type-generic
//! interface.
//!
//! A source processor answers a query with its tiles; a derived processor
//! wraps an upstream processor and transforms what it emits.  Processors
//! that call the compute engine do not run the engine themselves: their
//! query returns the prepared inputs and sub-queries as a [`QueryStep`],
//! and the driver outside the library performs the calls, using the
//! checked rebuild functions of [`crate::stream`] on what comes back.

use vstd::prelude::*;

use crate::grid::combined_value;
use crate::pixel::{saturate_val, Pixel};
use crate::query::QueryRectangle;
use crate::stream::{add_scalar_stream, is_scalar_combined, paired_time_queries};
use crate::tile::{model_of, Tile, TileModel};
use crate::time::days_from_unix_epoch;

verus! {

/// A processor that adds a constant to every cell of every tile its
/// upstream emits, passing no-data cells through.
#[derive(Debug)]
pub struct AddXProcessor<P> {
    pub raster: Box<PureProcessor<P>>,
    pub add_value: P,
}

/// A processor whose tiles are computed entirely within the library: a
/// source, or a per-tile transform over another such processor.
#[derive(Debug)]
pub enum PureProcessor<P> {
    /// Answers every query with its tiles, in emission order.  Which tiles
    /// a query rectangle selects is the producer's responsibility; this
    /// source holds exactly the tiles it was built with.
    Source { tiles: Vec<Tile<P>> },
    /// A per-tile scalar addition over an upstream processor.
    AddX(AddXProcessor<P>),
}

impl<P: Pixel> AddXProcessor<P> {
    /// Wraps an upstream processor; the value to add arrives in world form
    /// and is brought into the pixel representation by saturation.
    pub fn new(raster: Box<PureProcessor<P>>, add_value: i64) -> (r: Self)
        ensures
            r.raster == raster,
            r.add_value.val() == saturate_val(add_value as int, P::min_val(), P::max_val()),
    {
        AddXProcessor { raster, add_value: P::narrow_saturating(add_value as i128) }
    }
}

impl<P: Pixel> PureProcessor<P> {
    /// Every tile held by every source of the processor is well formed.
    pub open spec fn wf(self) -> bool
        decreases self,
    {
        match self {
            PureProcessor::Source { tiles } => forall|i: int|
                0 <= i < tiles@.len() ==> (#[trigger] tiles@[i]).wf(),
            PureProcessor::AddX(a) => (*a.raster).wf(),
        }
    }
}

/// The model of a tile after a scalar addition: metadata kept, the no-data
/// sentinel passed through, every other cell the wrapping sum.
pub open spec fn add_model(m: TileModel, s: int, lo: int, hi: int) -> TileModel {
    TileModel {
        values: Seq::new(m.values.len(), |i: int| combined_value(m.values[i], s, m.no_data, lo, hi)),
        ..m
    }
}

/// The models of the tiles a pure processor emits for any query, in
/// emission order.
pub open spec fn spec_query_pure<P: Pixel>(p: PureProcessor<P>) -> Seq<TileModel>
    decreases p,
{
    match p {
        PureProcessor::Source { tiles } => tiles@.map(|i: int, t: Tile<P>| model_of(t)),
        PureProcessor::AddX(a) => spec_query_pure(*a.raster).map(
            |i: int, m: TileModel| add_model(m, a.add_value.val(), P::min_val(), P::max_val()),
        ),
    }
}

/// A scalar-combined tile models exactly as `add_model` says.
proof fn lemma_scalar_combined_model<P: Pixel>(r: Tile<P>, t: Tile<P>, s: int)
    requires
        is_scalar_combined(r, t, s),
    ensures
        model_of(r) == add_model(model_of(t), s, P::min_val(), P::max_val()),
{
    assert(model_of(r).values =~= add_model(model_of(t), s, P::min_val(), P::max_val()).values);
}

/// Runs one query against a pure processor: the emitted tiles are exactly
/// the processor's model, and they are well formed.
pub fn query_pure<P: Pixel>(p: &PureProcessor<P>, query: &QueryRectangle) -> (r: Vec<Tile<P>>)
    requires
        p.wf(),
    ensures
        r@.map(|i: int, t: Tile<P>| model_of(t)) =~= spec_query_pure(*p),
        forall|i: int| 0 <= i < r@.len() ==> (#[trigger] r@[i]).wf(),
    decreases *p,
{
    match p {
        PureProcessor::Source { tiles } => {
            let r = Tile::duplicate_stream(tiles);
            proof {
                assert(r@.map(|i: int, t: Tile<P>| model_of(t)) =~= spec_query_pure(*p));
                assert forall|i: int| 0 <= i < r@.len() implies (#[trigger] r@[i]).wf() by {
                    assert(tiles@[i].wf());
                }
            }
            r
        },
        PureProcessor::AddX(a) => {
            let upstream = query_pure(&a.raster, query);
            let r = add_scalar_stream(upstream, a.add_value);
            proof {
                let models = r@.map(|i: int, t: Tile<P>| model_of(t));
                let target = spec_query_pure(*p);
                assert forall|i: int| 0 <= i < models.len() implies models[i] == target[i] by {
                    lemma_scalar_combined_model(r@[i], upstream@[i], a.add_value.val());
                }
                assert(models =~= target);
                assert forall|i: int| 0 <= i < r@.len() implies (#[trigger] r@[i]).wf() by {
                    assert(is_scalar_combined(r@[i], upstream@[i], a.add_value.val()));
                }
            }
            r
        },
    }
}

/// The example paired processor: holds the value its unary transform would
/// add, and answers queries with the paired change-detection step.
#[derive(Debug)]
pub struct PyProcessor<P> {
    pub raster: Box<PureProcessor<P>>,
    pub add_value: P,
}

impl<P: Pixel> PyProcessor<P> {
    /// Wraps an upstream processor; the scalar arrives in world form and
    /// is brought into the pixel representation by saturation.
    pub fn new(raster: Box<PureProcessor<P>>, add_value: i64) -> (r: Self)
        ensures
            r.raster == raster,
            r.add_value.val() == saturate_val(add_value as int, P::min_val(), P::max_val()),
    {
        PyProcessor { raster, add_value: P::narrow_saturating(add_value as i128) }
    }
}

/// The incremental-analysis processor: fits the engine's model on every
/// tile of one pass, then transforms every tile in a second pass.
#[derive(Debug)]
pub struct IpcaPyProcessor<P> {
    pub raster: Box<PureProcessor<P>>,
    pub n_components: usize,
}

impl<P: Pixel> IpcaPyProcessor<P> {
    pub fn new(raster: Box<PureProcessor<P>>, n_comp: usize) -> (r: Self)
        ensures
            r.raster == raster,
            r.n_components == n_comp,
    {
        IpcaPyProcessor { raster, n_components: n_comp }
    }
}

/// The change-detection processor: issues the two fixed-instant
/// sub-queries and hands tile pairs to the engine's compare call.
#[derive(Debug)]
pub struct KmeansPyProcessor<P> {
    pub raster: Box<PureProcessor<P>>,
}

impl<P: Pixel> KmeansPyProcessor<P> {
    pub fn new(raster: Box<PureProcessor<P>>) -> (r: Self)
        ensures
            r.raster == raster,
    {
        KmeansPyProcessor { raster }
    }
}

/// Any processor of the pipeline.
#[derive(Debug)]
pub enum Processor<P> {
    Pure(PureProcessor<P>),
    Py(PyProcessor<P>),
    Ipca(IpcaPyProcessor<P>),
    Kmeans(KmeansPyProcessor<P>),
}

impl<P: Pixel> Processor<P> {
    /// Every tile held by every source of the processor is well formed.
    pub open spec fn wf(self) -> bool {
        match self {
            Processor::Pure(p) => p.wf(),
            Processor::Py(p) => (*p.raster).wf(),
            Processor::Ipca(p) => (*p.raster).wf(),
            Processor::Kmeans(p) => (*p.raster).wf(),
        }
    }
}

/// What one query against a processor yields: either the finished tile
/// stream, or the prepared inputs of the compute-engine step the driver
/// must perform next.
#[derive(Debug)]
pub enum QueryStep<P> {
    /// The stream was computed entirely within the library.
    Tiles(Vec<Tile<P>>),
    /// A two-pass engine transform: establish the engine's state with
    /// `n_components`, fit it incrementally on every tile (re-emitting the
    /// tiles unchanged), then transform every tile with
    /// [`crate::stream::tile_from_engine_buffer`] on what the engine
    /// returns.
    EngineFitTransform { tiles: Vec<Tile<P>>, n_components: usize },
    /// A paired change detection: pair the two sub-streams with
    /// [`crate::stream::pair_streams`] and rebuild each engine result with
    /// [`crate::stream::paired_output_tile`].  The two sub-queries that
    /// produced the streams are carried along.
    EngineCompare {
        pre: Vec<Tile<P>>,
        post: Vec<Tile<P>>,
        query_pre: QueryRectangle,
        query_post: QueryRectangle,
    },
}

/// The models of a tile sequence.
pub open spec fn models_of<P: Pixel>(tiles: Seq<Tile<P>>) -> Seq<TileModel> {
    tiles.map(|i: int, t: Tile<P>| model_of(t))
}

/// Every tile of the sequence is well formed.
pub open spec fn all_wf<P: Pixel>(tiles: Seq<Tile<P>>) -> bool {
    forall|i: int| 0 <= i < tiles.len() ==> (#[trigger] tiles[i]).wf()
}

/// Runs one query against a processor.  A pure processor's stream is
/// finished; an engine processor's query prepares the engine step: its
/// upstream tiles (queried once per pass over the same source, which
/// yields the same stream) and, for the paired transform, the two
/// fixed-instant sub-queries.
pub fn raster_query<P: Pixel>(p: &Processor<P>, query: &QueryRectangle) -> (r: QueryStep<P>)
    requires
        p.wf(),
    ensures
        p matches Processor::Pure(pp) ==> (r matches QueryStep::Tiles(ts) && models_of(ts@)
            =~= spec_query_pure(*pp) && all_wf(ts@)),
        p matches Processor::Ipca(e) ==> (r matches QueryStep::EngineFitTransform {
            tiles,
            n_components,
        } && n_components == e.n_components && models_of(tiles@) =~= spec_query_pure(*e.raster)
            && all_wf(tiles@)),
        (p is Py || p is Kmeans) ==> (r matches QueryStep::EngineCompare {
            pre,
            post,
            query_pre,
            query_post,
        } && {
            let upstream = if p is Py {
                *p->Py_0.raster
            } else {
                *p->Kmeans_0.raster
            };
            &&& models_of(pre@) =~= spec_query_pure(upstream)
            &&& models_of(post@) =~= spec_query_pure(upstream)
            &&& all_wf(pre@)
            &&& all_wf(post@)
            &&& query_pre.bbox == query.bbox
            &&& query_post.bbox == query.bbox
            &&& query_pre.spatial_resolution == query.spatial_resolution
            &&& query_post.spatial_resolution == query.spatial_resolution
            &&& query_pre.time_interval.start == 86_400_000 * days_from_unix_epoch(2014, 1, 1)
            &&& query_pre.time_interval.end == query_pre.time_interval.start
            &&& query_post.time_interval.start == 86_400_000 * days_from_unix_epoch(2014, 6, 1)
            &&& query_post.time_interval.end == query_post.time_interval.start
        }),
{
    match p {
        Processor::Pure(pp) => QueryStep::Tiles(query_pure(pp, query)),
        Processor::Ipca(e) => QueryStep::EngineFitTransform {
            tiles: query_pure(&e.raster, query),
            n_components: e.n_components,
        },
        Processor::Py(e) => {
            let (query_pre, query_post) = paired_time_queries(query);
            QueryStep::EngineCompare {
                pre: query_pure(&e.raster, &query_pre),
                post: query_pure(&e.raster, &query_post),
                query_pre,
                query_post,
            }
        },
        Processor::Kmeans(e) => {
            let (query_pre, query_post) = paired_time_queries(query);
            QueryStep::EngineCompare {
                pre: query_pure(&e.raster, &query_pre),
                post: query_pure(&e.raster, &query_post),
                query_pre,
                query_post,
            }
        },
    }
}

} // verus!
