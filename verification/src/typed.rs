//! The typed-union layer: one variant per pixel representation.
//!
//! Tile data, pure processors and full processors each come in a tagged
//! union with one variant per pixel type.  A derived processor selects its
//! own variant by matching the wrapped upstream variant, which keeps the
//! result pixel type statically known before any tile is produced.

use vstd::prelude::*;

use crate::pixel::{saturate_val, Pixel};
use crate::processor::{
    add_model, all_wf, models_of, spec_query_pure, AddXProcessor, IpcaPyProcessor,
    KmeansPyProcessor, Processor, PureProcessor, PyProcessor,
};
use crate::query::RasterDataType;
use crate::tile::{Tile, TileModel};

verus! {

/// The smallest value of an integer pixel kind.  The float kinds address
/// no integer range and never occur in typed tile data.
pub open spec fn kind_lo(k: RasterDataType) -> int {
    match k {
        RasterDataType::U8 => u8::MIN as int,
        RasterDataType::U16 => u16::MIN as int,
        RasterDataType::U32 => u32::MIN as int,
        RasterDataType::U64 => u64::MIN as int,
        RasterDataType::I8 => i8::MIN as int,
        RasterDataType::I16 => i16::MIN as int,
        RasterDataType::I32 => i32::MIN as int,
        RasterDataType::I64 => i64::MIN as int,
        RasterDataType::F32 => 0,
        RasterDataType::F64 => 0,
    }
}

/// The largest value of an integer pixel kind.
pub open spec fn kind_hi(k: RasterDataType) -> int {
    match k {
        RasterDataType::U8 => u8::MAX as int,
        RasterDataType::U16 => u16::MAX as int,
        RasterDataType::U32 => u32::MAX as int,
        RasterDataType::U64 => u64::MAX as int,
        RasterDataType::I8 => i8::MAX as int,
        RasterDataType::I16 => i16::MAX as int,
        RasterDataType::I32 => i32::MAX as int,
        RasterDataType::I64 => i64::MAX as int,
        RasterDataType::F32 => 0,
        RasterDataType::F64 => 0,
    }
}

/// The models of a stream after a per-tile scalar addition: the scalar is
/// saturated into the pixel kind's range and combined cell-wise, skipping
/// no-data cells.
pub open spec fn add_models(ms: Seq<TileModel>, x: i64, k: RasterDataType) -> Seq<TileModel> {
    ms.map(
        |i: int, m: TileModel| add_model(
            m,
            saturate_val(x as int, kind_lo(k), kind_hi(k)),
            kind_lo(k),
            kind_hi(k),
        ),
    )
}

/// Tile data of one of the integer pixel representations.
#[derive(Debug)]
pub enum TypedTileData {
    U8(Vec<Tile<u8>>),
    U16(Vec<Tile<u16>>),
    U32(Vec<Tile<u32>>),
    U64(Vec<Tile<u64>>),
    I8(Vec<Tile<i8>>),
    I16(Vec<Tile<i16>>),
    I32(Vec<Tile<i32>>),
    I64(Vec<Tile<i64>>),
}

impl TypedTileData {
    /// The pixel kind of this data.
    pub open spec fn kind(self) -> RasterDataType {
        match self {
            TypedTileData::U8(_) => RasterDataType::U8,
            TypedTileData::U16(_) => RasterDataType::U16,
            TypedTileData::U32(_) => RasterDataType::U32,
            TypedTileData::U64(_) => RasterDataType::U64,
            TypedTileData::I8(_) => RasterDataType::I8,
            TypedTileData::I16(_) => RasterDataType::I16,
            TypedTileData::I32(_) => RasterDataType::I32,
            TypedTileData::I64(_) => RasterDataType::I64,
        }
    }

    /// The models of the tiles, in order.
    pub open spec fn models(self) -> Seq<TileModel> {
        match self {
            TypedTileData::U8(t) => models_of(t@),
            TypedTileData::U16(t) => models_of(t@),
            TypedTileData::U32(t) => models_of(t@),
            TypedTileData::U64(t) => models_of(t@),
            TypedTileData::I8(t) => models_of(t@),
            TypedTileData::I16(t) => models_of(t@),
            TypedTileData::I32(t) => models_of(t@),
            TypedTileData::I64(t) => models_of(t@),
        }
    }

    /// Every tile is well formed.
    pub open spec fn wf(self) -> bool {
        match self {
            TypedTileData::U8(t) => all_wf(t@),
            TypedTileData::U16(t) => all_wf(t@),
            TypedTileData::U32(t) => all_wf(t@),
            TypedTileData::U64(t) => all_wf(t@),
            TypedTileData::I8(t) => all_wf(t@),
            TypedTileData::I16(t) => all_wf(t@),
            TypedTileData::I32(t) => all_wf(t@),
            TypedTileData::I64(t) => all_wf(t@),
        }
    }
}

/// A pure processor of one of the integer pixel representations.
#[derive(Debug)]
pub enum TypedPureProcessor {
    U8(PureProcessor<u8>),
    U16(PureProcessor<u16>),
    U32(PureProcessor<u32>),
    U64(PureProcessor<u64>),
    I8(PureProcessor<i8>),
    I16(PureProcessor<i16>),
    I32(PureProcessor<i32>),
    I64(PureProcessor<i64>),
}

impl TypedPureProcessor {
    /// The pixel kind of this processor.
    pub open spec fn kind(self) -> RasterDataType {
        match self {
            TypedPureProcessor::U8(_) => RasterDataType::U8,
            TypedPureProcessor::U16(_) => RasterDataType::U16,
            TypedPureProcessor::U32(_) => RasterDataType::U32,
            TypedPureProcessor::U64(_) => RasterDataType::U64,
            TypedPureProcessor::I8(_) => RasterDataType::I8,
            TypedPureProcessor::I16(_) => RasterDataType::I16,
            TypedPureProcessor::I32(_) => RasterDataType::I32,
            TypedPureProcessor::I64(_) => RasterDataType::I64,
        }
    }

    /// The models of the tiles the processor emits for any query.
    pub open spec fn models(self) -> Seq<TileModel> {
        match self {
            TypedPureProcessor::U8(p) => spec_query_pure(p),
            TypedPureProcessor::U16(p) => spec_query_pure(p),
            TypedPureProcessor::U32(p) => spec_query_pure(p),
            TypedPureProcessor::U64(p) => spec_query_pure(p),
            TypedPureProcessor::I8(p) => spec_query_pure(p),
            TypedPureProcessor::I16(p) => spec_query_pure(p),
            TypedPureProcessor::I32(p) => spec_query_pure(p),
            TypedPureProcessor::I64(p) => spec_query_pure(p),
        }
    }

    /// Every tile held by every source is well formed.
    pub open spec fn wf(self) -> bool {
        match self {
            TypedPureProcessor::U8(p) => p.wf(),
            TypedPureProcessor::U16(p) => p.wf(),
            TypedPureProcessor::U32(p) => p.wf(),
            TypedPureProcessor::U64(p) => p.wf(),
            TypedPureProcessor::I8(p) => p.wf(),
            TypedPureProcessor::I16(p) => p.wf(),
            TypedPureProcessor::I32(p) => p.wf(),
            TypedPureProcessor::I64(p) => p.wf(),
        }
    }
}

/// A processor of one of the integer pixel representations.
#[derive(Debug)]
pub enum TypedProcessor {
    U8(Processor<u8>),
    U16(Processor<u16>),
    U32(Processor<u32>),
    U64(Processor<u64>),
    I8(Processor<i8>),
    I16(Processor<i16>),
    I32(Processor<i32>),
    I64(Processor<i64>),
}

/// The shape of the work one query against a stage performs: a stream
/// finished within the library, a two-pass engine fit-and-transform, or a
/// paired engine comparison.
#[derive(Debug)]
pub enum StageKind {
    Pure,
    FitTransform { n_components: usize },
    Compare,
}

/// The stage shape of one processor, pixel type erased.
pub open spec fn proc_stage_kind<P: Pixel>(p: Processor<P>) -> StageKind {
    match p {
        Processor::Pure(_) => StageKind::Pure,
        Processor::Py(_) => StageKind::Compare,
        Processor::Ipca(e) => StageKind::FitTransform { n_components: e.n_components },
        Processor::Kmeans(_) => StageKind::Compare,
    }
}

/// The models of the stream a processor's stage works on: what a pure
/// processor emits, or what an engine processor's upstream hands it.
pub open spec fn proc_stage_models<P: Pixel>(p: Processor<P>) -> Seq<TileModel> {
    match p {
        Processor::Pure(pp) => spec_query_pure(pp),
        Processor::Py(e) => spec_query_pure(*e.raster),
        Processor::Ipca(e) => spec_query_pure(*e.raster),
        Processor::Kmeans(e) => spec_query_pure(*e.raster),
    }
}

impl TypedProcessor {
    /// The pixel kind of this processor.
    pub open spec fn kind(self) -> RasterDataType {
        match self {
            TypedProcessor::U8(_) => RasterDataType::U8,
            TypedProcessor::U16(_) => RasterDataType::U16,
            TypedProcessor::U32(_) => RasterDataType::U32,
            TypedProcessor::U64(_) => RasterDataType::U64,
            TypedProcessor::I8(_) => RasterDataType::I8,
            TypedProcessor::I16(_) => RasterDataType::I16,
            TypedProcessor::I32(_) => RasterDataType::I32,
            TypedProcessor::I64(_) => RasterDataType::I64,
        }
    }

    /// The stage shape: pure, fit-and-transform, or paired comparison.
    pub open spec fn stage_kind(self) -> StageKind {
        match self {
            TypedProcessor::U8(p) => proc_stage_kind(p),
            TypedProcessor::U16(p) => proc_stage_kind(p),
            TypedProcessor::U32(p) => proc_stage_kind(p),
            TypedProcessor::U64(p) => proc_stage_kind(p),
            TypedProcessor::I8(p) => proc_stage_kind(p),
            TypedProcessor::I16(p) => proc_stage_kind(p),
            TypedProcessor::I32(p) => proc_stage_kind(p),
            TypedProcessor::I64(p) => proc_stage_kind(p),
        }
    }

    /// The models of the stream the stage works on.
    pub open spec fn stage_models(self) -> Seq<TileModel> {
        match self {
            TypedProcessor::U8(p) => proc_stage_models(p),
            TypedProcessor::U16(p) => proc_stage_models(p),
            TypedProcessor::U32(p) => proc_stage_models(p),
            TypedProcessor::U64(p) => proc_stage_models(p),
            TypedProcessor::I8(p) => proc_stage_models(p),
            TypedProcessor::I16(p) => proc_stage_models(p),
            TypedProcessor::I32(p) => proc_stage_models(p),
            TypedProcessor::I64(p) => proc_stage_models(p),
        }
    }

    /// Every tile held by every source is well formed.
    pub open spec fn wf(self) -> bool {
        match self {
            TypedProcessor::U8(p) => p.wf(),
            TypedProcessor::U16(p) => p.wf(),
            TypedProcessor::U32(p) => p.wf(),
            TypedProcessor::U64(p) => p.wf(),
            TypedProcessor::I8(p) => p.wf(),
            TypedProcessor::I16(p) => p.wf(),
            TypedProcessor::I32(p) => p.wf(),
            TypedProcessor::I64(p) => p.wf(),
        }
    }
}

/// A source processor over a copy of the given tiles.
fn source_processor<P: Pixel>(tiles: &Vec<Tile<P>>) -> (r: PureProcessor<P>)
    ensures
        spec_query_pure(r) =~= models_of(tiles@),
        all_wf(tiles@) ==> r.wf(),
{
    let dup = Tile::duplicate_stream(tiles);
    let r = PureProcessor::Source { tiles: dup };
    proof {
        assert(spec_query_pure(r) =~= models_of(tiles@));
        if all_wf(tiles@) {
            assert forall|i: int| 0 <= i < dup@.len() implies (#[trigger] dup@[i]).wf() by {
                assert(tiles@[i].wf());
            }
        }
    }
    r
}

/// A source processor of the matching variant over a copy of the data.
pub fn typed_source(data: &TypedTileData) -> (r: TypedPureProcessor)
    ensures
        r.kind() == data.kind(),
        r.models() =~= data.models(),
        data.wf() ==> r.wf(),
{
    match data {
        TypedTileData::U8(t) => TypedPureProcessor::U8(source_processor(t)),
        TypedTileData::U16(t) => TypedPureProcessor::U16(source_processor(t)),
        TypedTileData::U32(t) => TypedPureProcessor::U32(source_processor(t)),
        TypedTileData::U64(t) => TypedPureProcessor::U64(source_processor(t)),
        TypedTileData::I8(t) => TypedPureProcessor::I8(source_processor(t)),
        TypedTileData::I16(t) => TypedPureProcessor::I16(source_processor(t)),
        TypedTileData::I32(t) => TypedPureProcessor::I32(source_processor(t)),
        TypedTileData::I64(t) => TypedPureProcessor::I64(source_processor(t)),
    }
}

/// Wraps one pure processor in the per-tile scalar addition.
fn wrap_addx_p<P: Pixel>(up: PureProcessor<P>, x: i64) -> (r: PureProcessor<P>)
    ensures
        spec_query_pure(r) =~= spec_query_pure(up).map(
            |i: int, m: TileModel| add_model(
                m,
                saturate_val(x as int, P::min_val(), P::max_val()),
                P::min_val(),
                P::max_val(),
            ),
        ),
        up.wf() ==> r.wf(),
{
    let r = PureProcessor::AddX(AddXProcessor::new(Box::new(up), x));
    proof {
        assert(spec_query_pure(r) =~= spec_query_pure(up).map(
            |i: int, m: TileModel| add_model(
                m,
                saturate_val(x as int, P::min_val(), P::max_val()),
                P::min_val(),
                P::max_val(),
            ),
        ));
    }
    r
}

/// The derived processor of the per-tile scalar addition: it selects its
/// own variant by matching the wrapped upstream variant.
pub fn typed_wrap_addx(up: TypedPureProcessor, x: i64) -> (r: TypedPureProcessor)
    ensures
        r.kind() == up.kind(),
        r.models() =~= add_models(up.models(), x, up.kind()),
        up.wf() ==> r.wf(),
{
    match up {
        TypedPureProcessor::U8(p) => TypedPureProcessor::U8(wrap_addx_p(p, x)),
        TypedPureProcessor::U16(p) => TypedPureProcessor::U16(wrap_addx_p(p, x)),
        TypedPureProcessor::U32(p) => TypedPureProcessor::U32(wrap_addx_p(p, x)),
        TypedPureProcessor::U64(p) => TypedPureProcessor::U64(wrap_addx_p(p, x)),
        TypedPureProcessor::I8(p) => TypedPureProcessor::I8(wrap_addx_p(p, x)),
        TypedPureProcessor::I16(p) => TypedPureProcessor::I16(wrap_addx_p(p, x)),
        TypedPureProcessor::I32(p) => TypedPureProcessor::I32(wrap_addx_p(p, x)),
        TypedPureProcessor::I64(p) => TypedPureProcessor::I64(wrap_addx_p(p, x)),
    }
}

/// A pure processor as a full processor of the same variant.
pub fn typed_pure(up: TypedPureProcessor) -> (r: TypedProcessor)
    ensures
        r.kind() == up.kind(),
        r.stage_kind() == StageKind::Pure,
        r.stage_models() =~= up.models(),
        up.wf() ==> r.wf(),
{
    match up {
        TypedPureProcessor::U8(p) => TypedProcessor::U8(Processor::Pure(p)),
        TypedPureProcessor::U16(p) => TypedProcessor::U16(Processor::Pure(p)),
        TypedPureProcessor::U32(p) => TypedProcessor::U32(Processor::Pure(p)),
        TypedPureProcessor::U64(p) => TypedProcessor::U64(Processor::Pure(p)),
        TypedPureProcessor::I8(p) => TypedProcessor::I8(Processor::Pure(p)),
        TypedPureProcessor::I16(p) => TypedProcessor::I16(Processor::Pure(p)),
        TypedPureProcessor::I32(p) => TypedProcessor::I32(Processor::Pure(p)),
        TypedPureProcessor::I64(p) => TypedProcessor::I64(Processor::Pure(p)),
    }
}

/// The derived paired example processor over a pure upstream.
pub fn typed_wrap_py(up: TypedPureProcessor, x: i64) -> (r: TypedProcessor)
    ensures
        r.kind() == up.kind(),
        r.stage_kind() == StageKind::Compare,
        r.stage_models() =~= up.models(),
        up.wf() ==> r.wf(),
{
    match up {
        TypedPureProcessor::U8(p) => TypedProcessor::U8(Processor::Py(PyProcessor::new(Box::new(p), x))),
        TypedPureProcessor::U16(p) => TypedProcessor::U16(Processor::Py(PyProcessor::new(Box::new(p), x))),
        TypedPureProcessor::U32(p) => TypedProcessor::U32(Processor::Py(PyProcessor::new(Box::new(p), x))),
        TypedPureProcessor::U64(p) => TypedProcessor::U64(Processor::Py(PyProcessor::new(Box::new(p), x))),
        TypedPureProcessor::I8(p) => TypedProcessor::I8(Processor::Py(PyProcessor::new(Box::new(p), x))),
        TypedPureProcessor::I16(p) => TypedProcessor::I16(Processor::Py(PyProcessor::new(Box::new(p), x))),
        TypedPureProcessor::I32(p) => TypedProcessor::I32(Processor::Py(PyProcessor::new(Box::new(p), x))),
        TypedPureProcessor::I64(p) => TypedProcessor::I64(Processor::Py(PyProcessor::new(Box::new(p), x))),
    }
}

/// The derived two-pass engine processor over a pure upstream.
pub fn typed_wrap_ipca(up: TypedPureProcessor, n_comp: usize) -> (r: TypedProcessor)
    ensures
        r.kind() == up.kind(),
        r.stage_kind() == (StageKind::FitTransform { n_components: n_comp }),
        r.stage_models() =~= up.models(),
        up.wf() ==> r.wf(),
{
    match up {
        TypedPureProcessor::U8(p) => TypedProcessor::U8(Processor::Ipca(IpcaPyProcessor::new(Box::new(p), n_comp))),
        TypedPureProcessor::U16(p) => TypedProcessor::U16(Processor::Ipca(IpcaPyProcessor::new(Box::new(p), n_comp))),
        TypedPureProcessor::U32(p) => TypedProcessor::U32(Processor::Ipca(IpcaPyProcessor::new(Box::new(p), n_comp))),
        TypedPureProcessor::U64(p) => TypedProcessor::U64(Processor::Ipca(IpcaPyProcessor::new(Box::new(p), n_comp))),
        TypedPureProcessor::I8(p) => TypedProcessor::I8(Processor::Ipca(IpcaPyProcessor::new(Box::new(p), n_comp))),
        TypedPureProcessor::I16(p) => TypedProcessor::I16(Processor::Ipca(IpcaPyProcessor::new(Box::new(p), n_comp))),
        TypedPureProcessor::I32(p) => TypedProcessor::I32(Processor::Ipca(IpcaPyProcessor::new(Box::new(p), n_comp))),
        TypedPureProcessor::I64(p) => TypedProcessor::I64(Processor::Ipca(IpcaPyProcessor::new(Box::new(p), n_comp))),
    }
}

/// The derived paired change-detection processor over a pure upstream.
pub fn typed_wrap_kmeans(up: TypedPureProcessor) -> (r: TypedProcessor)
    ensures
        r.kind() == up.kind(),
        r.stage_kind() == StageKind::Compare,
        r.stage_models() =~= up.models(),
        up.wf() ==> r.wf(),
{
    match up {
        TypedPureProcessor::U8(p) => TypedProcessor::U8(Processor::Kmeans(KmeansPyProcessor::new(Box::new(p)))),
        TypedPureProcessor::U16(p) => TypedProcessor::U16(Processor::Kmeans(KmeansPyProcessor::new(Box::new(p)))),
        TypedPureProcessor::U32(p) => TypedProcessor::U32(Processor::Kmeans(KmeansPyProcessor::new(Box::new(p)))),
        TypedPureProcessor::U64(p) => TypedProcessor::U64(Processor::Kmeans(KmeansPyProcessor::new(Box::new(p)))),
        TypedPureProcessor::I8(p) => TypedProcessor::I8(Processor::Kmeans(KmeansPyProcessor::new(Box::new(p)))),
        TypedPureProcessor::I16(p) => TypedProcessor::I16(Processor::Kmeans(KmeansPyProcessor::new(Box::new(p)))),
        TypedPureProcessor::I32(p) => TypedProcessor::I32(Processor::Kmeans(KmeansPyProcessor::new(Box::new(p)))),
        TypedPureProcessor::I64(p) => TypedProcessor::I64(Processor::Kmeans(KmeansPyProcessor::new(Box::new(p)))),
    }
}

} // verus!
