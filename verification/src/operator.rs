//! The operator initialization protocol.
//!
//! An operator tree starts uninitialized: parameters plus raw source
//! operator handles.  Initialization validates the arity contract first —
//! every operator of this library takes exactly zero vector inputs and
//! exactly one raster input — then initializes the single raster source
//! recursively against the same execution context, and takes its result
//! descriptor verbatim (no operator here changes pixel semantics).
//! Initialization validates and wires; it starts no work on tile data.

use vstd::prelude::*;

use crate::error::Error;
use crate::query::{RasterDataType, RasterResultDescriptor};
use crate::tile::TileModel;
use crate::typed::{
    add_models, typed_pure, typed_source, typed_wrap_addx, typed_wrap_ipca, typed_wrap_kmeans,
    typed_wrap_py, StageKind, TypedProcessor, TypedPureProcessor, TypedTileData,
};

verus! {

/// A vector-data operator handle.  This library's operators accept no
/// vector inputs, but the arity contract must be able to count them.
#[derive(Debug)]
pub struct VectorOperator {}

/// The execution context operators are initialized against: a registry of
/// dataset descriptors that callers fill before initialization.
#[derive(Debug)]
pub struct ExecutionContext {
    pub datasets: Vec<(u64, RasterResultDescriptor)>,
}

impl ExecutionContext {
    /// An empty registry.
    pub fn new() -> (r: ExecutionContext)
        ensures
            r.datasets@ =~= Seq::<(u64, RasterResultDescriptor)>::empty(),
    {
        ExecutionContext { datasets: Vec::new() }
    }

    /// Registers one dataset's descriptor under its id.
    pub fn add_metadata(&mut self, id: u64, descriptor: RasterResultDescriptor)
        ensures
            final(self).datasets@ =~= old(self).datasets@.push((id, descriptor)),
    {
        self.datasets.push((id, descriptor));
    }
}

/// A source of raster tiles: the leaf of an operator tree, holding its
/// tiles and the descriptor it reports.
#[derive(Debug)]
pub struct SourceOperator {
    pub result_descriptor: RasterResultDescriptor,
    pub data: TypedTileData,
}

/// The parameter set of [`AddXOperator`]: the value added to every cell of
/// the input raster stream.
#[derive(Clone, Copy, Debug, PartialEq, Eq, Structural)]
pub struct AddXOperatorParams {
    pub x: i64,
}

/// The parameter set of [`PyOperator`]: the number of components of the
/// engine's analysis.
#[derive(Clone, Copy, Debug, PartialEq, Eq, Structural)]
pub struct PyOperatorParams {
    pub n_comp: i64,
}

/// The parameter set of [`IpcaOperator`]: the number of components of the
/// engine's incremental analysis.
#[derive(Clone, Copy, Debug, PartialEq, Eq, Structural)]
pub struct IpcaOperatorParams {
    pub n_comp: usize,
}

/// An operator that adds `x` to its input raster stream.
#[derive(Debug)]
pub struct AddXOperator {
    pub params: AddXOperatorParams,
    pub raster_sources: Vec<RasterOperator>,
    pub vector_sources: Vec<VectorOperator>,
}

/// An example operator that runs the paired change detection through the
/// compute engine.
#[derive(Debug)]
pub struct PyOperator {
    pub params: PyOperatorParams,
    pub raster_sources: Vec<RasterOperator>,
    pub vector_sources: Vec<VectorOperator>,
}

/// An operator that compresses its input with the engine's incremental
/// analysis: one pass fits, a second pass transforms.
#[derive(Debug)]
pub struct IpcaOperator {
    pub params: IpcaOperatorParams,
    pub raster_sources: Vec<RasterOperator>,
    pub vector_sources: Vec<VectorOperator>,
}

/// An operator that compares a before and an after snapshot of its input
/// through the compute engine, tile pair by tile pair.
#[derive(Debug)]
pub struct KmeansOperator {
    pub raster_sources: Vec<RasterOperator>,
    pub vector_sources: Vec<VectorOperator>,
}

/// An uninitialized operator tree.
#[derive(Debug)]
pub enum RasterOperator {
    Source(SourceOperator),
    AddX(AddXOperator),
    Py(PyOperator),
    Ipca(IpcaOperator),
    Kmeans(KmeansOperator),
}

/// The error raised when an operator is built with `found` vector inputs
/// instead of none.
pub open spec fn vector_arity_error(found: int) -> Error {
    Error::InvalidNumberOfVectorInputs { expected_min: 0, expected_max: 1, found: found as usize }
}

/// The error raised when an operator is built with `found` raster inputs
/// instead of exactly one.
pub open spec fn raster_arity_error(found: int) -> Error {
    Error::InvalidNumberOfRasterInputs { expected_min: 1, expected_max: 2, found: found as usize }
}

/// The outcome of initializing an operator tree: the descriptor it
/// propagates, or the first error.  The arity contract is checked before
/// any recursion — vector inputs first, then raster inputs, as the errors'
/// precedence.
pub open spec fn spec_initialize(op: RasterOperator) -> Result<RasterResultDescriptor, Error>
    decreases op,
{
    match op {
        RasterOperator::Source(s) => Ok(s.result_descriptor),
        RasterOperator::AddX(o) => if o.vector_sources@.len() != 0 {
            Err(vector_arity_error(o.vector_sources@.len() as int))
        } else if o.raster_sources@.len() != 1 {
            Err(raster_arity_error(o.raster_sources@.len() as int))
        } else {
            spec_initialize(o.raster_sources@[0])
        },
        RasterOperator::Py(o) => if o.vector_sources@.len() != 0 {
            Err(vector_arity_error(o.vector_sources@.len() as int))
        } else if o.raster_sources@.len() != 1 {
            Err(raster_arity_error(o.raster_sources@.len() as int))
        } else {
            spec_initialize(o.raster_sources@[0])
        },
        RasterOperator::Ipca(o) => if o.vector_sources@.len() != 0 {
            Err(vector_arity_error(o.vector_sources@.len() as int))
        } else if o.raster_sources@.len() != 1 {
            Err(raster_arity_error(o.raster_sources@.len() as int))
        } else {
            spec_initialize(o.raster_sources@[0])
        },
        RasterOperator::Kmeans(o) => if o.vector_sources@.len() != 0 {
            Err(vector_arity_error(o.vector_sources@.len() as int))
        } else if o.raster_sources@.len() != 1 {
            Err(raster_arity_error(o.raster_sources@.len() as int))
        } else {
            spec_initialize(o.raster_sources@[0])
        },
    }
}

/// An initialized source: its descriptor and its tiles.
#[derive(Debug)]
pub struct InitializedSourceOperator {
    pub result_descriptor: RasterResultDescriptor,
    pub data: TypedTileData,
}

/// An initialized scalar-addition operator.
#[derive(Debug)]
pub struct InitializedAddXOperator {
    pub params: AddXOperatorParams,
    pub source: Box<InitializedOperator>,
    pub result_descriptor: RasterResultDescriptor,
}

/// An initialized paired example operator.
#[derive(Debug)]
pub struct InitializedPyOperator {
    pub params: PyOperatorParams,
    pub source: Box<InitializedOperator>,
    pub result_descriptor: RasterResultDescriptor,
}

/// An initialized incremental-analysis operator.
#[derive(Debug)]
pub struct InitializedIpcaOperator {
    pub params: IpcaOperatorParams,
    pub source: Box<InitializedOperator>,
    pub result_descriptor: RasterResultDescriptor,
}

/// An initialized change-detection operator.
#[derive(Debug)]
pub struct InitializedKmeansOperator {
    pub source: Box<InitializedOperator>,
    pub result_descriptor: RasterResultDescriptor,
}

/// An initialized operator tree: validated source processors and a result
/// descriptor at every node.
#[derive(Debug)]
pub enum InitializedOperator {
    Source(InitializedSourceOperator),
    AddX(InitializedAddXOperator),
    Py(InitializedPyOperator),
    Ipca(InitializedIpcaOperator),
    Kmeans(InitializedKmeansOperator),
}

/// The initialized tree mirrors the uninitialized one: same parameters and
/// leaf data, one validated raster source per derived node.
pub open spec fn init_matches(op: RasterOperator, init: InitializedOperator) -> bool
    decreases init,
{
    match init {
        InitializedOperator::Source(i) => op matches RasterOperator::Source(s)
            && i.result_descriptor == s.result_descriptor && i.data == s.data,
        InitializedOperator::AddX(i) => op matches RasterOperator::AddX(o) && i.params == o.params
            && o.vector_sources@.len() == 0 && o.raster_sources@.len() == 1 && init_matches(
            o.raster_sources@[0],
            *i.source,
        ),
        InitializedOperator::Py(i) => op matches RasterOperator::Py(o) && i.params == o.params
            && o.vector_sources@.len() == 0 && o.raster_sources@.len() == 1 && init_matches(
            o.raster_sources@[0],
            *i.source,
        ),
        InitializedOperator::Ipca(i) => op matches RasterOperator::Ipca(o) && i.params == o.params
            && o.vector_sources@.len() == 0 && o.raster_sources@.len() == 1 && init_matches(
            o.raster_sources@[0],
            *i.source,
        ),
        InitializedOperator::Kmeans(i) => op matches RasterOperator::Kmeans(o)
            && o.vector_sources@.len() == 0 && o.raster_sources@.len() == 1 && init_matches(
            o.raster_sources@[0],
            *i.source,
        ),
    }
}

impl InitializedOperator {
    /// The result descriptor this node reports.
    pub open spec fn descriptor(self) -> RasterResultDescriptor {
        match self {
            InitializedOperator::Source(i) => i.result_descriptor,
            InitializedOperator::AddX(i) => i.result_descriptor,
            InitializedOperator::Py(i) => i.result_descriptor,
            InitializedOperator::Ipca(i) => i.result_descriptor,
            InitializedOperator::Kmeans(i) => i.result_descriptor,
        }
    }

    /// Every derived node's descriptor is its source's, taken verbatim.
    pub open spec fn wf(self) -> bool
        decreases self,
    {
        match self {
            InitializedOperator::Source(_) => true,
            InitializedOperator::AddX(i) => (*i.source).wf() && i.result_descriptor == (
            *i.source).descriptor(),
            InitializedOperator::Py(i) => (*i.source).wf() && i.result_descriptor == (
            *i.source).descriptor(),
            InitializedOperator::Ipca(i) => (*i.source).wf() && i.result_descriptor == (
            *i.source).descriptor(),
            InitializedOperator::Kmeans(i) => (*i.source).wf() && i.result_descriptor == (
            *i.source).descriptor(),
        }
    }

    /// No engine stage anywhere in the tree.
    pub open spec fn engine_free(self) -> bool
        decreases self,
    {
        match self {
            InitializedOperator::Source(_) => true,
            InitializedOperator::AddX(i) => (*i.source).engine_free(),
            InitializedOperator::Py(_) => false,
            InitializedOperator::Ipca(_) => false,
            InitializedOperator::Kmeans(_) => false,
        }
    }

    /// The tree is one stage of a pipeline: at most one engine node, and
    /// only at the top.  The driver splits a pipeline at each engine
    /// stage, re-sourcing one stage's output as the next stage's input.
    pub open spec fn single_stage(self) -> bool {
        match self {
            InitializedOperator::Source(_) => true,
            InitializedOperator::AddX(i) => (*i.source).engine_free(),
            InitializedOperator::Py(i) => (*i.source).engine_free(),
            InitializedOperator::Ipca(i) => (*i.source).engine_free(),
            InitializedOperator::Kmeans(i) => (*i.source).engine_free(),
        }
    }

    /// The pixel kind of the tree's leaf source.
    pub open spec fn source_kind(self) -> RasterDataType
        decreases self,
    {
        match self {
            InitializedOperator::Source(i) => i.data.kind(),
            InitializedOperator::AddX(i) => (*i.source).source_kind(),
            InitializedOperator::Py(i) => (*i.source).source_kind(),
            InitializedOperator::Ipca(i) => (*i.source).source_kind(),
            InitializedOperator::Kmeans(i) => (*i.source).source_kind(),
        }
    }

    /// The models of the stream this stage works on: the leaf's tiles
    /// through every pure transform below the stage's top.
    pub open spec fn stage_models(self) -> Seq<TileModel>
        decreases self,
    {
        match self {
            InitializedOperator::Source(i) => i.data.models(),
            InitializedOperator::AddX(i) => add_models(
                (*i.source).stage_models(),
                i.params.x,
                (*i.source).source_kind(),
            ),
            InitializedOperator::Py(i) => (*i.source).stage_models(),
            InitializedOperator::Ipca(i) => (*i.source).stage_models(),
            InitializedOperator::Kmeans(i) => (*i.source).stage_models(),
        }
    }

    /// The stage shape this tree's processor performs.
    pub open spec fn stage_kind(self) -> StageKind {
        match self {
            InitializedOperator::Source(_) => StageKind::Pure,
            InitializedOperator::AddX(_) => StageKind::Pure,
            InitializedOperator::Py(_) => StageKind::Compare,
            InitializedOperator::Ipca(i) => StageKind::FitTransform {
                n_components: i.params.n_comp,
            },
            InitializedOperator::Kmeans(_) => StageKind::Compare,
        }
    }

    /// Every tile of the leaf source is well formed.
    pub open spec fn sources_wf(self) -> bool
        decreases self,
    {
        match self {
            InitializedOperator::Source(i) => i.data.wf(),
            InitializedOperator::AddX(i) => (*i.source).sources_wf(),
            InitializedOperator::Py(i) => (*i.source).sources_wf(),
            InitializedOperator::Ipca(i) => (*i.source).sources_wf(),
            InitializedOperator::Kmeans(i) => (*i.source).sources_wf(),
        }
    }

    /// The descriptor this node reports.
    pub fn result_descriptor(&self) -> (r: RasterResultDescriptor)
        ensures
            r == self.descriptor(),
    {
        match self {
            InitializedOperator::Source(i) => i.result_descriptor,
            InitializedOperator::AddX(i) => i.result_descriptor,
            InitializedOperator::Py(i) => i.result_descriptor,
            InitializedOperator::Ipca(i) => i.result_descriptor,
            InitializedOperator::Kmeans(i) => i.result_descriptor,
        }
    }

    /// The typed pure processor of an engine-free tree.
    fn pure_query_processor(&self) -> (r: TypedPureProcessor)
        requires
            self.engine_free(),
        ensures
            r.kind() == self.source_kind(),
            r.models() =~= self.stage_models(),
            self.sources_wf() ==> r.wf(),
        decreases *self,
    {
        match self {
            InitializedOperator::Source(i) => typed_source(&i.data),
            InitializedOperator::AddX(i) => {
                let up = i.source.pure_query_processor();
                typed_wrap_addx(up, i.params.x)
            },
            InitializedOperator::Py(_) => {
                // An engine-free tree holds no engine node: never reached.
                proof {
                    assert(false);
                }
                typed_source(&TypedTileData::U8(Vec::new()))
            },
            InitializedOperator::Ipca(_) => {
                // An engine-free tree holds no engine node: never reached.
                proof {
                    assert(false);
                }
                typed_source(&TypedTileData::U8(Vec::new()))
            },
            InitializedOperator::Kmeans(_) => {
                // An engine-free tree holds no engine node: never reached.
                proof {
                    assert(false);
                }
                typed_source(&TypedTileData::U8(Vec::new()))
            },
        }
    }

    /// The typed query processor of this stage: the variant of the tree's
    /// leaf source, its stream model, and its stage shape.  The pixel type
    /// of the result is known before any tile is produced.
    pub fn query_processor(&self) -> (r: TypedProcessor)
        requires
            self.single_stage(),
        ensures
            r.kind() == self.source_kind(),
            r.stage_kind() == self.stage_kind(),
            r.stage_models() =~= self.stage_models(),
            self.sources_wf() ==> r.wf(),
    {
        match self {
            InitializedOperator::Source(_) => typed_pure(self.pure_query_processor()),
            InitializedOperator::AddX(_) => typed_pure(self.pure_query_processor()),
            InitializedOperator::Py(i) => typed_wrap_py(
                i.source.pure_query_processor(),
                i.params.n_comp,
            ),
            InitializedOperator::Ipca(i) => typed_wrap_ipca(
                i.source.pure_query_processor(),
                i.params.n_comp,
            ),
            InitializedOperator::Kmeans(i) => typed_wrap_kmeans(i.source.pure_query_processor()),
        }
    }
}

/// The result descriptor of the tree's leaf source.
pub open spec fn source_descriptor(init: InitializedOperator) -> RasterResultDescriptor
    decreases init,
{
    match init {
        InitializedOperator::Source(i) => i.result_descriptor,
        InitializedOperator::AddX(i) => source_descriptor(*i.source),
        InitializedOperator::Py(i) => source_descriptor(*i.source),
        InitializedOperator::Ipca(i) => source_descriptor(*i.source),
        InitializedOperator::Kmeans(i) => source_descriptor(*i.source),
    }
}

/// Pass-through law: in a well-formed initialized tree, every node — the
/// root included — reports the leaf source's result descriptor unchanged,
/// since no operator of this library changes pixel semantics.
pub proof fn lemma_descriptor_propagates(init: InitializedOperator)
    requires
        init.wf(),
    ensures
        init.descriptor() == source_descriptor(init),
    decreases init,
{
    match init {
        InitializedOperator::Source(_) => {},
        InitializedOperator::AddX(i) => lemma_descriptor_propagates(*i.source),
        InitializedOperator::Py(i) => lemma_descriptor_propagates(*i.source),
        InitializedOperator::Ipca(i) => lemma_descriptor_propagates(*i.source),
        InitializedOperator::Kmeans(i) => lemma_descriptor_propagates(*i.source),
    }
}

impl RasterOperator {
    /// Initializes the operator tree against the execution context: the
    /// arity contract is checked first — zero vector inputs, exactly one
    /// raster input — and its violation fails before anything else
    /// happens; then the single raster source is initialized recursively
    /// and the new node takes its result descriptor verbatim.
    pub fn initialize(self, context: &ExecutionContext) -> (r: Result<InitializedOperator, Error>)
        ensures
            r is Ok <==> spec_initialize(self) is Ok,
            r matches Ok(i) ==> {
                &&& init_matches(self, i)
                &&& i.wf()
                &&& i.descriptor() == spec_initialize(self)->Ok_0
            },
            r matches Err(e) ==> e == spec_initialize(self)->Err_0,
        decreases self,
    {
        let ghost g = self;
        match self {
            RasterOperator::Source(s) => Ok(
                InitializedOperator::Source(
                    InitializedSourceOperator { result_descriptor: s.result_descriptor, data: s.data },
                ),
            ),
            RasterOperator::AddX(op) => {
                if op.vector_sources.len() != 0 {
                    return Err(
                        Error::InvalidNumberOfVectorInputs {
                            expected_min: 0,
                            expected_max: 1,
                            found: op.vector_sources.len(),
                        },
                    );
                }
                if op.raster_sources.len() != 1 {
                    return Err(
                        Error::InvalidNumberOfRasterInputs {
                            expected_min: 1,
                            expected_max: 2,
                            found: op.raster_sources.len(),
                        },
                    );
                }
                let mut sources = op.raster_sources;
                let child = sources.remove(0);
                proof {
                    assert(child == g->AddX_0.raster_sources@[0]);
                    assert(decreases_to!(g => child));
                }
                let initialized_raster = match child.initialize(context) {
                    Ok(i) => i,
                    Err(e) => {
                        return Err(e);
                    },
                };
                let result_descriptor = initialized_raster.result_descriptor();
                Ok(
                    InitializedOperator::AddX(
                        InitializedAddXOperator {
                            params: op.params,
                            source: Box::new(initialized_raster),
                            result_descriptor,
                        },
                    ),
                )
            },
            RasterOperator::Py(op) => {
                if op.vector_sources.len() != 0 {
                    return Err(
                        Error::InvalidNumberOfVectorInputs {
                            expected_min: 0,
                            expected_max: 1,
                            found: op.vector_sources.len(),
                        },
                    );
                }
                if op.raster_sources.len() != 1 {
                    return Err(
                        Error::InvalidNumberOfRasterInputs {
                            expected_min: 1,
                            expected_max: 2,
                            found: op.raster_sources.len(),
                        },
                    );
                }
                let mut sources = op.raster_sources;
                let child = sources.remove(0);
                proof {
                    assert(child == g->Py_0.raster_sources@[0]);
                    assert(decreases_to!(g => child));
                }
                let initialized_raster = match child.initialize(context) {
                    Ok(i) => i,
                    Err(e) => {
                        return Err(e);
                    },
                };
                let result_descriptor = initialized_raster.result_descriptor();
                Ok(
                    InitializedOperator::Py(
                        InitializedPyOperator {
                            params: op.params,
                            source: Box::new(initialized_raster),
                            result_descriptor,
                        },
                    ),
                )
            },
            RasterOperator::Ipca(op) => {
                if op.vector_sources.len() != 0 {
                    return Err(
                        Error::InvalidNumberOfVectorInputs {
                            expected_min: 0,
                            expected_max: 1,
                            found: op.vector_sources.len(),
                        },
                    );
                }
                if op.raster_sources.len() != 1 {
                    return Err(
                        Error::InvalidNumberOfRasterInputs {
                            expected_min: 1,
                            expected_max: 2,
                            found: op.raster_sources.len(),
                        },
                    );
                }
                let mut sources = op.raster_sources;
                let child = sources.remove(0);
                proof {
                    assert(child == g->Ipca_0.raster_sources@[0]);
                    assert(decreases_to!(g => child));
                }
                let initialized_raster = match child.initialize(context) {
                    Ok(i) => i,
                    Err(e) => {
                        return Err(e);
                    },
                };
                let result_descriptor = initialized_raster.result_descriptor();
                Ok(
                    InitializedOperator::Ipca(
                        InitializedIpcaOperator {
                            params: op.params,
                            source: Box::new(initialized_raster),
                            result_descriptor,
                        },
                    ),
                )
            },
            RasterOperator::Kmeans(op) => {
                if op.vector_sources.len() != 0 {
                    return Err(
                        Error::InvalidNumberOfVectorInputs {
                            expected_min: 0,
                            expected_max: 1,
                            found: op.vector_sources.len(),
                        },
                    );
                }
                if op.raster_sources.len() != 1 {
                    return Err(
                        Error::InvalidNumberOfRasterInputs {
                            expected_min: 1,
                            expected_max: 2,
                            found: op.raster_sources.len(),
                        },
                    );
                }
                let mut sources = op.raster_sources;
                let child = sources.remove(0);
                proof {
                    assert(child == g->Kmeans_0.raster_sources@[0]);
                    assert(decreases_to!(g => child));
                }
                let initialized_raster = match child.initialize(context) {
                    Ok(i) => i,
                    Err(e) => {
                        return Err(e);
                    },
                };
                let result_descriptor = initialized_raster.result_descriptor();
                Ok(
                    InitializedOperator::Kmeans(
                        InitializedKmeansOperator {
                            source: Box::new(initialized_raster),
                            result_descriptor,
                        },
                    ),
                )
            },
        }
    }
}

} // verus!
