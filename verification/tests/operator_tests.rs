use raster_pipeline::error::Error;
use raster_pipeline::grid::{Grid, GridShape};
use raster_pipeline::operator::{
    AddXOperator, AddXOperatorParams, ExecutionContext, IpcaOperator, IpcaOperatorParams,
    KmeansOperator, PyOperator, PyOperatorParams, RasterOperator, SourceOperator, VectorOperator,
};
use raster_pipeline::processor::{Processor, QueryStep, raster_query};
use raster_pipeline::query::{
    BoundingBox2D, Coordinate2D, Measurement, QueryRectangle, RasterDataType,
    RasterResultDescriptor, SpatialReference, SpatialResolution,
};
use raster_pipeline::tile::{GeoTransform, Tile, TilePosition};
use raster_pipeline::time::TimeInterval;
use raster_pipeline::typed::{TypedProcessor, TypedTileData};

fn descriptor_u8() -> RasterResultDescriptor {
    RasterResultDescriptor {
        data_type: RasterDataType::U8,
        spatial_reference: SpatialReference { epsg_code: 4326 },
        measurement: Measurement::Unitless,
    }
}

fn tile_u8(rows: usize, cols: usize, data: Vec<u8>) -> Tile<u8> {
    Tile {
        time: TimeInterval { start: 0, end: 0 },
        position: TilePosition { x: 0, y: 0 },
        geo_transform: GeoTransform { origin_x: 0, origin_y: 0, pixel_size_x: 1, pixel_size_y: -1 },
        grid: Grid::new(GridShape { rows, cols }, data, None).unwrap(),
    }
}

fn source_u8(tiles: Vec<Tile<u8>>) -> RasterOperator {
    RasterOperator::Source(SourceOperator {
        result_descriptor: descriptor_u8(),
        data: TypedTileData::U8(tiles),
    })
}

fn whole_world_query() -> QueryRectangle {
    QueryRectangle {
        bbox: BoundingBox2D::new(
            Coordinate2D { x: 0, y: 0 },
            Coordinate2D { x: 3, y: 2 },
        )
        .unwrap(),
        time_interval: TimeInterval { start: 0, end: 0 },
        spatial_resolution: SpatialResolution::new(1, 1).unwrap(),
    }
}

#[test]
fn zero_raster_inputs_fail_with_an_arity_error() {
    let operator = RasterOperator::AddX(AddXOperator {
        params: AddXOperatorParams { x: 1 },
        raster_sources: vec![],
        vector_sources: vec![],
    });
    let context = ExecutionContext::new();
    let r = operator.initialize(&context);
    assert_eq!(
        r.unwrap_err(),
        Error::InvalidNumberOfRasterInputs { expected_min: 1, expected_max: 2, found: 0 }
    );
}

#[test]
fn two_raster_inputs_fail_with_an_arity_error() {
    let operator = RasterOperator::AddX(AddXOperator {
        params: AddXOperatorParams { x: 1 },
        raster_sources: vec![source_u8(vec![]), source_u8(vec![])],
        vector_sources: vec![],
    });
    let context = ExecutionContext::new();
    let r = operator.initialize(&context);
    assert_eq!(
        r.unwrap_err(),
        Error::InvalidNumberOfRasterInputs { expected_min: 1, expected_max: 2, found: 2 }
    );
}

#[test]
fn a_vector_input_fails_before_the_raster_check() {
    let operator = RasterOperator::Kmeans(KmeansOperator {
        raster_sources: vec![],
        vector_sources: vec![VectorOperator {}],
    });
    let context = ExecutionContext::new();
    let r = operator.initialize(&context);
    assert_eq!(
        r.unwrap_err(),
        Error::InvalidNumberOfVectorInputs { expected_min: 0, expected_max: 1, found: 1 }
    );
}

#[test]
fn arity_errors_cover_every_operator_kind() {
    let context = ExecutionContext::new();
    let raster_arity =
        Error::InvalidNumberOfRasterInputs { expected_min: 1, expected_max: 2, found: 0 };
    let py = RasterOperator::Py(PyOperator {
        params: PyOperatorParams { n_comp: 1 },
        raster_sources: vec![],
        vector_sources: vec![],
    });
    assert_eq!(py.initialize(&context).unwrap_err(), raster_arity);
    let ipca = RasterOperator::Ipca(IpcaOperator {
        params: IpcaOperatorParams { n_comp: 2 },
        raster_sources: vec![],
        vector_sources: vec![],
    });
    assert_eq!(ipca.initialize(&context).unwrap_err(), raster_arity);
    let kmeans = RasterOperator::Kmeans(KmeansOperator {
        raster_sources: vec![],
        vector_sources: vec![],
    });
    assert_eq!(kmeans.initialize(&context).unwrap_err(), raster_arity);
}

#[test]
fn the_result_descriptor_passes_through_unchanged() {
    let operator = RasterOperator::AddX(AddXOperator {
        params: AddXOperatorParams { x: 1 },
        raster_sources: vec![source_u8(vec![])],
        vector_sources: vec![],
    });
    let context = ExecutionContext::new();
    let initialized = operator.initialize(&context).unwrap();
    assert_eq!(initialized.result_descriptor(), descriptor_u8());
}

#[test]
fn example_operator_simple_raster() {
    let raster_tile = tile_u8(3, 2, vec![1, 2, 3, 4, 5, 6]);
    let operator = RasterOperator::AddX(AddXOperator {
        params: AddXOperatorParams { x: 1 },
        raster_sources: vec![source_u8(vec![raster_tile])],
        vector_sources: vec![],
    });

    let context = ExecutionContext::new();
    let operator = operator.initialize(&context).unwrap();
    let processor = match operator.query_processor() {
        TypedProcessor::U8(p) => p,
        _ => panic!("the processor must select its source's variant"),
    };

    let step = raster_query(&processor, &whole_world_query());
    let result = match step {
        QueryStep::Tiles(tiles) => tiles,
        _ => panic!("a pure pipeline finishes within the library"),
    };

    let result_tile = tile_u8(3, 2, vec![2, 3, 4, 5, 6, 7]);
    assert_eq!(result.len(), 1);
    assert!(result[0].eq_tile(&result_tile));
}

#[test]
fn stacked_transforms_compose() {
    let raster_tile = tile_u8(1, 3, vec![1, 2, 3]);
    let inner = RasterOperator::AddX(AddXOperator {
        params: AddXOperatorParams { x: 1 },
        raster_sources: vec![source_u8(vec![raster_tile])],
        vector_sources: vec![],
    });
    let outer = RasterOperator::AddX(AddXOperator {
        params: AddXOperatorParams { x: 10 },
        raster_sources: vec![inner],
        vector_sources: vec![],
    });
    let context = ExecutionContext::new();
    let initialized = outer.initialize(&context).unwrap();
    let processor = match initialized.query_processor() {
        TypedProcessor::U8(p) => p,
        _ => panic!("the processor must select its source's variant"),
    };
    match raster_query(&processor, &whole_world_query()) {
        QueryStep::Tiles(tiles) => {
            assert_eq!(tiles.len(), 1);
            assert_eq!(tiles[0].grid.data, vec![12, 13, 14]);
        },
        _ => panic!("a pure pipeline finishes within the library"),
    }
}

#[test]
fn example_pyop_paired_query() {
    let data: Vec<u8> = vec![1, 2, 3, 4, 5, 6, 7, 8, 9, 10, 11, 12, 13, 14, 15, 16];
    let raster_tile = tile_u8(4, 4, data.clone());
    let operator = RasterOperator::Py(PyOperator {
        params: PyOperatorParams { n_comp: 1 },
        raster_sources: vec![source_u8(vec![raster_tile])],
        vector_sources: vec![],
    });
    let context = ExecutionContext::new();
    let initialized = operator.initialize(&context).unwrap();
    let processor = match initialized.query_processor() {
        TypedProcessor::U8(p) => p,
        _ => panic!("the processor must select its source's variant"),
    };
    match raster_query(&processor, &whole_world_query()) {
        QueryStep::EngineCompare { pre, post, query_pre, query_post } => {
            assert_eq!(pre.len(), 1);
            assert_eq!(post.len(), 1);
            assert_eq!(pre[0].grid.data, data);
            assert_eq!(post[0].grid.data, data);
            assert_eq!(query_pre.time_interval.start, 1_388_534_400_000);
            assert_eq!(query_post.time_interval.start, 1_401_580_800_000);
        },
        _ => panic!("the paired operator prepares an engine comparison"),
    }
}

#[test]
fn ipca_query_prepares_the_two_pass_transform() {
    let raster_tile = tile_u8(2, 2, vec![1, 2, 3, 4]);
    let operator = RasterOperator::Ipca(IpcaOperator {
        params: IpcaOperatorParams { n_comp: 3 },
        raster_sources: vec![source_u8(vec![raster_tile])],
        vector_sources: vec![],
    });
    let context = ExecutionContext::new();
    let initialized = operator.initialize(&context).unwrap();
    let processor = match initialized.query_processor() {
        TypedProcessor::U8(p) => p,
        _ => panic!("the processor must select its source's variant"),
    };
    match raster_query(&processor, &whole_world_query()) {
        QueryStep::EngineFitTransform { tiles, n_components } => {
            assert_eq!(n_components, 3);
            assert_eq!(tiles.len(), 1);
            assert_eq!(tiles[0].grid.data, vec![1, 2, 3, 4]);
        },
        _ => panic!("the two-pass operator prepares a fit-and-transform"),
    }
}

#[test]
fn the_typed_processor_matches_the_sources_variant() {
    let source = RasterOperator::Source(SourceOperator {
        result_descriptor: RasterResultDescriptor {
            data_type: RasterDataType::I32,
            spatial_reference: SpatialReference { epsg_code: 4326 },
            measurement: Measurement::Unitless,
        },
        data: TypedTileData::I32(vec![]),
    });
    let context = ExecutionContext::new();
    let initialized = source.initialize(&context).unwrap();
    match initialized.query_processor() {
        TypedProcessor::I32(Processor::Pure(_)) => {},
        _ => panic!("the processor must select its source's variant"),
    }
}
