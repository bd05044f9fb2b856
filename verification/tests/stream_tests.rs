use raster_pipeline::error::Error;
use raster_pipeline::grid::{Grid, GridShape};
use raster_pipeline::stream::{
    add_scalar_stream, add_scalar_tile, chain_streams, engine_buffer, pair_streams,
    paired_output_tile, paired_time_queries, tile_from_engine_buffer,
};
use raster_pipeline::query::{BoundingBox2D, Coordinate2D, QueryRectangle, SpatialResolution};
use raster_pipeline::tile::{GeoTransform, Tile, TilePosition};
use raster_pipeline::time::TimeInterval;

fn tile_u8(tag: i64, rows: usize, cols: usize, data: Vec<u8>) -> Tile<u8> {
    Tile {
        time: TimeInterval { start: tag, end: tag + 1 },
        position: TilePosition { x: tag, y: -tag },
        geo_transform: GeoTransform {
            origin_x: 10 * tag,
            origin_y: 0,
            pixel_size_x: 1,
            pixel_size_y: -1,
        },
        grid: Grid::new(GridShape { rows, cols }, data, None).unwrap(),
    }
}

#[test]
fn unary_transform_preserves_metadata() {
    let tile = tile_u8(7, 2, 2, vec![1, 2, 3, 4]);
    let time = tile.time;
    let position = tile.position;
    let geo_transform = tile.geo_transform;
    let out = add_scalar_tile(tile, 5);
    assert_eq!(out.time, time);
    assert_eq!(out.position, position);
    assert_eq!(out.geo_transform, geo_transform);
    assert_eq!(out.grid.data, vec![6, 7, 8, 9]);
}

#[test]
fn unary_transform_maps_a_whole_stream() {
    let tiles = vec![tile_u8(1, 1, 2, vec![1, 2]), tile_u8(2, 1, 2, vec![10, 20])];
    let out = add_scalar_stream(tiles, 1);
    assert_eq!(out.len(), 2);
    assert_eq!(out[0].grid.data, vec![2, 3]);
    assert_eq!(out[1].grid.data, vec![11, 21]);
    assert_eq!(out[0].position, TilePosition { x: 1, y: -1 });
    assert_eq!(out[1].position, TilePosition { x: 2, y: -2 });
}

#[test]
fn pairing_truncates_to_the_shorter_stream() {
    let a = vec![
        tile_u8(1, 1, 1, vec![1]),
        tile_u8(2, 1, 1, vec![2]),
        tile_u8(3, 1, 1, vec![3]),
    ];
    let b = vec![
        tile_u8(11, 1, 1, vec![11]),
        tile_u8(12, 1, 1, vec![12]),
        tile_u8(13, 1, 1, vec![13]),
        tile_u8(14, 1, 1, vec![14]),
        tile_u8(15, 1, 1, vec![15]),
    ];
    let pairs = pair_streams(a, b);
    assert_eq!(pairs.len(), 3);
    for (i, (pa, pb)) in pairs.iter().enumerate() {
        assert_eq!(pa.grid.data, vec![(i + 1) as u8]);
        assert_eq!(pb.grid.data, vec![(i + 11) as u8]);
    }
}

#[test]
fn pairing_equal_lengths_pairs_index_by_index() {
    let a = vec![tile_u8(1, 1, 1, vec![1]), tile_u8(2, 1, 1, vec![2])];
    let b = vec![tile_u8(21, 1, 1, vec![21]), tile_u8(22, 1, 1, vec![22])];
    let pairs = pair_streams(a, b);
    assert_eq!(pairs.len(), 2);
    assert_eq!(pairs[0].0.grid.data, vec![1]);
    assert_eq!(pairs[0].1.grid.data, vec![21]);
    assert_eq!(pairs[1].0.grid.data, vec![2]);
    assert_eq!(pairs[1].1.grid.data, vec![22]);
}

#[test]
fn chaining_emits_the_first_stream_then_the_second() {
    let first = vec![tile_u8(1, 1, 1, vec![1])];
    let second = vec![tile_u8(2, 1, 1, vec![2]), tile_u8(3, 1, 1, vec![3])];
    let chained = chain_streams(first, second);
    assert_eq!(chained.len(), 3);
    assert_eq!(chained[0].grid.data, vec![1]);
    assert_eq!(chained[1].grid.data, vec![2]);
    assert_eq!(chained[2].grid.data, vec![3]);
}

#[test]
fn engine_buffer_widens_every_cell() {
    let tile = tile_u8(1, 2, 2, vec![0, 1, 254, 255]);
    let buffer = engine_buffer(&tile.grid);
    assert_eq!(buffer, vec![0i128, 1, 254, 255]);
}

#[test]
fn engine_result_rebuilds_the_tile() {
    let template = tile_u8(4, 2, 2, vec![1, 2, 3, 4]);
    let buffer: Vec<i128> = vec![9, 8, 7, 6];
    let out = tile_from_engine_buffer(&template, &buffer).unwrap();
    assert_eq!(out.grid.data, vec![9, 8, 7, 6]);
    assert_eq!(out.time, template.time);
    assert_eq!(out.position, template.position);
    assert_eq!(out.geo_transform, template.geo_transform);
}

#[test]
fn engine_result_with_wrong_length_is_refused() {
    let template = tile_u8(4, 2, 2, vec![1, 2, 3, 4]);
    let buffer: Vec<i128> = vec![9, 8, 7];
    assert_eq!(tile_from_engine_buffer(&template, &buffer).unwrap_err(), Error::ComputeEngine);
}

#[test]
fn engine_result_out_of_range_is_refused() {
    let template = tile_u8(4, 1, 2, vec![1, 2]);
    let buffer: Vec<i128> = vec![0, 256];
    assert_eq!(tile_from_engine_buffer(&template, &buffer).unwrap_err(), Error::ComputeEngine);
}

#[test]
fn paired_output_takes_the_before_tiles_metadata() {
    let pre = tile_u8(1, 1, 2, vec![1, 2]);
    let post = tile_u8(2, 1, 2, vec![3, 4]);
    let buffer: Vec<i128> = vec![0, 1];
    let out = paired_output_tile(&pre, &post, &buffer).unwrap();
    assert_eq!(out.time, pre.time);
    assert_eq!(out.position, pre.position);
    assert_eq!(out.geo_transform, pre.geo_transform);
    assert_eq!(out.grid.data, vec![0, 1]);
}

#[test]
fn paired_output_rejects_mismatched_shapes() {
    let pre = tile_u8(1, 1, 2, vec![1, 2]);
    let post = tile_u8(2, 2, 2, vec![3, 4, 5, 6]);
    let buffer: Vec<i128> = vec![0, 1];
    assert_eq!(
        paired_output_tile(&pre, &post, &buffer).unwrap_err(),
        Error::Shape { expected: 2, found: 4 }
    );
}

#[test]
fn paired_queries_replace_only_the_time() {
    let query = QueryRectangle {
        bbox: BoundingBox2D::new(
            Coordinate2D { x: -180, y: -90 },
            Coordinate2D { x: 180, y: 90 },
        )
        .unwrap(),
        time_interval: TimeInterval { start: 5, end: 6 },
        spatial_resolution: SpatialResolution::new(1, 1).unwrap(),
    };
    let (pre, post) = paired_time_queries(&query);
    assert_eq!(pre.bbox, query.bbox);
    assert_eq!(post.bbox, query.bbox);
    assert_eq!(pre.spatial_resolution, query.spatial_resolution);
    assert_eq!(post.spatial_resolution, query.spatial_resolution);
    assert_eq!(pre.time_interval, TimeInterval { start: 1_388_534_400_000, end: 1_388_534_400_000 });
    assert_eq!(post.time_interval, TimeInterval { start: 1_401_580_800_000, end: 1_401_580_800_000 });
}
