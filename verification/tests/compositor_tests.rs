use raster_pipeline::compositor::{blit, compose, render_raster, seed_output, OutputRaster};
use raster_pipeline::error::Error;
use raster_pipeline::grid::{Grid, GridShape};
use raster_pipeline::query::{BoundingBox2D, Coordinate2D};
use raster_pipeline::tile::{GeoTransform, Tile, TilePosition};
use raster_pipeline::time::TimeInterval;

fn bbox(min_x: i64, min_y: i64, max_x: i64, max_y: i64) -> BoundingBox2D {
    BoundingBox2D::new(
        Coordinate2D { x: min_x, y: min_y },
        Coordinate2D { x: max_x, y: max_y },
    )
    .unwrap()
}

fn tile_at(gt: GeoTransform, rows: usize, cols: usize, data: Vec<u8>) -> Tile<u8> {
    Tile {
        time: TimeInterval { start: 0, end: 1 },
        position: TilePosition { x: 0, y: 0 },
        geo_transform: gt,
        grid: Grid::new(GridShape { rows, cols }, data, None).unwrap(),
    }
}

#[test]
fn seeding_zero_fills_and_derives_the_transform() {
    let out: OutputRaster<u8> = seed_output(bbox(0, 0, 4, 6), 2, 3).unwrap();
    assert_eq!(out.grid.shape, GridShape { rows: 3, cols: 2 });
    assert_eq!(out.grid.data, vec![0, 0, 0, 0, 0, 0]);
    assert_eq!(out.geo_transform.origin_x, 0);
    assert_eq!(out.geo_transform.origin_y, 6);
    assert_eq!(out.geo_transform.pixel_size_x, 2);
    assert_eq!(out.geo_transform.pixel_size_y, -2);
}

#[test]
fn seeding_rejects_an_indivisible_extent() {
    let r: Result<OutputRaster<u8>, Error> = seed_output(bbox(0, 0, 5, 6), 2, 3);
    assert_eq!(r.unwrap_err(), Error::Geometry);
    let r: Result<OutputRaster<u8>, Error> = seed_output(bbox(0, 0, 4, 6), 0, 3);
    assert_eq!(r.unwrap_err(), Error::Geometry);
}

#[test]
fn composing_an_empty_stream_leaves_the_seed_unchanged() {
    let mut out: OutputRaster<u8> = seed_output(bbox(0, 0, 2, 2), 2, 2).unwrap();
    let tiles: Vec<Tile<u8>> = Vec::new();
    compose(&mut out, &tiles).unwrap();
    assert_eq!(out.grid.data, vec![0, 0, 0, 0]);
}

#[test]
fn an_exactly_covering_tile_reproduces_its_data() {
    let mut out: OutputRaster<u8> = seed_output(bbox(0, 0, 2, 2), 2, 2).unwrap();
    let tile = tile_at(out.geo_transform, 2, 2, vec![1, 2, 3, 4]);
    compose(&mut out, &vec![tile]).unwrap();
    assert_eq!(out.grid.data, vec![1, 2, 3, 4]);
}

#[test]
fn overlapping_tiles_overwrite_last_write_wins() {
    let mut out: OutputRaster<u8> = seed_output(bbox(0, 0, 2, 2), 2, 2).unwrap();
    let a = tile_at(out.geo_transform, 2, 2, vec![1, 1, 1, 1]);
    let b = tile_at(out.geo_transform, 2, 2, vec![7, 8, 9, 10]);
    compose(&mut out, &vec![a, b]).unwrap();
    assert_eq!(out.grid.data, vec![7, 8, 9, 10]);
}

#[test]
fn a_partially_overlapping_tile_copies_only_the_overlap() {
    // Output covers world x in [0, 2), y in (0, 2]; one-unit pixels.
    let mut out: OutputRaster<u8> = seed_output(bbox(0, 0, 2, 2), 2, 2).unwrap();
    // Tile shifted one pixel right and one down: only its upper-left cell
    // lands inside, at the output's lower-right corner.
    let gt = GeoTransform { origin_x: 1, origin_y: 1, pixel_size_x: 1, pixel_size_y: -1 };
    let tile = tile_at(gt, 2, 2, vec![5, 6, 7, 8]);
    blit(&mut out, &tile).unwrap();
    assert_eq!(out.grid.data, vec![0, 0, 0, 5]);
}

#[test]
fn a_disjoint_tile_is_skipped_not_an_error() {
    let mut out: OutputRaster<u8> = seed_output(bbox(0, 0, 2, 2), 2, 2).unwrap();
    let gt = GeoTransform { origin_x: 100, origin_y: 100, pixel_size_x: 1, pixel_size_y: -1 };
    let tile = tile_at(gt, 2, 2, vec![5, 6, 7, 8]);
    blit(&mut out, &tile).unwrap();
    assert_eq!(out.grid.data, vec![0, 0, 0, 0]);
}

#[test]
fn a_resolution_mismatch_is_a_geometry_error() {
    let mut out: OutputRaster<u8> = seed_output(bbox(0, 0, 2, 2), 2, 2).unwrap();
    let gt = GeoTransform { origin_x: 0, origin_y: 2, pixel_size_x: 2, pixel_size_y: -1 };
    let tile = tile_at(gt, 2, 2, vec![5, 6, 7, 8]);
    assert_eq!(blit(&mut out, &tile).unwrap_err(), Error::Geometry);
    assert_eq!(out.grid.data, vec![0, 0, 0, 0]);
}

#[test]
fn an_origin_off_the_pixel_raster_is_a_geometry_error() {
    let mut out: OutputRaster<u8> = seed_output(bbox(0, 0, 4, 4), 2, 2).unwrap();
    // Output pixels are two units wide; an origin at x = 1 cannot align.
    let gt = GeoTransform { origin_x: 1, origin_y: 4, pixel_size_x: 2, pixel_size_y: -2 };
    let tile = tile_at(gt, 2, 2, vec![5, 6, 7, 8]);
    assert_eq!(blit(&mut out, &tile).unwrap_err(), Error::Geometry);
}

#[test]
fn rendering_assembles_the_requested_raster() {
    // Two 1x2 tiles side by side fill a 1x4 output; a later tile overwrites.
    let gt_left = GeoTransform { origin_x: 0, origin_y: 1, pixel_size_x: 1, pixel_size_y: -1 };
    let gt_right = GeoTransform { origin_x: 2, origin_y: 1, pixel_size_x: 1, pixel_size_y: -1 };
    let tiles = vec![
        tile_at(gt_left, 1, 2, vec![1, 2]),
        tile_at(gt_right, 1, 2, vec![3, 4]),
        tile_at(gt_left, 1, 2, vec![9, 8]),
    ];
    let out: OutputRaster<u8> = render_raster(bbox(0, 0, 4, 1), 4, 1, &tiles).unwrap();
    assert_eq!(out.grid.shape, GridShape { rows: 1, cols: 4 });
    assert_eq!(out.grid.data, vec![9, 8, 3, 4]);
}

#[test]
fn rendering_an_empty_stream_yields_the_zero_fill() {
    let tiles: Vec<Tile<u8>> = Vec::new();
    let out: OutputRaster<u8> = render_raster(bbox(0, 0, 2, 2), 2, 2, &tiles).unwrap();
    assert_eq!(out.grid.data, vec![0, 0, 0, 0]);
}

#[test]
fn composing_aborts_at_the_first_bad_tile() {
    let mut out: OutputRaster<u8> = seed_output(bbox(0, 0, 2, 2), 2, 2).unwrap();
    let good = tile_at(out.geo_transform, 2, 2, vec![1, 2, 3, 4]);
    let bad_gt = GeoTransform { origin_x: 0, origin_y: 2, pixel_size_x: 3, pixel_size_y: -1 };
    let bad = tile_at(bad_gt, 2, 2, vec![9, 9, 9, 9]);
    let never = tile_at(out.geo_transform, 2, 2, vec![5, 5, 5, 5]);
    let r = compose(&mut out, &vec![good, bad, never]);
    assert_eq!(r.unwrap_err(), Error::Geometry);
    // The tile already folded before the failure stays folded.
    assert_eq!(out.grid.data, vec![1, 2, 3, 4]);
}
