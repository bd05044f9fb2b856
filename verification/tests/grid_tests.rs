use raster_pipeline::error::Error;
use raster_pipeline::grid::{Grid, GridShape};

#[test]
fn grid_round_trip() {
    let shape = GridShape { rows: 3, cols: 2 };
    let data: Vec<u8> = vec![1, 2, 3, 4, 5, 6];
    let grid = Grid::new(shape, data.clone(), None).unwrap();
    let mut read_back: Vec<u8> = Vec::new();
    for row in 0..3 {
        for col in 0..2 {
            read_back.push(grid.cell(row, col));
        }
    }
    assert_eq!(read_back, data);
}

#[test]
fn grid_new_rejects_wrong_length() {
    let shape = GridShape { rows: 3, cols: 2 };
    let data: Vec<u8> = vec![1, 2, 3, 4, 5];
    let r = Grid::new(shape, data, None);
    assert_eq!(r.unwrap_err(), Error::Shape { expected: 6, found: 5 });
}

#[test]
fn combine_scalar_without_nodata_combines_every_cell() {
    let shape = GridShape { rows: 3, cols: 2 };
    let grid = Grid::new(shape, vec![1u8, 2, 3, 4, 5, 6], None).unwrap();
    let combined = grid.combine_scalar(1);
    assert_eq!(combined.data, vec![2, 3, 4, 5, 6, 7]);
    assert_eq!(combined.shape, shape);
    assert_eq!(combined.no_data, None);
}

#[test]
fn combine_scalar_passes_nodata_through() {
    let shape = GridShape { rows: 1, cols: 3 };
    let grid = Grid::new(shape, vec![1u8, 2, 3], Some(3)).unwrap();
    let combined = grid.combine_scalar(1);
    assert_eq!(combined.data, vec![2, 3, 3]);
    assert_eq!(combined.no_data, Some(3));
}

#[test]
fn combine_scalar_wraps_at_the_bounds() {
    let shape = GridShape { rows: 1, cols: 2 };
    let grid = Grid::new(shape, vec![255u8, 10], None).unwrap();
    let combined = grid.combine_scalar(1);
    assert_eq!(combined.data, vec![0, 11]);

    let signed = Grid::new(shape, vec![127i8, -128], None).unwrap();
    let combined = signed.combine_scalar(1);
    assert_eq!(combined.data, vec![-128, -127]);
}

#[test]
fn combine_grids_adds_cell_wise() {
    let shape = GridShape { rows: 2, cols: 2 };
    let a = Grid::new(shape, vec![1u8, 2, 3, 4], None).unwrap();
    let b = Grid::new(shape, vec![10u8, 20, 30, 40], None).unwrap();
    let combined = a.combine_grids(&b).unwrap();
    assert_eq!(combined.data, vec![11, 22, 33, 44]);
}

#[test]
fn combine_grids_passes_the_sentinel_through() {
    let shape = GridShape { rows: 1, cols: 3 };
    let a = Grid::new(shape, vec![9u8, 2, 3], Some(9)).unwrap();
    let b = Grid::new(shape, vec![1u8, 9, 3], None).unwrap();
    let combined = a.combine_grids(&b).unwrap();
    assert_eq!(combined.data, vec![9, 9, 6]);
    assert_eq!(combined.no_data, Some(9));
}

#[test]
fn combine_grids_rejects_mismatched_shapes() {
    let a = Grid::new(GridShape { rows: 1, cols: 2 }, vec![1u8, 2], None).unwrap();
    let b = Grid::new(GridShape { rows: 2, cols: 2 }, vec![1u8, 2, 3, 4], None).unwrap();
    assert_eq!(a.combine_grids(&b).unwrap_err(), Error::Shape { expected: 2, found: 4 });
}

#[test]
fn grid_equality_is_value_wise() {
    let shape = GridShape { rows: 2, cols: 2 };
    let a = Grid::new(shape, vec![1u16, 2, 3, 4], Some(9)).unwrap();
    let b = Grid::new(shape, vec![1u16, 2, 3, 4], Some(9)).unwrap();
    let c = Grid::new(shape, vec![1u16, 2, 3, 5], Some(9)).unwrap();
    let d = Grid::new(shape, vec![1u16, 2, 3, 4], None).unwrap();
    assert!(a.eq_grid(&b));
    assert!(!a.eq_grid(&c));
    assert!(!a.eq_grid(&d));
}

#[test]
fn new_filled_seeds_with_the_fill_value() {
    let shape = GridShape { rows: 2, cols: 3 };
    let grid: Grid<u32> = Grid::new_filled(shape, 0).unwrap();
    assert_eq!(grid.data, vec![0, 0, 0, 0, 0, 0]);
    assert_eq!(grid.no_data, None);
}
