//! The addressable unit of raster data: a 2D grid of pixel values with a
//! fixed shape and an optional no-data sentinel.
//!
//! A cell that equals the sentinel is passed through arithmetic unchanged;
//! every other cell is combined.  When no sentinel is configured every cell
//! is combined unconditionally.

use vstd::prelude::*;

use crate::error::Error;
use crate::pixel::{saturate_val, wrap_val, Pixel};

verus! {

/// The shape of a grid: a number of rows and of columns.
#[derive(Clone, Copy, Debug, PartialEq, Eq, Structural)]
pub struct GridShape {
    pub rows: usize,
    pub cols: usize,
}

impl GridShape {
    /// The number of cells a grid of this shape holds.
    pub open spec fn cell_count(self) -> int {
        self.rows * self.cols
    }

    /// The number of cells, when it is representable.
    pub fn number_of_elements(&self) -> (n: Option<usize>)
        ensures
            n is Some <==> self.cell_count() <= usize::MAX,
            n matches Some(c) ==> c == self.cell_count(),
    {
        self.rows.checked_mul(self.cols)
    }
}

/// What a combined cell holds: the no-data sentinel is passed through
/// unchanged, every other cell is the wrapping sum of the operands.
pub open spec fn combined_value(v: int, s: int, nd: Option<int>, lo: int, hi: int) -> int {
    if nd matches Some(n) && v == n {
        v
    } else {
        wrap_val(v + s, lo, hi)
    }
}

/// What a cell-wise combination of two grids holds: a pair in which either
/// cell equals the sentinel passes the sentinel through; every other pair
/// is the wrapping sum.
pub open spec fn combined_pair_value(a: int, b: int, nd: Option<int>, lo: int, hi: int) -> int {
    if nd matches Some(n) && (a == n || b == n) {
        nd->0
    } else {
        wrap_val(a + b, lo, hi)
    }
}

/// A 2D array of pixel values with a fixed shape and an optional no-data
/// sentinel.  Equality of grids is value-wise.
#[derive(Debug)]
pub struct Grid<P> {
    pub shape: GridShape,
    pub data: Vec<P>,
    pub no_data: Option<P>,
}

impl<P: Pixel> Grid<P> {
    /// The mathematical contents: one integer per cell, in row-major order.
    pub open spec fn values(self) -> Seq<int> {
        self.data@.map(|i: int, p: P| p.val())
    }

    /// The mathematical no-data sentinel, where one is configured.
    pub open spec fn no_data_val(self) -> Option<int> {
        match self.no_data {
            Some(p) => Some(p.val()),
            None => None,
        }
    }

    /// The data length matches the declared shape.
    pub open spec fn wf(self) -> bool {
        self.data@.len() == self.shape.cell_count()
    }

    /// Builds a grid from row-major data, rejecting data whose length does
    /// not match the shape.
    pub fn new(shape: GridShape, data: Vec<P>, no_data: Option<P>) -> (r: Result<Grid<P>, Error>)
        ensures
            r is Ok <==> data@.len() == shape.cell_count(),
            r matches Ok(g) ==> g == (Grid { shape, data, no_data }) && g.wf(),
            r matches Err(e) ==> (e matches Error::Shape { expected, found }
                && found == data@.len()
                && expected == saturate_val(shape.cell_count(), 0, usize::MAX as int)),
    {
        match shape.number_of_elements() {
            Some(expected) => {
                if data.len() == expected {
                    Ok(Grid { shape, data, no_data })
                } else {
                    Err(Error::Shape { expected, found: data.len() })
                }
            },
            None => Err(Error::Shape { expected: usize::MAX, found: data.len() }),
        }
    }

    /// Reads one cell.
    pub fn cell(&self, row: usize, col: usize) -> (p: P)
        requires
            self.wf(),
            row < self.shape.rows,
            col < self.shape.cols,
        ensures
            p.val() == self.values()[crate::cell_index(row as int, col as int, self.shape.cols as int)],
    {
        let len = self.data.len();
        proof {
            assert(row * self.shape.cols + col < self.shape.rows * self.shape.cols)
                by (nonlinear_arith)
                requires
                    row < self.shape.rows,
                    col < self.shape.cols,
            ;
            assert(row * self.shape.cols + col < len);
        }
        self.data[row * self.shape.cols + col]
    }

    /// Overwrites one cell.
    pub fn set_cell(&mut self, row: usize, col: usize, p: P)
        requires
            old(self).wf(),
            row < old(self).shape.rows,
            col < old(self).shape.cols,
        ensures
            final(self).shape == old(self).shape,
            final(self).no_data == old(self).no_data,
            final(self).wf(),
            final(self).values() =~= old(self).values().update(
                crate::cell_index(row as int, col as int, old(self).shape.cols as int),
                p.val(),
            ),
    {
        let len = self.data.len();
        proof {
            assert(row * self.shape.cols + col < self.shape.rows * self.shape.cols)
                by (nonlinear_arith)
                requires
                    row < self.shape.rows,
                    col < self.shape.cols,
            ;
            assert(row * self.shape.cols + col < len);
        }
        let i = row * self.shape.cols + col;
        self.data.set(i, p);
    }

    /// A fresh grid of the given shape with every cell holding `fill` and no
    /// no-data sentinel configured.  Fails only when the cell count cannot
    /// be represented.
    pub fn new_filled(shape: GridShape, fill: P) -> (r: Option<Grid<P>>)
        ensures
            r is Some <==> shape.cell_count() <= usize::MAX,
            r matches Some(g) ==> {
                &&& g.shape == shape
                &&& g.no_data is None
                &&& g.wf()
                &&& forall|i: int| 0 <= i < g.values().len() ==> g.values()[i] == fill.val()
            },
    {
        match shape.number_of_elements() {
            Some(n) => {
                let mut data: Vec<P> = Vec::new();
                let mut k: usize = 0;
                while k < n
                    invariant
                        k <= n,
                        data@.len() == k,
                        forall|i: int| 0 <= i < k ==> data@[i].val() == fill.val(),
                    decreases n - k,
                {
                    data.push(fill);
                    k = k + 1;
                }
                let g = Grid { shape, data, no_data: None };
                proof {
                    assert forall|i: int| 0 <= i < g.values().len() implies g.values()[i]
                        == fill.val() by {
                        assert(g.values()[i] == g.data@[i].val());
                    }
                }
                Some(g)
            },
            None => None,
        }
    }

    /// Combines every cell with the scalar `s`: a cell that equals the
    /// configured no-data sentinel is passed through unchanged, every other
    /// cell becomes the wrapping sum of the cell and `s`.  With no sentinel
    /// configured every cell is combined unconditionally.
    pub fn combine_scalar(&self, s: P) -> (r: Grid<P>)
        requires
            self.wf(),
        ensures
            r.shape == self.shape,
            r.no_data == self.no_data,
            r.wf(),
            r.values().len() == self.values().len(),
            forall|i: int| 0 <= i < self.values().len() ==> r.values()[i] == combined_value(
                self.values()[i],
                s.val(),
                self.no_data_val(),
                P::min_val(),
                P::max_val(),
            ),
    {
        let mut out: Vec<P> = Vec::new();
        let n = self.data.len();
        let mut k: usize = 0;
        while k < n
            invariant
                k <= n,
                n == self.data@.len(),
                out@.len() == k,
                forall|i: int| 0 <= i < k ==> out@[i].val() == combined_value(
                    self.data@[i].val(),
                    s.val(),
                    self.no_data_val(),
                    P::min_val(),
                    P::max_val(),
                ),
            decreases n - k,
        {
            let v = self.data[k];
            let combined = match self.no_data {
                Some(nd) => {
                    if v.eq_px(nd) {
                        nd
                    } else {
                        v.add_px(s)
                    }
                },
                None => v.add_px(s),
            };
            proof {
                if self.no_data matches Some(nd) && v.val() == nd.val() {
                    v.lemma_val_injective(self.no_data->0);
                }
            }
            out.push(combined);
            k = k + 1;
        }
        let r = Grid { shape: self.shape, data: out, no_data: self.no_data };
        proof {
            assert forall|i: int| 0 <= i < self.values().len() implies r.values()[i]
                == combined_value(
                self.values()[i],
                s.val(),
                self.no_data_val(),
                P::min_val(),
                P::max_val(),
            ) by {
                assert(r.values()[i] == r.data@[i].val());
                assert(self.values()[i] == self.data@[i].val());
            }
        }
        r
    }

    /// Combines this grid cell-wise with another of the same shape: a pair
    /// in which either cell equals this grid's no-data sentinel passes the
    /// sentinel through; every other pair becomes its wrapping sum.  The
    /// result carries this grid's sentinel.  Grids of different shapes are
    /// rejected with a `Shape` error carrying the two cell counts.
    pub fn combine_grids(&self, other: &Grid<P>) -> (r: Result<Grid<P>, Error>)
        requires
            self.wf(),
            other.wf(),
        ensures
            r is Ok <==> self.shape == other.shape,
            r matches Ok(g) ==> {
                &&& g.shape == self.shape
                &&& g.no_data == self.no_data
                &&& g.wf()
                &&& g.values().len() == self.values().len()
                &&& forall|i: int| 0 <= i < self.values().len() ==> g.values()[i]
                    == combined_pair_value(
                    self.values()[i],
                    other.values()[i],
                    self.no_data_val(),
                    P::min_val(),
                    P::max_val(),
                )
            },
            r matches Err(e) ==> e == (Error::Shape {
                expected: self.data@.len() as usize,
                found: other.data@.len() as usize,
            }),
    {
        if self.shape != other.shape {
            return Err(Error::Shape { expected: self.data.len(), found: other.data.len() });
        }
        let mut out: Vec<P> = Vec::new();
        let n = self.data.len();
        let mut k: usize = 0;
        while k < n
            invariant
                k <= n,
                n == self.data@.len(),
                n == other.data@.len(),
                out@.len() == k,
                forall|i: int| 0 <= i < k ==> out@[i].val() == combined_pair_value(
                    self.data@[i].val(),
                    other.data@[i].val(),
                    self.no_data_val(),
                    P::min_val(),
                    P::max_val(),
                ),
            decreases n - k,
        {
            let a = self.data[k];
            let b = other.data[k];
            let combined = match self.no_data {
                Some(nd) => {
                    if a.eq_px(nd) || b.eq_px(nd) {
                        nd
                    } else {
                        a.add_px(b)
                    }
                },
                None => a.add_px(b),
            };
            out.push(combined);
            k = k + 1;
        }
        let g = Grid { shape: self.shape, data: out, no_data: self.no_data };
        proof {
            assert forall|i: int| 0 <= i < self.values().len() implies g.values()[i]
                == combined_pair_value(
                self.values()[i],
                other.values()[i],
                self.no_data_val(),
                P::min_val(),
                P::max_val(),
            ) by {
                assert(g.values()[i] == g.data@[i].val());
                assert(self.values()[i] == self.data@[i].val());
                assert(other.values()[i] == other.data@[i].val());
            }
        }
        Ok(g)
    }

    /// Value-wise grid equality: same shape, same cell values, and the same
    /// no-data sentinel value.
    pub fn eq_grid(&self, other: &Grid<P>) -> (r: bool)
        ensures
            r == (self.shape == other.shape && self.values() =~= other.values()
                && self.no_data_val() == other.no_data_val()),
    {
        if self.shape != other.shape {
            return false;
        }
        let nd_same = match (&self.no_data, &other.no_data) {
            (Some(a), Some(b)) => a.eq_px(*b),
            (None, None) => true,
            _ => false,
        };
        if !nd_same {
            return false;
        }
        if self.data.len() != other.data.len() {
            return false;
        }
        let n = self.data.len();
        let mut k: usize = 0;
        while k < n
            invariant
                k <= n,
                n == self.data@.len(),
                n == other.data@.len(),
                forall|i: int| 0 <= i < k ==> self.data@[i].val() == other.data@[i].val(),
            decreases n - k,
        {
            if !self.data[k].eq_px(other.data[k]) {
                proof {
                    assert(self.values()[k as int] == self.data@[k as int].val());
                    assert(other.values()[k as int] == other.data@[k as int].val());
                    assert(self.values() !~= other.values());
                }
                return false;
            }
            k = k + 1;
        }
        proof {
            assert forall|i: int| 0 <= i < self.values().len() implies self.values()[i]
                == other.values()[i] by {
                assert(self.values()[i] == self.data@[i].val());
                assert(other.values()[i] == other.data@[i].val());
            }
            assert(self.values() =~= other.values());
        }
        true
    }
}

/// Round trip: a grid built by `Grid::new` reads back, cell for cell, the
/// data it was built from.
pub proof fn lemma_grid_round_trip<P: Pixel>(g: Grid<P>, data: Vec<P>)
    requires
        g.data == data,
        g.wf(),
    ensures
        g.values().len() == data@.len(),
        forall|row: int, col: int|
            0 <= row < g.shape.rows && 0 <= col < g.shape.cols
                ==> g.values()[crate::cell_index(row, col, g.shape.cols as int)]
                    == data@[crate::cell_index(row, col, g.shape.cols as int)].val(),
{
    assert forall|row: int, col: int|
        0 <= row < g.shape.rows && 0 <= col < g.shape.cols
            implies g.values()[crate::cell_index(row, col, g.shape.cols as int)]
                == data@[crate::cell_index(row, col, g.shape.cols as int)].val() by {
        assert(0 <= row * g.shape.cols + col < g.shape.rows * g.shape.cols) by (nonlinear_arith)
            requires
                0 <= row < g.shape.rows,
                0 <= col < g.shape.cols,
        ;
    }
}

} // verus!
