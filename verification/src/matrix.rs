//! A rectangular table of cells: one row for each document, one column for
//! each dimension of the embedding.

use vstd::prelude::*;
use crate::error::{EmbedderError, EmbedderErrorView};
use crate::text::{decimal, decimal_string};

verus! {

/// Two widths that should have been the same.
#[derive(Clone, Copy, Debug, PartialEq, Eq)]
pub struct ShapeError {
    /// The width of the rows that were there first.
    pub expected: usize,
    /// The width of the rows that were to join them.
    pub found: usize,
}

/// What is said of rows of width `found` that were to join rows of width
/// `expected`.
pub open spec fn mismatch_message(expected: nat, found: nat) -> Seq<char> {
    "Cannot put rows of width "@ + decimal(found) + " under rows of width "@ + decimal(expected)
        + "."@
}

impl ShapeError {
    /// Writes out what is wrong with the two widths.
    pub fn message(&self) -> (text: String)
        ensures
            text@ == mismatch_message(self.expected as nat, self.found as nat),
    {
        let mut text = String::from_str("Cannot put rows of width ");
        let found = decimal_string(self.found);
        text.append(found.as_str());
        text.append(" under rows of width ");
        let expected = decimal_string(self.expected);
        text.append(expected.as_str());
        text.append(".");
        assert(text@ =~= mismatch_message(self.expected as nat, self.found as nat));
        text
    }

    /// The failure to transform the output that the two widths amount to.
    pub fn into_error(self) -> (error: EmbedderError)
        ensures
            error@ == EmbedderErrorView::OutputTransformError(
                mismatch_message(self.expected as nat, self.found as nat),
            ),
    {
        EmbedderError::OutputTransformError(self.message())
    }
}

/// Whether every row of `rows` holds exactly `width` cells.
pub open spec fn rectangular<T>(rows: Seq<Seq<T>>, width: nat) -> bool {
    forall|i: int| 0 <= i < rows.len() ==> (#[trigger] rows[i]).len() == width
}

/// The rows of `rows` as sequences of cells.
pub open spec fn rows_view<T>(rows: Seq<Vec<T>>) -> Seq<Seq<T>> {
    Seq::new(rows.len(), |i: int| rows[i]@)
}

/// Whether `scaled` is `row` with every cell divided by the norm of `row`,
/// where `norm` takes the norm of a row and `divide` divides a cell by it.
pub open spec fn row_scaled<T, N: Fn(&Vec<T>) -> T, D: Fn(T, &T) -> T>(
    norm: N,
    divide: D,
    row: Seq<T>,
    scaled: Seq<T>,
) -> bool {
    exists|whole: Vec<T>, by: T|
        {
            &&& whole@ == row
            &&& #[trigger] norm.ensures((&whole,), by)
            &&& scaled.len() == row.len()
            &&& forall|j: int|
                0 <= j < row.len() ==> divide.ensures((row[j], &by), #[trigger] scaled[j])
        }
}

/// Rows of cells that all have the same width.  The width is known even when
/// there is no row.
#[derive(Debug, PartialEq, Eq)]
pub struct Matrix<T> {
    width: usize,
    rows: Vec<Vec<T>>,
}

impl<T> View for Matrix<T> {
    type V = Seq<Seq<T>>;

    /// The rows, first to last.
    closed spec fn view(&self) -> Seq<Seq<T>> {
        rows_view(self.rows@)
    }
}

impl<T> Matrix<T> {
    #[verifier::type_invariant]
    spec fn well_formed(self) -> bool {
        rectangular(rows_view(self.rows@), self.width as nat)
    }

    /// The number of cells in every row.
    pub closed spec fn cols(&self) -> nat {
        self.width as nat
    }

    /// A matrix of the given width without rows.
    pub fn new(width: usize) -> (matrix: Self)
        ensures
            matrix@ == Seq::<Seq<T>>::empty(),
            matrix.cols() == width,
    {
        Matrix { width, rows: Vec::new() }
    }

    /// The matrix of the given rows, if each of them is `width` cells wide.
    /// Otherwise the failure holds the width of the first row that is not.
    pub fn from_rows(width: usize, rows: Vec<Vec<T>>) -> (result: Result<Self, ShapeError>)
        ensures
            rectangular(rows_view(rows@), width as nat) ==> (result matches Ok(matrix)
                && matrix@ == rows_view(rows@) && matrix.cols() == width),
            !rectangular(rows_view(rows@), width as nat) ==> (result matches Err(error)
                && error.expected == width && exists|i: int|
                0 <= i < rows@.len() && rows@[i]@.len() == error.found && error.found != width
                    && rectangular(rows_view(rows@.take(i)), width as nat)),
    {
        let mut at: usize = 0;
        while at < rows.len()
            invariant
                at <= rows@.len(),
                rectangular(rows_view(rows@.take(at as int)), width as nat),
            decreases rows@.len() - at,
        {
            let found = rows[at].len();
            if found != width {
                assert(rows_view(rows@)[at as int].len() == found);
                return Err(ShapeError { expected: width, found });
            }
            assert forall|i: int| 0 <= i < at + 1 implies (#[trigger] rows_view(
                rows@.take(at + 1),
            )[i]).len() == width by {
                if i < at {
                    assert(rows_view(rows@.take(at as int))[i].len() == width);
                }
            }
            at += 1;
        }
        assert(rows@.take(at as int) == rows@);
        Ok(Matrix { width, rows })
    }

    /// The number of rows.
    pub fn nrows(&self) -> (n: usize)
        ensures
            n == self@.len(),
    {
        self.rows.len()
    }

    /// The number of cells in every row: every row is that wide.
    pub fn ncols(&self) -> (n: usize)
        ensures
            n == self.cols(),
            rectangular(self@, self.cols()),
    {
        proof {
            use_type_invariant(self);
        }
        self.width
    }

    /// The row with index `at`.
    pub fn row(&self, at: usize) -> (row: &Vec<T>)
        requires
            at < self@.len(),
        ensures
            row@ == self@[at as int],
            row@.len() == self.cols(),
    {
        proof {
            use_type_invariant(self);
            assert(rows_view(self.rows@)[at as int].len() == self.width);
        }
        &self.rows[at]
    }

    /// The rows, each as a vector of its own, in their order.
    pub fn into_rows(self) -> (rows: Vec<Vec<T>>)
        ensures
            rows_view(rows@) == self@,
            rectangular(self@, self.cols()),
    {
        proof {
            use_type_invariant(&self);
        }
        self.rows
    }

    /// Divides every cell by the norm of its row: `norm` takes the norm of a
    /// row, `divide` divides a cell by a norm.  Rows stay where they are and
    /// as wide as they are.
    pub fn scale_rows<N: Fn(&Vec<T>) -> T, D: Fn(T, &T) -> T>(self, norm: N, divide: D) -> (scaled:
        Matrix<T>)
        requires
            forall|row: &Vec<T>| #[trigger] norm.requires((row,)),
            forall|cell: T, by: &T| #[trigger] divide.requires((cell, by)),
        ensures
            scaled.cols() == self.cols(),
            scaled@.len() == self@.len(),
            forall|i: int|
                0 <= i < self@.len() ==> row_scaled(norm, divide, self@[i], #[trigger] scaled@[i]),
    {
        proof {
            use_type_invariant(&self);
        }
        let ghost before = self@;
        let Matrix { width, rows } = self;
        let mut scaled_rows: Vec<Vec<T>> = Vec::new();
        for row in each: rows
            invariant
                each.seq() == rows@,
                rows_view(rows@) == before,
                rectangular(before, width as nat),
                scaled_rows@.len() == each.index(),
                rectangular(rows_view(scaled_rows@), width as nat),
                forall|cell: T, by: &T| #[trigger] divide.requires((cell, by)),
                forall|row: &Vec<T>| #[trigger] norm.requires((row,)),
                forall|i: int|
                    0 <= i < each.index() ==> row_scaled(
                        norm,
                        divide,
                        before[i],
                        #[trigger] scaled_rows@[i]@,
                    ),
        {
            let ghost at = each.index() as int;
            let ghost whole = row;
            assert(whole@ == before[at]);
            let by = norm(&row);
            let mut scaled: Vec<T> = Vec::new();
            for cell in cells: row
                invariant
                    cells.seq() == whole@,
                    scaled@.len() == cells.index(),
                    forall|cell: T, by: &T| #[trigger] divide.requires((cell, by)),
                    forall|j: int|
                        0 <= j < cells.index() ==> divide.ensures(
                            (whole@[j], &by),
                            #[trigger] scaled@[j],
                        ),
            {
                scaled.push(divide(cell, &by));
            }
            assert(row_scaled(norm, divide, before[at], scaled@));
            scaled_rows.push(scaled);
            assert(rows_view(scaled_rows@)[at].len() == width);
        }
        let scaled = Matrix { width, rows: scaled_rows };
        assert forall|i: int| 0 <= i < before.len() implies row_scaled(
            norm,
            divide,
            before[i],
            #[trigger] scaled@[i],
        ) by {
            assert(scaled@[i] == scaled_rows@[i]@);
        }
        scaled
    }

    /// Puts the rows of `below` under the rows of `self`, if both are of one
    /// width.
    pub fn concatenate(self, below: Matrix<T>) -> (result: Result<Matrix<T>, ShapeError>)
        ensures
            self.cols() == below.cols() ==> (result matches Ok(matrix) && matrix@ == self@
                + below@ && matrix.cols() == self.cols()),
            self.cols() != below.cols() ==> (result matches Err(error) && error.expected
                == self.cols() && error.found == below.cols()),
    {
        proof {
            use_type_invariant(&self);
            use_type_invariant(&below);
        }
        if self.width != below.width {
            return Err(ShapeError { expected: self.width, found: below.width });
        }
        let ghost upper = self@;
        let ghost lower = below@;
        let Matrix { width, rows: mut rows } = self;
        let Matrix { width: _, rows: mut more } = below;
        rows.append(&mut more);
        assert(rows_view(rows@) =~= upper + lower);
        Ok(Matrix { width, rows })
    }
}

} // verus!
