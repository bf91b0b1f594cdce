//! From what the inference runtime hands back, batch by batch, to one matrix
//! with a row for each document, in the order of the documents.

use vstd::prelude::*;
use crate::error::{EmbedderError, EmbedderErrorView};
use crate::matrix::{mismatch_message, rectangular, row_scaled, Matrix};

verus! {

/// Whether none of the first `count` outputs, given by their names, is named
/// `key`.
pub open spec fn none_named(available: Seq<String>, count: int, key: Seq<char>) -> bool {
    forall|i: int| 0 <= i < count ==> (#[trigger] available[i])@ != key
}

/// Looks for the output named `key` among the outputs of one inference call,
/// given by their names, and returns the position of the first of that name.
/// There is no second choice: without an output of that name the embedding
/// fails.
pub fn select_output(available: &Vec<String>, key: &str) -> (result: Result<usize, EmbedderError>)
    ensures
        match result {
            Ok(at) => at < available@.len() && available@[at as int]@ == key@ && none_named(
                available@,
                at as int,
                key@,
            ),
            Err(error) => error@ == EmbedderErrorView::OutputKeyNotFound(key@) && none_named(
                available@,
                available@.len() as int,
                key@,
            ),
        },
{
    let wanted = String::from_str(key);
    let mut at: usize = 0;
    while at < available.len()
        invariant
            at <= available@.len(),
            wanted@ == key@,
            none_named(available@, at as int, key@),
        decreases available@.len() - at,
    {
        if available[at] == wanted {
            return Ok(at);
        }
        at += 1;
    }
    Err(EmbedderError::OutputKeyNotFound(wanted))
}

/// Whether the batch with index `at` stops the merge, if no batch before it
/// has: it failed, or its rows are not as wide as those of the first batch.
pub open spec fn faulty<T>(batches: Seq<Result<Matrix<T>, EmbedderError>>, at: int) -> bool {
    batches[at] is Err || batches[at]->Ok_0.cols() != batches[0]->Ok_0.cols()
}

/// Whether none of the first `count` batches stops the merge.
pub open spec fn sound<T>(batches: Seq<Result<Matrix<T>, EmbedderError>>, count: int) -> bool {
    forall|at: int| 0 <= at < count ==> !faulty(batches, at)
}

/// The rows of the first `count` batches, one batch under the other.
pub open spec fn stacked<T>(batches: Seq<Result<Matrix<T>, EmbedderError>>, count: int) -> Seq<Seq<T>>
    decreases count,
{
    if count <= 0 {
        Seq::empty()
    } else {
        stacked(batches, count - 1) + batches[count - 1]->Ok_0@
    }
}

/// The failure that the batch with index `at` stops the merge with.
pub open spec fn fault<T>(batches: Seq<Result<Matrix<T>, EmbedderError>>, at: int) -> EmbedderErrorView {
    match batches[at] {
        Err(error) => error@,
        Ok(batch) => EmbedderErrorView::OutputTransformError(
            mismatch_message(batches[0]->Ok_0.cols(), batch.cols()),
        ),
    }
}

/// In how many batches `documents` documents are embedded, `size` at a time.
pub open spec fn batch_count(documents: nat, size: nat) -> nat {
    if size == 0 {
        0
    } else {
        ((documents + size - 1) / (size as int)) as nat
    }
}

/// The rows of the batch with index `at`, where `rows` holds one row for
/// each document and a batch holds `size` documents, the last batch what is
/// left.
pub open spec fn batch_rows<A>(rows: Seq<A>, size: nat, at: int) -> Seq<A> {
    rows.subrange(
        at * size,
        if (at + 1) * size <= rows.len() {
            (at + 1) * size
        } else {
            rows.len() as int
        },
    )
}

/// Whether `batches` holds the rows `rows`, pooled in batches of `size`
/// documents, all of one width.
pub open spec fn split_into<T>(
    batches: Seq<Result<Matrix<T>, EmbedderError>>,
    rows: Seq<Seq<T>>,
    size: nat,
) -> bool {
    &&& size > 0
    &&& batches.len() == batch_count(rows.len(), size)
    &&& forall|at: int|
        0 <= at < batches.len() ==> (#[trigger] batches[at] matches Ok(batch) && batch@
            == batch_rows(rows, size, at) && batch.cols() == batches[0]->Ok_0.cols())
}

/// The batches before the one with index `count` hold the rows of the
/// documents before it.
proof fn lemma_stacked_prefix<T>(
    batches: Seq<Result<Matrix<T>, EmbedderError>>,
    rows: Seq<Seq<T>>,
    size: nat,
    count: int,
)
    requires
        split_into(batches, rows, size),
        0 <= count <= batches.len(),
    ensures
        count < batches.len() ==> count * size < rows.len(),
        count == batches.len() ==> count * size >= rows.len(),
        stacked(batches, count) == rows.take(
            if count * size <= rows.len() {
                count * size
            } else {
                rows.len() as int
            },
        ),
    decreases count,
{
    let total = rows.len() as int;
    let step = size as int;
    let n = batches.len() as int;
    assert(n == (total + step - 1) / step);
    assert((n - 1) * step < total && total <= n * step) by (nonlinear_arith)
        requires
            n == (total + step - 1) / step,
            step > 0,
            total >= 0,
    ;
    assert(count < n ==> count * step < total) by (nonlinear_arith)
        requires
            (n - 1) * step < total,
            step > 0,
            0 <= count,
    ;
    assert(count == n ==> count * step >= total);
    if count == 0 {
        assert(count * step == 0) by (nonlinear_arith)
            requires
                count == 0,
        ;
        assert(stacked(batches, 0) =~= rows.take(0));
    } else {
        lemma_stacked_prefix(batches, rows, size, count - 1);
        let before = count - 1;
        assert(before * step < total);
        assert((before + 1) * step == before * step + step) by (nonlinear_arith);
        assert(batches[before] matches Ok(batch) && batch@ == batch_rows(rows, size, before));
        let upto = if count * step <= total {
            count * step
        } else {
            total
        };
        assert(stacked(batches, count) =~= rows.take(upto));
    }
}

/// Concatenation preserves order, however the documents were split into
/// batches: where the batches hold the rows of the documents, pooled `size`
/// documents at a time, nothing stops the merge, and the merged rows are the
/// rows of the documents, in the order of the documents.
pub proof fn lemma_order_preserved<T>(
    batches: Seq<Result<Matrix<T>, EmbedderError>>,
    rows: Seq<Seq<T>>,
    size: nat,
)
    requires
        split_into(batches, rows, size),
    ensures
        sound(batches, batches.len() as int),
        stacked(batches, batches.len() as int) == rows,
{
    lemma_stacked_prefix(batches, rows, size, batches.len() as int);
    assert(rows.take(rows.len() as int) =~= rows);
}

/// The size of the batches makes no difference: the same rows, split in two
/// ways, merge into the same rows.
pub proof fn lemma_batch_size_irrelevant<T>(
    batches: Seq<Result<Matrix<T>, EmbedderError>>,
    size: nat,
    others: Seq<Result<Matrix<T>, EmbedderError>>,
    other_size: nat,
    rows: Seq<Seq<T>>,
)
    requires
        split_into(batches, rows, size),
        split_into(others, rows, other_size),
    ensures
        stacked(batches, batches.len() as int) == stacked(others, others.len() as int),
{
    lemma_order_preserved(batches, rows, size);
    lemma_order_preserved(others, rows, other_size);
}

/// As many rows as documents: where the batches hold one row for each of
/// the documents, pooled `size` documents at a time, there is at least one
/// batch if there is a document, and the merged rows are as many as the
/// documents.
pub proof fn lemma_row_for_each_document<T>(
    batches: Seq<Result<Matrix<T>, EmbedderError>>,
    rows: Seq<Seq<T>>,
    size: nat,
)
    requires
        split_into(batches, rows, size),
    ensures
        rows.len() > 0 ==> batches.len() > 0,
        stacked(batches, batches.len() as int).len() == rows.len(),
{
    lemma_order_preserved(batches, rows, size);
    lemma_stacked_prefix(batches, rows, size, 0);
}

/// Brings the pooled output of all batches into one matrix: the rows of the
/// first batch, under them those of the second, and so on.  Each batch comes
/// as its pooled rows, or as the failure to select or to pool its output.
///
/// The merge stops at the first batch that failed or that is not as wide as
/// the first batch: it fails as that batch did, or with the two widths.
/// Without any batch there is nothing to merge, and it fails too.
pub fn merge_batches<T>(batches: Vec<Result<Matrix<T>, EmbedderError>>) -> (result: Result<
    Matrix<T>,
    EmbedderError,
>)
    ensures
        batches@.len() == 0 ==> (result matches Err(error) && error@
            == EmbedderErrorView::FastEmbedError("No output found."@)),
        batches@.len() > 0 && sound(batches@, batches@.len() as int) ==> (result matches Ok(
            matrix,
        ) && matrix@ == stacked(batches@, batches@.len() as int) && matrix.cols()
            == batches@[0]->Ok_0.cols() && rectangular(matrix@, matrix.cols())),
        forall|at: int|
            0 <= at < batches@.len() && sound(batches@, at) && #[trigger] faulty(batches@, at)
                ==> (result matches Err(error) && error@ == fault(batches@, at)),
{
    let mut merged: Option<Matrix<T>> = None;
    for batch in it: batches
        invariant
            it.seq() == batches@,
            sound(batches@, it.index() as int),
            match merged {
                None => it.index() == 0,
                Some(above) => it.index() > 0 && above@ == stacked(batches@, it.index() as int)
                    && above.cols() == batches@[0]->Ok_0.cols(),
            },
    {
        let ghost at = it.index() as int;
        assert(batch == batches@[at]);
        let pooled = match batch {
            Ok(pooled) => pooled,
            Err(error) => {
                assert(faulty(batches@, at));
                return Err(error);
            },
        };
        merged =
        match merged {
            None => {
                assert(stacked(batches@, 1) =~= pooled@) by {
                    assert(stacked(batches@, 0) =~= Seq::<Seq<T>>::empty());
                }
                Some(pooled)
            },
            Some(above) => {
                match above.concatenate(pooled) {
                    Ok(joined) => Some(joined),
                    Err(shapes) => {
                        assert(faulty(batches@, at));
                        return Err(shapes.into_error());
                    },
                }
            },
        };
        assert(!faulty(batches@, at));
    }
    match merged {
        Some(matrix) => {
            let _ = matrix.ncols();
            Ok(matrix)
        },
        None => Err(EmbedderError::FastEmbedError(String::from_str("No output found."))),
    }
}

/// The whole way from the pooled output of the batches to the embeddings:
/// the batches are merged as [`merge_batches`] does, then every row is
/// normalized, each cell divided by the norm of its row.  The arithmetic is
/// the caller's: `norm` takes the norm of a row, `divide` divides a cell by
/// a norm.
///
/// It fails where the merge fails, and as the merge does.  Else there is a
/// row for each merged row, in the same place and of the same width.
pub fn output_to_2d_array<T, N: Fn(&Vec<T>) -> T, D: Fn(T, &T) -> T>(
    batches: Vec<Result<Matrix<T>, EmbedderError>>,
    norm: N,
    divide: D,
) -> (result: Result<Matrix<T>, EmbedderError>)
    requires
        forall|row: &Vec<T>| #[trigger] norm.requires((row,)),
        forall|cell: T, by: &T| #[trigger] divide.requires((cell, by)),
    ensures
        batches@.len() == 0 ==> (result matches Err(error) && error@
            == EmbedderErrorView::FastEmbedError("No output found."@)),
        batches@.len() > 0 && sound(batches@, batches@.len() as int) ==> (result matches Ok(
            matrix,
        ) && matrix.cols() == batches@[0]->Ok_0.cols() && rectangular(matrix@, matrix.cols())
            && matrix@.len() == stacked(batches@, batches@.len() as int).len() && forall|i: int|
            0 <= i < matrix@.len() ==> row_scaled(
                norm,
                divide,
                stacked(batches@, batches@.len() as int)[i],
                #[trigger] matrix@[i],
            )),
        forall|at: int|
            0 <= at < batches@.len() && sound(batches@, at) && #[trigger] faulty(batches@, at)
                ==> (result matches Err(error) && error@ == fault(batches@, at)),
{
    match merge_batches(batches) {
        Ok(merged) => {
            let scaled = merged.scale_rows(norm, divide);
            let _ = scaled.ncols();
            Ok(scaled)
        },
        Err(error) => Err(error),
    }
}

} // verus!
