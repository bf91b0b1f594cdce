use embedder::matrix::ShapeError;
use embedder::pipeline::{merge_batches, output_to_2d_array, select_output};
use embedder::{EmbedderError, Matrix};

fn pooled(width: usize, rows: Vec<Vec<f32>>) -> Result<Matrix<f32>, EmbedderError> {
    Ok(Matrix::from_rows(width, rows).expect("rows of one width"))
}

fn failed(reason: &str) -> Result<Matrix<f32>, EmbedderError> {
    Err(EmbedderError::FastEmbedError(reason.to_owned()))
}

fn row_of(document: usize, width: usize) -> Vec<f32> {
    (0..width).map(|column| (document * 1000 + column) as f32 * 0.5).collect()
}

#[test]
fn from_rows_keeps_rows_and_width() {
    let matrix = Matrix::from_rows(2, vec![vec![1.0f32, 2.0], vec![3.0, 4.0], vec![5.0, 6.0]]).unwrap();
    assert_eq!(matrix.nrows(), 3);
    assert_eq!(matrix.ncols(), 2);
    assert_eq!(matrix.row(0), &vec![1.0f32, 2.0]);
    assert_eq!(matrix.row(2), &vec![5.0f32, 6.0]);
    assert_eq!(matrix.into_rows(), vec![vec![1.0f32, 2.0], vec![3.0, 4.0], vec![5.0, 6.0]]);
}

#[test]
fn from_rows_without_rows_knows_its_width() {
    let matrix: Matrix<f32> = Matrix::from_rows(384, vec![]).unwrap();
    assert_eq!(matrix.nrows(), 0);
    assert_eq!(matrix.ncols(), 384);
    assert_eq!(matrix, Matrix::new(384));
}

#[test]
fn from_rows_refuses_the_first_row_of_another_width() {
    let result = Matrix::from_rows(2, vec![vec![1u8, 2], vec![3], vec![4, 5, 6]]);
    assert_eq!(result, Err(ShapeError { expected: 2, found: 1 }));
    let result = Matrix::from_rows(0, vec![vec![1u8]]);
    assert_eq!(result, Err(ShapeError { expected: 0, found: 1 }));
}

#[test]
fn shape_error_says_which_widths_do_not_go_together() {
    let shapes = ShapeError { expected: 384, found: 768 };
    assert_eq!(shapes.message(), "Cannot put rows of width 768 under rows of width 384.");
    assert_eq!(
        shapes.into_error(),
        EmbedderError::OutputTransformError(
            "Cannot put rows of width 768 under rows of width 384.".to_owned()
        )
    );
    assert_eq!(
        shapes.into_error().message(),
        "Filed to transform the output as desired: Cannot put rows of width 768 under rows of width 384."
    );
}

#[test]
fn concatenate_puts_rows_below() {
    let above = Matrix::from_rows(2, vec![vec![1, 2], vec![3, 4]]).unwrap();
    let below = Matrix::from_rows(2, vec![vec![5, 6]]).unwrap();
    let joined = above.concatenate(below).unwrap();
    assert_eq!(joined.ncols(), 2);
    assert_eq!(joined.into_rows(), vec![vec![1, 2], vec![3, 4], vec![5, 6]]);
}

#[test]
fn concatenate_is_not_commutative() {
    let one = Matrix::from_rows(1, vec![vec![1]]).unwrap();
    let two = Matrix::from_rows(1, vec![vec![2]]).unwrap();
    assert_eq!(one.concatenate(two).unwrap().into_rows(), vec![vec![1], vec![2]]);
    let one = Matrix::from_rows(1, vec![vec![1]]).unwrap();
    let two = Matrix::from_rows(1, vec![vec![2]]).unwrap();
    assert_eq!(two.concatenate(one).unwrap().into_rows(), vec![vec![2], vec![1]]);
}

#[test]
fn concatenate_refuses_another_width_even_without_rows() {
    let above: Matrix<u8> = Matrix::new(3);
    let below: Matrix<u8> = Matrix::new(4);
    assert_eq!(above.concatenate(below), Err(ShapeError { expected: 3, found: 4 }));
    let above = Matrix::from_rows(3, vec![vec![1u8, 2, 3]]).unwrap();
    let below = Matrix::from_rows(2, vec![vec![1u8, 2]]).unwrap();
    assert_eq!(above.concatenate(below), Err(ShapeError { expected: 3, found: 2 }));
}

#[test]
fn concatenate_with_no_rows_changes_nothing() {
    let above = Matrix::from_rows(2, vec![vec![1, 2]]).unwrap();
    let joined = above.concatenate(Matrix::new(2)).unwrap();
    assert_eq!(joined.into_rows(), vec![vec![1, 2]]);
    let below = Matrix::from_rows(2, vec![vec![1, 2]]).unwrap();
    let joined = Matrix::new(2).concatenate(below).unwrap();
    assert_eq!(joined.into_rows(), vec![vec![1, 2]]);
}

#[test]
fn merge_keeps_the_order_of_the_documents() {
    let a = row_of(0, 3);
    let b = row_of(1, 3);
    let c = row_of(2, 3);
    let merged = merge_batches(vec![
        pooled(3, vec![a.clone()]),
        pooled(3, vec![b.clone(), c.clone()]),
    ])
    .unwrap();
    assert_eq!(merged.nrows(), 3);
    assert_eq!(merged.ncols(), 3);
    assert_eq!(merged.into_rows(), vec![a, b, c]);
}

#[test]
fn merge_of_one_batch_is_that_batch() {
    let merged = merge_batches(vec![pooled(2, vec![vec![1.5, 2.5], vec![3.5, 4.5]])]).unwrap();
    assert_eq!(merged.into_rows(), vec![vec![1.5f32, 2.5], vec![3.5, 4.5]]);
}

#[test]
fn merge_does_not_depend_on_the_batch_size() {
    let documents: Vec<Vec<f32>> = (0..4).map(|document| row_of(document, 5)).collect();
    let by_two = merge_batches(vec![
        pooled(5, documents[0..2].to_vec()),
        pooled(5, documents[2..4].to_vec()),
    ])
    .unwrap();
    let by_four = merge_batches(vec![pooled(5, documents.clone())]).unwrap();
    let by_three = merge_batches(vec![
        pooled(5, documents[0..3].to_vec()),
        pooled(5, documents[3..4].to_vec()),
    ])
    .unwrap();
    let by_one = merge_batches(
        documents.iter().map(|document| pooled(5, vec![document.clone()])).collect(),
    )
    .unwrap();
    assert_eq!(by_two, by_four);
    assert_eq!(by_three, by_four);
    assert_eq!(by_one, by_four);
    assert_eq!(by_four.into_rows(), documents);
}

#[test]
fn merge_has_a_row_for_each_document_of_the_width_of_the_model() {
    let count = 37;
    let width = 384;
    let size = 16;
    let documents: Vec<Vec<f32>> = (0..count).map(|document| row_of(document, width)).collect();
    let batches: Vec<Result<Matrix<f32>, EmbedderError>> =
        documents.chunks(size).map(|batch| pooled(width, batch.to_vec())).collect();
    assert_eq!(batches.len(), 3);
    let merged = merge_batches(batches).unwrap();
    assert_eq!(merged.nrows(), count);
    assert_eq!(merged.ncols(), width);
    for document in 0..count {
        assert_eq!(merged.row(document).len(), width);
        assert_eq!(merged.row(document), &documents[document]);
    }
}

#[test]
fn merge_without_batches_fails() {
    let result: Result<Matrix<f32>, EmbedderError> = merge_batches(vec![]);
    assert_eq!(result, Err(EmbedderError::FastEmbedError("No output found.".to_owned())));
}

#[test]
fn merge_fails_with_the_failure_of_a_batch() {
    let result = merge_batches(vec![
        pooled(2, vec![vec![1.0, 2.0]]),
        failed("Invalid output shape"),
        pooled(2, vec![vec![3.0, 4.0]]),
    ]);
    assert_eq!(result, Err(EmbedderError::FastEmbedError("Invalid output shape".to_owned())));
    let result: Result<Matrix<f32>, EmbedderError> = merge_batches(vec![failed("first")]);
    assert_eq!(result, Err(EmbedderError::FastEmbedError("first".to_owned())));
}

#[test]
fn merge_fails_as_the_batch_without_the_output_did() {
    let available = vec!["last_hidden_state".to_owned()];
    let missing = select_output(&available, "sentence_embedding").unwrap_err();
    let result = merge_batches(vec![pooled(2, vec![vec![1.0, 2.0]]), Err(missing), failed("later")]);
    assert_eq!(
        result,
        Err(EmbedderError::OutputKeyNotFound("sentence_embedding".to_owned()))
    );
}

#[test]
fn merge_fails_on_rows_of_another_width() {
    let result = merge_batches(vec![
        pooled(384, vec![row_of(0, 384)]),
        pooled(768, vec![row_of(1, 768)]),
    ]);
    assert_eq!(
        result,
        Err(EmbedderError::OutputTransformError(
            "Cannot put rows of width 768 under rows of width 384.".to_owned()
        ))
    );
}

#[test]
fn merge_fails_on_another_width_even_without_rows() {
    let result = merge_batches(vec![pooled(2, vec![]), pooled(3, vec![])]);
    assert_eq!(
        result,
        Err(EmbedderError::OutputTransformError(
            "Cannot put rows of width 3 under rows of width 2.".to_owned()
        ))
    );
}

#[test]
fn merge_stops_at_the_first_batch_that_is_wrong() {
    let result = merge_batches(vec![
        pooled(2, vec![vec![1.0, 2.0]]),
        pooled(3, vec![vec![1.0, 2.0, 3.0]]),
        failed("later"),
    ]);
    assert_eq!(
        result,
        Err(EmbedderError::OutputTransformError(
            "Cannot put rows of width 3 under rows of width 2.".to_owned()
        ))
    );
    let result = merge_batches(vec![
        pooled(2, vec![vec![1.0, 2.0]]),
        failed("sooner"),
        pooled(3, vec![vec![1.0, 2.0, 3.0]]),
    ]);
    assert_eq!(result, Err(EmbedderError::FastEmbedError("sooner".to_owned())));
    let result = merge_batches(vec![
        failed("first"),
        failed("second"),
        pooled(3, vec![vec![1.0, 2.0, 3.0]]),
    ]);
    assert_eq!(result, Err(EmbedderError::FastEmbedError("first".to_owned())));
}

#[test]
fn select_output_finds_the_output_by_its_name() {
    let available = vec!["last_hidden_state".to_owned(), "sentence_embedding".to_owned()];
    assert_eq!(select_output(&available, "sentence_embedding"), Ok(1));
    assert_eq!(select_output(&available, "last_hidden_state"), Ok(0));
}

#[test]
fn select_output_takes_the_first_of_a_name() {
    let available = vec!["a".to_owned(), "b".to_owned(), "b".to_owned()];
    assert_eq!(select_output(&available, "b"), Ok(1));
}

#[test]
fn select_output_fails_without_the_output() {
    let available = vec!["last_hidden_state".to_owned(), "token_embeddings".to_owned()];
    assert_eq!(
        select_output(&available, "sentence_embedding"),
        Err(EmbedderError::OutputKeyNotFound("sentence_embedding".to_owned()))
    );
    assert_eq!(
        select_output(&[].to_vec(), "sentence_embedding"),
        Err(EmbedderError::OutputKeyNotFound("sentence_embedding".to_owned()))
    );
}

#[test]
fn select_output_does_not_fall_back_on_a_similar_name() {
    let available = vec!["sentence_embeddings".to_owned(), "Sentence_Embedding".to_owned()];
    assert_eq!(
        select_output(&available, "sentence_embedding"),
        Err(EmbedderError::OutputKeyNotFound("sentence_embedding".to_owned()))
    );
}

fn length(row: &Vec<f32>) -> f32 {
    row.iter().map(|value| value.powi(2)).sum::<f32>().sqrt()
}

fn unit_rows(matrix: Matrix<f32>) -> Matrix<f32> {
    matrix.scale_rows(|row: &Vec<f32>| length(row) + 1e-12, |value: f32, norm: &f32| value / *norm)
}

#[test]
fn scale_rows_divides_each_cell_by_the_norm_of_its_row() {
    let matrix = Matrix::from_rows(2, vec![vec![10i64, 30], vec![4, 4], vec![0, 7]]).unwrap();
    let scaled = matrix.scale_rows(
        |row: &Vec<i64>| row.iter().sum::<i64>(),
        |cell: i64, total: &i64| cell * 100 / *total,
    );
    assert_eq!(scaled.ncols(), 2);
    assert_eq!(scaled.into_rows(), vec![vec![25, 75], vec![50, 50], vec![0, 100]]);
}

#[test]
fn scale_rows_takes_the_norm_once_for_each_row_and_in_order() {
    let matrix = Matrix::from_rows(3, vec![vec![1u8, 2, 3], vec![4, 5, 6]]).unwrap();
    let seen = std::cell::RefCell::new(Vec::new());
    let scaled = matrix.scale_rows(
        |row: &Vec<u8>| {
            seen.borrow_mut().push(row.clone());
            row[0]
        },
        |cell: u8, first: &u8| cell - *first,
    );
    assert_eq!(seen.into_inner(), vec![vec![1u8, 2, 3], vec![4, 5, 6]]);
    assert_eq!(scaled.into_rows(), vec![vec![0u8, 1, 2], vec![0, 1, 2]]);
}

#[test]
fn scale_rows_of_no_rows_keeps_the_width() {
    let matrix: Matrix<f32> = Matrix::new(384);
    let scaled = unit_rows(matrix);
    assert_eq!((scaled.nrows(), scaled.ncols()), (0, 384));
}

#[test]
fn rows_scaled_to_unit_length() {
    let matrix = Matrix::from_rows(
        2,
        vec![vec![3.0f32, 4.0], vec![0.5, 0.0], vec![-6.0, 8.0], vec![1e-3, 1e-3]],
    )
    .unwrap();
    let scaled = unit_rows(matrix);
    assert_eq!(scaled.row(0), &vec![0.6f32, 0.8]);
    assert_eq!(scaled.row(1), &vec![1.0f32, 0.0]);
    assert_eq!(scaled.row(2), &vec![-0.6f32, 0.8]);
    for row in scaled.into_rows().iter() {
        assert!((length(row) - 1.0).abs() <= 1e-6, "the length of {:?} is not one", row);
    }
}

#[test]
fn row_of_zeros_stays_a_row_of_zeros() {
    let matrix = Matrix::from_rows(3, vec![vec![0.0f32, 0.0, 0.0], vec![0.0, 2.0, 0.0]]).unwrap();
    let scaled = unit_rows(matrix);
    assert_eq!(scaled.row(0), &vec![0.0f32, 0.0, 0.0]);
    assert_eq!(scaled.row(1), &vec![0.0f32, 1.0, 0.0]);
    for row in scaled.into_rows().iter() {
        for value in row.iter() {
            assert!(value.is_finite());
        }
    }
}

fn embeddings_of(batches: Vec<Result<Matrix<f32>, EmbedderError>>) -> Result<Matrix<f32>, EmbedderError> {
    output_to_2d_array(
        batches,
        |row: &Vec<f32>| length(row) + 1e-12,
        |value: f32, norm: &f32| value / *norm,
    )
}

#[test]
fn output_to_2d_array_merges_and_normalizes() {
    let embeddings = embeddings_of(vec![
        pooled(2, vec![vec![3.0, 4.0]]),
        pooled(2, vec![vec![0.0, 0.0], vec![0.0, -2.0]]),
    ])
    .unwrap();
    assert_eq!((embeddings.nrows(), embeddings.ncols()), (3, 2));
    assert_eq!(
        embeddings.into_rows(),
        vec![vec![0.6f32, 0.8], vec![0.0, 0.0], vec![0.0, -1.0]]
    );
}

#[test]
fn output_to_2d_array_does_not_depend_on_the_batch_size() {
    let documents: Vec<Vec<f32>> = (0..4).map(|document| row_of(document + 1, 8)).collect();
    let by_two = embeddings_of(vec![
        pooled(8, documents[0..2].to_vec()),
        pooled(8, documents[2..4].to_vec()),
    ])
    .unwrap();
    let by_four = embeddings_of(vec![pooled(8, documents.clone())]).unwrap();
    assert_eq!(by_two, by_four);
    for (document, row) in by_four.into_rows().iter().enumerate() {
        assert!((length(row) - 1.0).abs() <= 1e-6);
        let scale = length(&documents[document]);
        for (cell, unscaled) in row.iter().zip(documents[document].iter()) {
            assert!((cell * scale - unscaled).abs() <= 1e-3 * scale);
        }
    }
}

#[test]
fn output_to_2d_array_fails_as_the_merge_does() {
    assert_eq!(
        embeddings_of(vec![]),
        Err(EmbedderError::FastEmbedError("No output found.".to_owned()))
    );
    assert_eq!(
        embeddings_of(vec![pooled(2, vec![vec![1.0, 0.0]]), failed("Invalid output shape")]),
        Err(EmbedderError::FastEmbedError("Invalid output shape".to_owned()))
    );
    assert_eq!(
        embeddings_of(vec![pooled(2, vec![vec![1.0, 0.0]]), pooled(3, vec![vec![1.0, 0.0, 0.0]])]),
        Err(EmbedderError::OutputTransformError(
            "Cannot put rows of width 3 under rows of width 2.".to_owned()
        ))
    );
}
