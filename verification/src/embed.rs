//! The decisions of the `embed` endpoint: what a request asks for, whether
//! it can be served, and what the answer holds.  Running the model is not
//! decided here; it is what happens between [`plan`] and [`conclude`].

use vstd::prelude::*;
use crate::api::{EmbedderAPIError, EmbedderAPIErrorView};
use crate::error::{EmbedderError, EmbedderErrorView};
use crate::matrix::{rows_view, Matrix};
use crate::model::EmbeddingModel;

verus! {

/// The number of documents handed to the model at once where the request
/// does not say.
pub const DEFAULT_BATCH_SIZE: usize = 16;

/// The name of the output format that is not there yet.
pub const PICKLE_OUTPUT: &'static str = "Pickle output";

/// The number of documents to hand to the model at once, for a request of
/// `_count` documents that names none: the same for every request.
pub fn calculate_default_batch_size(_count: usize) -> (size: usize)
    ensures
        size == DEFAULT_BATCH_SIZE,
{
    DEFAULT_BATCH_SIZE
}

/// The form in which a client wants the embeddings.
#[derive(Clone, Copy, Debug, PartialEq, Eq, Structural)]
pub enum OutputType {
    /// A list of vectors, one for each document.
    Json,
    /// One matrix with a row for each document.
    Array,
    /// A pickled matrix.
    Pickle,
}

impl Default for OutputType {
    fn default() -> (output: Self)
        ensures
            output == OutputType::Json,
    {
        OutputType::Json
    }
}

impl OutputType {
    /// The form that `name` stands for in a query.
    pub open spec fn from_name_spec(name: Seq<char>) -> Option<OutputType> {
        if name == "json"@ {
            Some(OutputType::Json)
        } else if name == "array"@ {
            Some(OutputType::Array)
        } else if name == "pickle"@ {
            Some(OutputType::Pickle)
        } else {
            None
        }
    }

    /// The form that `name` stands for in a query, if it stands for one.
    pub fn from_name(name: &str) -> (output: Option<OutputType>)
        ensures
            output == Self::from_name_spec(name@),
    {
        let name = String::from_str(name);
        if name == String::from_str("json") {
            Some(OutputType::Json)
        } else if name == String::from_str("array") {
            Some(OutputType::Array)
        } else if name == String::from_str("pickle") {
            Some(OutputType::Pickle)
        } else {
            None
        }
    }
}

/// The query of a request for embeddings.
#[derive(Debug)]
pub struct EmbedQuery {
    pub output: OutputType,
}

/// The body of a request for embeddings.
#[derive(Debug)]
pub struct EmbedRequest {
    pub model: EmbeddingModel,
    pub batch_size: Option<usize>,
    pub documents: Vec<String>,
}

/// What is to be done for a request that can be served.
#[derive(Debug)]
pub struct EmbedJob {
    pub model: EmbeddingModel,
    pub output: OutputType,
    pub batch_size: usize,
    pub documents: Vec<String>,
}

/// The embeddings of the documents of a request, in the order of the
/// documents.
#[derive(Debug, PartialEq, Eq)]
pub enum Embeddings<T> {
    /// One vector for each document.
    Vectors(Vec<Vec<T>>),
    /// One matrix with a row for each document.
    Array(Matrix<T>),
}

impl<T> View for Embeddings<T> {
    type V = Seq<Seq<T>>;

    /// The vectors of the documents, whatever form they are in.
    open spec fn view(&self) -> Seq<Seq<T>> {
        match *self {
            Embeddings::Vectors(rows) => rows_view(rows@),
            Embeddings::Array(matrix) => matrix@,
        }
    }
}

/// The answer to a request for embeddings.
#[derive(Debug)]
pub struct EmbedResponse<E> {
    /// The model that was asked for.
    pub model: EmbeddingModel,
    /// How long the transform took, in nanoseconds.
    pub duration_nanos: u128,
    pub embeddings: E,
}

/// The batch size that serves a request that names `batch_size`: the one it
/// names, or the default.
pub open spec fn batch_size_spec(batch_size: Option<usize>) -> usize {
    match batch_size {
        Some(size) => size,
        None => DEFAULT_BATCH_SIZE,
    }
}

/// Decides whether a request can be served, and with what.  A request for
/// pickled output fails, whatever else it holds, since that format is not
/// implemented; a request without documents fails for want of input.  Every
/// other request is served as it stands, in batches of the size it names or
/// of the default size.
pub fn plan(query: EmbedQuery, request: EmbedRequest) -> (result: Result<
    EmbedJob,
    EmbedderAPIError,
>)
    ensures
        query.output is Pickle ==> (result matches Err(error) && error@
            == EmbedderAPIErrorView::NotImplemented(PICKLE_OUTPUT@)),
        !(query.output is Pickle) && request.documents@.len() == 0 ==> (result matches Err(error)
            && error@ == EmbedderAPIErrorView::EmbedderError(EmbedderErrorView::EmptyInputError)),
        !(query.output is Pickle) && request.documents@.len() > 0 ==> result == Ok::<
            EmbedJob,
            EmbedderAPIError,
        >(
            EmbedJob {
                model: request.model,
                output: query.output,
                batch_size: batch_size_spec(request.batch_size),
                documents: request.documents,
            },
        ),
{
    if let OutputType::Pickle = query.output {
        return Err(EmbedderAPIError::NotImplemented(String::from_str(PICKLE_OUTPUT)));
    }
    if request.documents.len() == 0 {
        return Err(EmbedderAPIError::EmbedderError(EmbedderError::EmptyInputError));
    }
    let batch_size = match request.batch_size {
        Some(size) => size,
        None => calculate_default_batch_size(request.documents.len()),
    };
    Ok(
        EmbedJob {
            model: request.model,
            output: query.output,
            batch_size,
            documents: request.documents,
        },
    )
}

/// Brings the matrix of embeddings into the form that the client asked for:
/// the same vectors in the same order, as a list or as a matrix.  There is
/// no pickled form.
pub fn export<T>(output: OutputType, matrix: Matrix<T>) -> (result: Result<
    Embeddings<T>,
    EmbedderAPIError,
>)
    ensures
        match output {
            OutputType::Json => result matches Ok(embeddings) && embeddings is Vectors
                && embeddings@ == matrix@,
            OutputType::Array => result == Ok::<Embeddings<T>, EmbedderAPIError>(
                Embeddings::Array(matrix),
            ),
            OutputType::Pickle => result matches Err(error) && error@
                == EmbedderAPIErrorView::NotImplemented(PICKLE_OUTPUT@),
        },
{
    match output {
        OutputType::Json => Ok(Embeddings::Vectors(matrix.into_rows())),
        OutputType::Array => Ok(Embeddings::Array(matrix)),
        OutputType::Pickle => Err(
            EmbedderAPIError::NotImplemented(String::from_str(PICKLE_OUTPUT)),
        ),
    }
}

/// The answer to a request, from what became of the worker that ran the
/// transform for it: `Err` with the reason if the worker did not finish,
/// else what the transform gave.  A worker that did not finish is a failure
/// of its own kind, not a failure of the embedding.
pub fn conclude<E>(
    model: EmbeddingModel,
    duration_nanos: u128,
    outcome: Result<Result<E, EmbedderAPIError>, String>,
) -> (result: Result<EmbedResponse<E>, EmbedderAPIError>)
    ensures
        match outcome {
            Ok(Ok(embeddings)) => result == Ok::<EmbedResponse<E>, EmbedderAPIError>(
                EmbedResponse { model, duration_nanos, embeddings },
            ),
            Ok(Err(error)) => result == Err::<EmbedResponse<E>, EmbedderAPIError>(error),
            Err(reason) => result == Err::<EmbedResponse<E>, EmbedderAPIError>(
                EmbedderAPIError::ConcurrencyError(reason),
            ),
        },
{
    match outcome {
        Ok(Ok(embeddings)) => Ok(EmbedResponse { model, duration_nanos, embeddings }),
        Ok(Err(error)) => Err(error),
        Err(reason) => Err(EmbedderAPIError::ConcurrencyError(reason)),
    }
}

} // verus!
