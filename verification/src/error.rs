//! Failures of the embedding library itself: assets, inference and
//! post-processing.

use vstd::prelude::*;

verus! {

/// What can go wrong between a request for embeddings and the matrix that
/// answers it.  Failures of the inference runtime and of the file system are
/// kept as the text they were reported with.
#[derive(Debug, PartialEq, Eq)]
pub enum EmbedderError {
    /// An asset file of the model under `path` could not be read.
    ModelPathError { path: String, error: String },
    /// The request holds no document.
    EmptyInputError,
    /// The inference runtime failed.
    FastEmbedError(String),
    /// The assets of the model `name` were read but could not be loaded.
    ModelLoadError { name: &'static str, error: String },
    /// The inference runtime gave no output of the chosen name.
    OutputKeyNotFound(String),
    /// The pooled output could not be brought into one matrix.
    OutputTransformError(String),
    /// The environment variable `key` is missing, empty or unparsable.
    EnvVarError { key: String, error: String },
}

/// An [`EmbedderError`] with its texts as sequences of characters.
pub enum EmbedderErrorView {
    ModelPathError { path: Seq<char>, error: Seq<char> },
    EmptyInputError,
    FastEmbedError(Seq<char>),
    ModelLoadError { name: Seq<char>, error: Seq<char> },
    OutputKeyNotFound(Seq<char>),
    OutputTransformError(Seq<char>),
    EnvVarError { key: Seq<char>, error: Seq<char> },
}

impl EmbedderErrorView {
    /// The text that describes this failure to a reader.
    pub open spec fn message(self) -> Seq<char> {
        match self {
            EmbedderErrorView::ModelPathError { path, error } => {
                "Model could not be loaded from "@ + path + ": "@ + error
            },
            EmbedderErrorView::EmptyInputError => "No input provided."@,
            EmbedderErrorView::FastEmbedError(error) => "Failed to generate embeddings: "@ + error,
            EmbedderErrorView::ModelLoadError { name, error } => {
                "Failed to load '"@ + name + "': "@ + error
            },
            EmbedderErrorView::OutputKeyNotFound(key) => {
                "No output named '"@ + key + "' was found."@
            },
            EmbedderErrorView::OutputTransformError(error) => {
                "Filed to transform the output as desired: "@ + error
            },
            EmbedderErrorView::EnvVarError { key, error } => {
                "Failed to parse environment variable '"@ + key + "': "@ + error
            },
        }
    }
}

impl View for EmbedderError {
    type V = EmbedderErrorView;

    open spec fn view(&self) -> EmbedderErrorView {
        match *self {
            EmbedderError::ModelPathError { path, error } => EmbedderErrorView::ModelPathError {
                path: path@,
                error: error@,
            },
            EmbedderError::EmptyInputError => EmbedderErrorView::EmptyInputError,
            EmbedderError::FastEmbedError(error) => EmbedderErrorView::FastEmbedError(error@),
            EmbedderError::ModelLoadError { name, error } => EmbedderErrorView::ModelLoadError {
                name: name@,
                error: error@,
            },
            EmbedderError::OutputKeyNotFound(key) => EmbedderErrorView::OutputKeyNotFound(key@),
            EmbedderError::OutputTransformError(error) => EmbedderErrorView::OutputTransformError(
                error@,
            ),
            EmbedderError::EnvVarError { key, error } => EmbedderErrorView::EnvVarError {
                key: key@,
                error: error@,
            },
        }
    }
}

impl EmbedderError {
    /// Writes out the description of this failure.
    pub fn message(&self) -> (text: String)
        ensures
            text@ == self@.message(),
    {
        match self {
            EmbedderError::ModelPathError { path, error } => {
                let mut text = String::from_str("Model could not be loaded from ");
                text.append(path.as_str());
                text.append(": ");
                text.append(error.as_str());
                assert(text@ =~= self@.message());
                text
            },
            EmbedderError::EmptyInputError => String::from_str("No input provided."),
            EmbedderError::FastEmbedError(error) => {
                let mut text = String::from_str("Failed to generate embeddings: ");
                text.append(error.as_str());
                text
            },
            EmbedderError::ModelLoadError { name, error } => {
                let mut text = String::from_str("Failed to load '");
                text.append(name);
                text.append("': ");
                text.append(error.as_str());
                assert(text@ =~= self@.message());
                text
            },
            EmbedderError::OutputKeyNotFound(key) => {
                let mut text = String::from_str("No output named '");
                text.append(key.as_str());
                text.append("' was found.");
                assert(text@ =~= self@.message());
                text
            },
            EmbedderError::OutputTransformError(error) => {
                let mut text = String::from_str("Filed to transform the output as desired: ");
                text.append(error.as_str());
                text
            },
            EmbedderError::EnvVarError { key, error } => {
                let mut text = String::from_str("Failed to parse environment variable '");
                text.append(key.as_str());
                text.append("': ");
                text.append(error.as_str());
                assert(text@ =~= self@.message());
                text
            },
        }
    }
}

} // verus!
