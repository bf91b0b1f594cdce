//! Sentence embeddings as a service: the model registry, the post-processing
//! of pooled model output, the decisions of the embedding endpoint and the
//! error model that clients see.

pub mod api;
pub mod config;
pub mod embed;
pub mod error;
pub mod matrix;
pub mod model;
pub mod pipeline;
pub mod registry;
pub mod root;
pub mod status;
pub mod text;

pub use api::{EmbedderAPIError, ErrorItem, ErrorModel, ErrorValue};
pub use embed::{
    calculate_default_batch_size, EmbedQuery, EmbedRequest, EmbedResponse, OutputType,
};
pub use error::EmbedderError;
pub use matrix::Matrix;
pub use model::{CanTransform, EmbeddingModel, Model};
pub use registry::Registry;
pub use root::RootResponse;
pub use status::MemoryUsage;
