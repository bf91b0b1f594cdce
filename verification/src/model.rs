//! Which models there are, and what describes one: its name, the output of
//! the inference runtime that holds its embeddings, and how that output is
//! pooled.

use vstd::prelude::*;
use std::sync::Arc;
use crate::error::{EmbedderError, EmbedderErrorView};

verus! {

/// How the vectors of the tokens of a document become one vector.
#[derive(Clone, Copy, Debug, PartialEq, Eq, Structural)]
pub enum Pooling {
    /// The vector of the first token.
    Cls,
    /// The mean of the vectors of all tokens that are not padding.
    Mean,
}

/// How the weights of a model were quantized.
#[derive(Clone, Copy, Debug, PartialEq, Eq, Structural)]
pub enum QuantizationMode {
    /// The weights are as they were trained.
    Unquantized,
    Static,
    Dynamic,
}

/// One way to pick a tensor among the named outputs of an inference call.
#[derive(Clone, Copy, Debug, PartialEq, Eq)]
pub enum OutputKey {
    /// The first output there is.
    OnlyOne,
    /// The output at this position.
    ByOrder(usize),
    /// The output of this name.
    ByName(&'static str),
}

/// What identifies a model and fixes how its output is read.  A model of no
/// pooling hands out vectors that are pooled already.
#[derive(Clone, Copy, Debug, PartialEq, Eq)]
pub struct ModelDescriptor {
    pub name: &'static str,
    pub output_key: &'static str,
    pub pooling: Option<Pooling>,
    pub quantization: QuantizationMode,
}

/// The file that holds the weights of a model that is built in.
pub const MODEL_FILE: &'static str = "model.onnx";

/// The file that holds the tokenizer of a model.
pub const TOKENIZER_FILE: &'static str = "tokenizer.json";

/// The file that holds the configuration of a model.
pub const CONFIG_FILE: &'static str = "config.json";

/// The file that maps the special tokens of a model.
pub const SPECIAL_TOKENS_MAP_FILE: &'static str = "special_tokens_map.json";

/// The file that holds the configuration of the tokenizer of a model.
pub const TOKENIZER_CONFIG_FILE: &'static str = "tokenizer_config.json";

/// The bytes of the five files that make up a model.
#[derive(Debug, PartialEq, Eq)]
pub struct ModelFiles {
    pub onnx_file: Vec<u8>,
    pub tokenizer_file: Vec<u8>,
    pub config_file: Vec<u8>,
    pub special_tokens_map_file: Vec<u8>,
    pub tokenizer_config_file: Vec<u8>,
}

/// Whether `error` says that a file under `path` could not be read, for the
/// reason `reason`.
pub open spec fn is_path_error(error: EmbedderError, path: Seq<char>, reason: String) -> bool {
    error@ == (EmbedderErrorView::ModelPathError { path, error: reason@ })
}

impl ModelFiles {
    /// The files of the model under `path`, from what reading each of them
    /// gave.  The first that could not be read, in the order of the
    /// parameters, decides the failure.
    pub fn from_reads(
        path: &str,
        onnx_file: Result<Vec<u8>, String>,
        tokenizer_file: Result<Vec<u8>, String>,
        config_file: Result<Vec<u8>, String>,
        special_tokens_map_file: Result<Vec<u8>, String>,
        tokenizer_config_file: Result<Vec<u8>, String>,
    ) -> (result: Result<ModelFiles, EmbedderError>)
        ensures
            match (
                onnx_file,
                tokenizer_file,
                config_file,
                special_tokens_map_file,
                tokenizer_config_file,
            ) {
                (Ok(onnx), Ok(tokenizer), Ok(config), Ok(special_tokens_map), Ok(tokenizer_config)) => {
                    result == Ok::<ModelFiles, EmbedderError>(
                        ModelFiles {
                            onnx_file: onnx,
                            tokenizer_file: tokenizer,
                            config_file: config,
                            special_tokens_map_file: special_tokens_map,
                            tokenizer_config_file: tokenizer_config,
                        },
                    )
                },
                (Err(reason), _, _, _, _)
                | (Ok(_), Err(reason), _, _, _)
                | (Ok(_), Ok(_), Err(reason), _, _)
                | (Ok(_), Ok(_), Ok(_), Err(reason), _)
                | (Ok(_), Ok(_), Ok(_), Ok(_), Err(reason)) => {
                    result matches Err(error) && is_path_error(error, path@, reason)
                },
            },
    {
        let onnx_file = match onnx_file {
            Ok(bytes) => bytes,
            Err(reason) => { return Err(path_error(path, reason)); },
        };
        let tokenizer_file = match tokenizer_file {
            Ok(bytes) => bytes,
            Err(reason) => { return Err(path_error(path, reason)); },
        };
        let config_file = match config_file {
            Ok(bytes) => bytes,
            Err(reason) => { return Err(path_error(path, reason)); },
        };
        let special_tokens_map_file = match special_tokens_map_file {
            Ok(bytes) => bytes,
            Err(reason) => { return Err(path_error(path, reason)); },
        };
        let tokenizer_config_file = match tokenizer_config_file {
            Ok(bytes) => bytes,
            Err(reason) => { return Err(path_error(path, reason)); },
        };
        Ok(
            ModelFiles {
                onnx_file,
                tokenizer_file,
                config_file,
                special_tokens_map_file,
                tokenizer_config_file,
            },
        )
    }
}

fn path_error(path: &str, reason: String) -> (error: EmbedderError)
    ensures
        is_path_error(error, path@, reason),
{
    EmbedderError::ModelPathError { path: String::from_str(path), error: reason }
}

/// The capability that every embedding model has, as far as it can be told
/// without running the model: who it is, which output holds its embeddings
/// and how that output is pooled.
pub trait CanTransform {
    /// The name of the model.
    spec fn name_spec(&self) -> Seq<char>;

    /// The name of the output that holds the embeddings.
    spec fn output_key_spec(&self) -> Seq<char>;

    /// How the output is pooled, if it is not pooled already.
    spec fn pooling_spec(&self) -> Option<Pooling>;

    /// The name of the model.
    fn name(&self) -> (name: &str)
        ensures
            name@ == self.name_spec(),
    ;

    /// The chosen key for the output embeddings.
    fn output_key(&self) -> (key: &'static str)
        ensures
            key@ == self.output_key_spec(),
    ;

    /// The pooling method to use.
    fn pooling(&self) -> (pooling: Option<Pooling>)
        ensures
            pooling == self.pooling_spec(),
    ;

    /// The keys to look for in the output, in the order in which they are
    /// tried.  There is exactly one, the chosen key by its name: where it is
    /// missing the embedding fails, and no other output is taken for it.
    fn output_precedence(&self) -> (keys: [OutputKey; 1])
        ensures
            keys[0] matches OutputKey::ByName(key) && key@ == self.output_key_spec(),
    {
        [OutputKey::ByName(self.output_key())]
    }
}

/// A model that was loaded: what describes it, and the handle of the
/// inference runtime that holds its weights and its tokenizer.
#[derive(Debug)]
pub struct Model<B> {
    name: &'static str,
    output_key: &'static str,
    model: B,
    pooling: Option<Pooling>,
}

impl<B> Model<B> {
    /// The handle of the inference runtime.
    pub closed spec fn backend_spec(&self) -> B {
        self.model
    }

    /// The model of the given description, from what loading its files into
    /// the inference runtime gave: the model around the handle, or the
    /// failure to load it, under the model's name.
    pub fn new(
        name: &'static str,
        output_key: &'static str,
        pooling: Option<Pooling>,
        loaded: Result<B, String>,
    ) -> (result: Result<Arc<Self>, EmbedderError>)
        ensures
            match loaded {
                Ok(backend) => result matches Ok(model) && model.backend_spec() == backend
                    && model.name_spec() == name@ && model.output_key_spec() == output_key@
                    && model.pooling_spec() == pooling,
                Err(reason) => result matches Err(error) && error@ == (
                EmbedderErrorView::ModelLoadError { name: name@, error: reason@ }),
            },
    {
        match loaded {
            Ok(backend) => Ok(Arc::new(Model { name, output_key, model: backend, pooling })),
            Err(reason) => Err(EmbedderError::ModelLoadError { name, error: reason }),
        }
    }

    /// The handle of the inference runtime.
    pub fn backend(&self) -> (backend: &B)
        ensures
            *backend == self.backend_spec(),
    {
        &self.model
    }
}

impl<B> CanTransform for Model<B> {
    closed spec fn name_spec(&self) -> Seq<char> {
        self.name@
    }

    closed spec fn output_key_spec(&self) -> Seq<char> {
        self.output_key@
    }

    closed spec fn pooling_spec(&self) -> Option<Pooling> {
        self.pooling
    }

    fn name(&self) -> (name: &str) {
        self.name
    }

    fn output_key(&self) -> (key: &'static str) {
        self.output_key
    }

    fn pooling(&self) -> (pooling: Option<Pooling>) {
        self.pooling
    }
}

/// The name of [`EmbeddingModel::SentenceTransformersAllMiniLML6V2`].
pub const ALL_MINILM_L6_V2: &'static str = "sentence-transformers/all-MiniLM-L6-v2";

/// The name of [`EmbeddingModel::SentenceTransformerAllMpnetBaseV2`].
pub const ALL_MPNET_BASE_V2: &'static str = "sentence-transformers/all-mpnet-base-v2";

/// The output that holds the embeddings of the models that are built in.
pub const SENTENCE_EMBEDDING: &'static str = "sentence_embedding";

/// How many models are built in.
pub const MODEL_COUNT: usize = 2;

/// The models that are built in.  A request selects one by its name.
#[derive(Clone, Copy, Debug, PartialEq, Eq, Structural)]
pub enum EmbeddingModel {
    SentenceTransformersAllMiniLML6V2,
    SentenceTransformerAllMpnetBaseV2,
}

impl EmbeddingModel {
    /// The position of this model among those that are built in.
    pub open spec fn index_spec(self) -> int {
        match self {
            EmbeddingModel::SentenceTransformersAllMiniLML6V2 => 0,
            EmbeddingModel::SentenceTransformerAllMpnetBaseV2 => 1,
        }
    }

    /// The model that the name selects.
    pub open spec fn from_name_spec(name: Seq<char>) -> Option<EmbeddingModel> {
        if name == ALL_MINILM_L6_V2@ {
            Some(EmbeddingModel::SentenceTransformersAllMiniLML6V2)
        } else if name == ALL_MPNET_BASE_V2@ {
            Some(EmbeddingModel::SentenceTransformerAllMpnetBaseV2)
        } else {
            None
        }
    }

    /// What describes this model.
    pub open spec fn descriptor_spec(self) -> ModelDescriptor {
        ModelDescriptor {
            name: match self {
                EmbeddingModel::SentenceTransformersAllMiniLML6V2 => ALL_MINILM_L6_V2,
                EmbeddingModel::SentenceTransformerAllMpnetBaseV2 => ALL_MPNET_BASE_V2,
            },
            output_key: SENTENCE_EMBEDDING,
            pooling: Some(Pooling::Mean),
            quantization: QuantizationMode::Unquantized,
        }
    }

    /// The position of this model among those that are built in.
    pub fn index(&self) -> (index: usize)
        ensures
            index == self.index_spec(),
            index < MODEL_COUNT,
    {
        match self {
            EmbeddingModel::SentenceTransformersAllMiniLML6V2 => 0,
            EmbeddingModel::SentenceTransformerAllMpnetBaseV2 => 1,
        }
    }

    /// The model that the name selects, if there is one of that name.
    pub fn from_name(name: &str) -> (model: Option<EmbeddingModel>)
        ensures
            model == Self::from_name_spec(name@),
    {
        let name = String::from_str(name);
        if name == String::from_str(ALL_MINILM_L6_V2) {
            Some(EmbeddingModel::SentenceTransformersAllMiniLML6V2)
        } else if name == String::from_str(ALL_MPNET_BASE_V2) {
            Some(EmbeddingModel::SentenceTransformerAllMpnetBaseV2)
        } else {
            None
        }
    }

    /// What describes this model.
    pub fn descriptor(&self) -> (descriptor: ModelDescriptor)
        ensures
            descriptor == self.descriptor_spec(),
    {
        ModelDescriptor {
            name: match self {
                EmbeddingModel::SentenceTransformersAllMiniLML6V2 => ALL_MINILM_L6_V2,
                EmbeddingModel::SentenceTransformerAllMpnetBaseV2 => ALL_MPNET_BASE_V2,
            },
            output_key: SENTENCE_EMBEDDING,
            pooling: Some(Pooling::Mean),
            quantization: QuantizationMode::Unquantized,
        }
    }

    /// A name selects the model that bears it: the two names differ.
    pub proof fn lemma_name_selects(model: EmbeddingModel)
        ensures
            Self::from_name_spec(model.name_spec()) == Some(model),
    {
        reveal_strlit("sentence-transformers/all-MiniLM-L6-v2");
        reveal_strlit("sentence-transformers/all-mpnet-base-v2");
        assert(ALL_MINILM_L6_V2@[26] == 'M');
        assert(ALL_MPNET_BASE_V2@[26] == 'm');
    }
}

impl CanTransform for EmbeddingModel {
    open spec fn name_spec(&self) -> Seq<char> {
        self.descriptor_spec().name@
    }

    open spec fn output_key_spec(&self) -> Seq<char> {
        SENTENCE_EMBEDDING@
    }

    open spec fn pooling_spec(&self) -> Option<Pooling> {
        Some(Pooling::Mean)
    }

    fn name(&self) -> (name: &str) {
        self.descriptor().name
    }

    fn output_key(&self) -> (key: &'static str) {
        SENTENCE_EMBEDDING
    }

    fn pooling(&self) -> (pooling: Option<Pooling>) {
        Some(Pooling::Mean)
    }
}

} // verus!
