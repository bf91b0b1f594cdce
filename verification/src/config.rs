//! The configuration that the process takes from its environment.

use vstd::prelude::*;
use crate::error::{EmbedderError, EmbedderErrorView};

verus! {

/// The variable that names the directory of the models.
pub const MODEL_PATH: &'static str = "MODEL_PATH";

/// The directory of the models where the environment names none.
pub const DEFAULT_MODEL_PATH: &'static str = "./models";

/// What is said of a variable that is set to nothing.
pub const EMPTY_VALUE: &'static str = "Empty value";

/// The value of the variable `key`, from what reading the environment gave:
/// the value, or the reason why there is none.  A variable that is set to
/// the empty text has no value either.
pub fn env_value(key: &str, read: Result<String, String>) -> (result: Result<String, EmbedderError>)
    ensures
        match read {
            Ok(value) => if value@.len() > 0 {
                result == Ok::<String, EmbedderError>(value)
            } else {
                result matches Err(error) && error@ == (
                EmbedderErrorView::EnvVarError { key: key@, error: EMPTY_VALUE@ })
            },
            Err(reason) => result matches Err(error) && error@ == (
            EmbedderErrorView::EnvVarError { key: key@, error: reason@ }),
        },
{
    match read {
        Ok(value) => {
            if value.as_str().is_empty() {
                Err(
                    EmbedderError::EnvVarError {
                        key: String::from_str(key),
                        error: String::from_str(EMPTY_VALUE),
                    },
                )
            } else {
                Ok(value)
            }
        },
        Err(reason) => Err(EmbedderError::EnvVarError { key: String::from_str(key), error: reason }),
    }
}

/// The directory of the models, from what reading the variable
/// [`MODEL_PATH`] gave: its value, or the default where it has none.
pub fn model_path(read: Result<String, String>) -> (path: String)
    ensures
        path@ == match read {
            Ok(value) => if value@.len() > 0 {
                value@
            } else {
                DEFAULT_MODEL_PATH@
            },
            Err(_) => DEFAULT_MODEL_PATH@,
        },
{
    match env_value(MODEL_PATH, read) {
        Ok(value) => value,
        Err(_) => String::from_str(DEFAULT_MODEL_PATH),
    }
}

} // verus!
