use embedder::config::{env_value, model_path, DEFAULT_MODEL_PATH};
use embedder::root::{AUTHORS, DESCRIPTION, NAME, VERSION};
use embedder::{EmbedderError, MemoryUsage, RootResponse};

#[test]
fn root_response_holds_the_metadata_of_the_service() {
    let response = RootResponse::new();
    assert_eq!(response.name(), "embedder");
    assert_eq!(response.version(), "0.1.0");
    assert_eq!(response.name(), NAME);
    assert_eq!(response.authors(), AUTHORS);
    assert_eq!(response.description(), DESCRIPTION);
    assert_eq!(response.version(), VERSION);
}

#[test]
fn root_response_is_the_same_every_time() {
    assert_eq!(RootResponse::new(), RootResponse::new());
}

#[test]
fn memory_usage_from_what_the_system_reports() {
    assert_eq!(
        MemoryUsage::new(Some((4096, 1 << 20))),
        Some(MemoryUsage { physical_used: 4096, virtual_used: 1 << 20 })
    );
    assert_eq!(
        MemoryUsage::new(Some((0, usize::MAX))),
        Some(MemoryUsage { physical_used: 0, virtual_used: usize::MAX })
    );
}

#[test]
fn no_memory_usage_where_the_system_reports_none() {
    assert_eq!(MemoryUsage::new(None), None);
}

#[test]
fn env_value_of_a_variable_that_is_set() {
    assert_eq!(env_value("MODEL_PATH", Ok("/srv/models".to_owned())), Ok("/srv/models".to_owned()));
    assert_eq!(env_value("PORT", Ok(" ".to_owned())), Ok(" ".to_owned()));
}

#[test]
fn env_value_of_a_variable_that_is_missing() {
    assert_eq!(
        env_value("MODEL_PATH", Err("environment variable not found".to_owned())),
        Err(EmbedderError::EnvVarError {
            key: "MODEL_PATH".to_owned(),
            error: "environment variable not found".to_owned(),
        })
    );
}

#[test]
fn env_value_of_a_variable_that_is_empty() {
    let error = env_value("MODEL_PATH", Ok(String::new())).unwrap_err();
    assert_eq!(
        error,
        EmbedderError::EnvVarError { key: "MODEL_PATH".to_owned(), error: "Empty value".to_owned() }
    );
    assert_eq!(
        error.message(),
        "Failed to parse environment variable 'MODEL_PATH': Empty value"
    );
}

#[test]
fn model_path_falls_back_on_the_default() {
    assert_eq!(DEFAULT_MODEL_PATH, "./models");
    assert_eq!(model_path(Ok("/srv/models".to_owned())), "/srv/models");
    assert_eq!(model_path(Ok(String::new())), "./models");
    assert_eq!(model_path(Err("environment variable not found".to_owned())), "./models");
}
