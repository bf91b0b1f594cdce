use embedder::registry::Acquired;
use embedder::{EmbedderError, EmbeddingModel, Registry};
use std::sync::Arc;

const MINI: EmbeddingModel = EmbeddingModel::SentenceTransformersAllMiniLML6V2;
const MPNET: EmbeddingModel = EmbeddingModel::SentenceTransformerAllMpnetBaseV2;

/// Stands for a loaded model; `loads` counts how often one was made.
#[derive(Debug)]
struct Loaded {
    serial: usize,
}

fn load(loads: &mut usize) -> Result<Loaded, EmbedderError> {
    *loads += 1;
    Ok(Loaded { serial: *loads })
}

/// Asks as a caller does: loads when told to, and reports.
fn obtain(
    registry: &mut Registry<Loaded>,
    model: EmbeddingModel,
    loads: &mut usize,
) -> Option<Result<Arc<Loaded>, EmbedderError>> {
    match registry.acquire(model) {
        Acquired::Load => {
            let loaded = load(loads);
            Some(registry.complete(model, loaded))
        }
        Acquired::Wait => None,
        Acquired::Ready(outcome) => Some(outcome),
    }
}

#[test]
fn first_to_ask_is_told_to_load() {
    let mut registry: Registry<Loaded> = Registry::new();
    assert!(matches!(registry.acquire(MINI), Acquired::Load));
}

#[test]
fn whoever_asks_while_the_model_loads_is_told_to_wait() {
    let mut registry: Registry<Loaded> = Registry::new();
    assert!(matches!(registry.acquire(MINI), Acquired::Load));
    assert!(matches!(registry.acquire(MINI), Acquired::Wait));
    assert!(matches!(registry.acquire(MINI), Acquired::Wait));
}

#[test]
fn many_callers_cause_one_load_and_share_one_model() {
    let mut registry: Registry<Loaded> = Registry::new();
    let mut loads = 0;
    let mut handles = Vec::new();
    for _ in 0..50 {
        handles.push(obtain(&mut registry, MINI, &mut loads).unwrap().unwrap());
    }
    assert_eq!(loads, 1);
    for handle in handles.iter() {
        assert!(Arc::ptr_eq(handle, &handles[0]));
        assert_eq!(handle.serial, 1);
    }
}

#[test]
fn callers_that_race_the_load_get_the_model_once_it_is_there() {
    let mut registry: Registry<Loaded> = Registry::new();
    assert!(matches!(registry.acquire(MINI), Acquired::Load));
    assert!(matches!(registry.acquire(MINI), Acquired::Wait));
    assert!(matches!(registry.acquire(MINI), Acquired::Wait));
    let loader = registry.complete(MINI, Ok(Loaded { serial: 7 })).unwrap();
    let first = match registry.acquire(MINI) {
        Acquired::Ready(Ok(handle)) => handle,
        other => panic!("expected the model, found {:?}", other),
    };
    let second = match registry.acquire(MINI) {
        Acquired::Ready(Ok(handle)) => handle,
        other => panic!("expected the model, found {:?}", other),
    };
    assert!(Arc::ptr_eq(&loader, &first));
    assert!(Arc::ptr_eq(&first, &second));
    assert_eq!(first.serial, 7);
}

#[test]
fn a_handle_is_shared_and_not_copied() {
    let mut registry: Registry<Loaded> = Registry::new();
    let loader = registry.complete(MINI, Ok(Loaded { serial: 1 })).unwrap();
    assert_eq!(Arc::strong_count(&loader), 2);
    let caller = match registry.acquire(MINI) {
        Acquired::Ready(Ok(handle)) => handle,
        other => panic!("expected the model, found {:?}", other),
    };
    assert_eq!(Arc::strong_count(&loader), 3);
    drop(caller);
    assert_eq!(Arc::strong_count(&loader), 2);
}

#[test]
fn models_are_loaded_apart() {
    let mut registry: Registry<Loaded> = Registry::new();
    let mut loads = 0;
    let mini = obtain(&mut registry, MINI, &mut loads).unwrap().unwrap();
    let mpnet = obtain(&mut registry, MPNET, &mut loads).unwrap().unwrap();
    assert_eq!(loads, 2);
    assert!(!Arc::ptr_eq(&mini, &mpnet));
    assert_eq!(mini.serial, 1);
    assert_eq!(mpnet.serial, 2);
    let again = obtain(&mut registry, MINI, &mut loads).unwrap().unwrap();
    assert!(Arc::ptr_eq(&mini, &again));
    assert_eq!(loads, 2);
}

#[test]
fn loading_one_model_does_not_make_the_other_wait() {
    let mut registry: Registry<Loaded> = Registry::new();
    assert!(matches!(registry.acquire(MINI), Acquired::Load));
    assert!(matches!(registry.acquire(MPNET), Acquired::Load));
    assert!(matches!(registry.acquire(MINI), Acquired::Wait));
    assert!(matches!(registry.acquire(MPNET), Acquired::Wait));
}

#[test]
fn a_failure_is_replayed_and_the_load_not_tried_again() {
    let mut registry: Registry<Loaded> = Registry::new();
    assert!(matches!(registry.acquire(MINI), Acquired::Load));
    let failure = EmbedderError::FastEmbedError("corrupt graph".to_owned());
    let expected = EmbedderError::ModelLoadError {
        name: "sentence-transformers/all-MiniLM-L6-v2",
        error: "Failed to generate embeddings: corrupt graph".to_owned(),
    };
    assert_eq!(registry.complete(MINI, Err(failure)).unwrap_err(), expected);
    for _ in 0..10 {
        match registry.acquire(MINI) {
            Acquired::Ready(Err(error)) => assert_eq!(error, expected),
            other => panic!("expected the failure, found {:?}", other),
        }
    }
    assert_eq!(
        expected.message(),
        "Failed to load 'sentence-transformers/all-MiniLM-L6-v2': Failed to generate embeddings: corrupt graph"
    );
}

#[test]
fn a_failure_of_one_model_leaves_the_other_alone() {
    let mut registry: Registry<Loaded> = Registry::new();
    let failure = EmbedderError::ModelPathError {
        path: "./models/mpnet".to_owned(),
        error: "not found".to_owned(),
    };
    let replayed = registry.complete(MPNET, Err(failure)).unwrap_err();
    assert_eq!(
        replayed,
        EmbedderError::ModelLoadError {
            name: "sentence-transformers/all-mpnet-base-v2",
            error: "Model could not be loaded from ./models/mpnet: not found".to_owned(),
        }
    );
    assert!(matches!(registry.acquire(MINI), Acquired::Load));
    assert!(matches!(registry.acquire(MPNET), Acquired::Ready(Err(_))));
}

#[test]
fn the_first_outcome_stays() {
    let mut registry: Registry<Loaded> = Registry::new();
    let first = registry.complete(MINI, Ok(Loaded { serial: 1 })).unwrap();
    let second = registry.complete(MINI, Ok(Loaded { serial: 2 })).unwrap();
    assert!(Arc::ptr_eq(&first, &second));
    assert_eq!(second.serial, 1);
    let third = registry
        .complete(MINI, Err(EmbedderError::FastEmbedError("late".to_owned())))
        .unwrap();
    assert!(Arc::ptr_eq(&first, &third));
}

#[test]
fn a_success_does_not_replace_a_failure() {
    let mut registry: Registry<Loaded> = Registry::new();
    let failure = EmbedderError::FastEmbedError("corrupt".to_owned());
    let first = registry.complete(MINI, Err(failure)).unwrap_err();
    let second = registry.complete(MINI, Ok(Loaded { serial: 2 })).unwrap_err();
    assert_eq!(first, second);
    assert!(matches!(registry.acquire(MINI), Acquired::Ready(Err(_))));
}
