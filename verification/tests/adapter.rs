use fastembed_js::model::{dimension, resolve, JSEmbeddingModel};
use fastembed_js::session::{resolve_batch_size, SessionConfig, DEFAULT_MAX_LENGTH};
use fastembed_js::sum;

const ALL_MODELS: [JSEmbeddingModel; 6] = [
    JSEmbeddingModel::AllMiniLML6V2,
    JSEmbeddingModel::BGEBaseENV15,
    JSEmbeddingModel::BGELargeENV15,
    JSEmbeddingModel::BGESmallENV15,
    JSEmbeddingModel::NomicEmbedTextV1,
    JSEmbeddingModel::ParaphraseMLMiniLML12V2,
];

#[test]
fn sum_of_small_integers() {
    assert_eq!(sum(2, 3), 5);
    assert_eq!(sum(-7, 7), 0);
    assert_eq!(sum(i32::MAX, 0), i32::MAX);
    assert_eq!(sum(i32::MIN, i32::MAX), -1);
}

#[test]
fn resolve_gives_each_provider_identifier() {
    assert_eq!(
        resolve(JSEmbeddingModel::AllMiniLML6V2),
        "Qdrant/all-MiniLM-L6-v2-onnx"
    );
    assert_eq!(
        resolve(JSEmbeddingModel::BGEBaseENV15),
        "Xenova/bge-base-en-v1.5"
    );
    assert_eq!(
        resolve(JSEmbeddingModel::BGELargeENV15),
        "Xenova/bge-large-en-v1.5"
    );
    assert_eq!(
        resolve(JSEmbeddingModel::BGESmallENV15),
        "Xenova/bge-small-en-v1.5"
    );
    assert_eq!(
        resolve(JSEmbeddingModel::NomicEmbedTextV1),
        "nomic-ai/nomic-embed-text-v1"
    );
    assert_eq!(
        resolve(JSEmbeddingModel::ParaphraseMLMiniLML12V2),
        "Xenova/paraphrase-multilingual-MiniLM-L12-v2"
    );
}

#[test]
fn resolve_is_injective_over_the_enumeration() {
    for i in 0..ALL_MODELS.len() {
        for j in 0..ALL_MODELS.len() {
            if i != j {
                assert_ne!(resolve(ALL_MODELS[i]), resolve(ALL_MODELS[j]));
            }
        }
    }
}

#[test]
fn resolve_is_stable_across_calls() {
    for m in ALL_MODELS {
        assert_eq!(resolve(m), resolve(m));
    }
}

#[test]
fn dimension_of_each_model() {
    assert_eq!(dimension(JSEmbeddingModel::AllMiniLML6V2), 384);
    assert_eq!(dimension(JSEmbeddingModel::BGEBaseENV15), 768);
    assert_eq!(dimension(JSEmbeddingModel::BGELargeENV15), 1024);
    assert_eq!(dimension(JSEmbeddingModel::BGESmallENV15), 384);
    assert_eq!(dimension(JSEmbeddingModel::NomicEmbedTextV1), 768);
    assert_eq!(dimension(JSEmbeddingModel::ParaphraseMLMiniLML12V2), 384);
}

#[test]
fn config_with_no_arguments_takes_every_default() {
    let c = SessionConfig::new(None, None, None, None);
    assert_eq!(c.model, JSEmbeddingModel::BGESmallENV15);
    assert_eq!(c.cache_dir, ".fastembed_cache");
    assert_eq!(c.max_length, 512);
    assert_eq!(c.max_length, DEFAULT_MAX_LENGTH);
    assert!(c.show_download_progress);
}

#[test]
fn default_model_has_the_small_english_dimensionality() {
    let c = SessionConfig::new(None, None, None, None);
    assert_eq!(dimension(c.model), 384);
}

#[test]
fn config_keeps_every_supplied_option() {
    let c = SessionConfig::new(
        Some(JSEmbeddingModel::NomicEmbedTextV1),
        Some(String::from("/tmp/models")),
        Some(1024),
        Some(false),
    );
    assert_eq!(c.model, JSEmbeddingModel::NomicEmbedTextV1);
    assert_eq!(c.cache_dir, "/tmp/models");
    assert_eq!(c.max_length, 1024);
    assert!(!c.show_download_progress);
}

#[test]
fn config_mixes_supplied_and_defaulted_options() {
    let c = SessionConfig::new(Some(JSEmbeddingModel::BGELargeENV15), None, None, Some(true));
    assert_eq!(c.model, JSEmbeddingModel::BGELargeENV15);
    assert_eq!(c.cache_dir, ".fastembed_cache");
    assert_eq!(c.max_length, 512);
    assert!(c.show_download_progress);
}

#[test]
fn batch_size_hint_passes_through() {
    assert_eq!(resolve_batch_size(None), None);
    assert_eq!(resolve_batch_size(Some(1)), Some(1));
    assert_eq!(resolve_batch_size(Some(256)), Some(256));
    assert_eq!(resolve_batch_size(Some(i32::MAX)), Some(i32::MAX as usize));
}
