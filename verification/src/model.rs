//! The closed enumeration of supported embedding models and its mapping to
//! the provider's identifiers.

use vstd::prelude::*;

verus! {

/// A supported embedding model, named as the session's callers see it.
#[derive(Clone, Copy, Debug, PartialEq, Eq, Structural)]
pub enum JSEmbeddingModel {
    /// Sentence Transformer model, MiniLM-L6-v2
    AllMiniLML6V2,
    /// v1.5 release of the base English model
    BGEBaseENV15,
    /// v1.5 release of the large English model
    BGELargeENV15,
    /// Fast and default English model
    BGESmallENV15,
    /// 8192 context length English model
    NomicEmbedTextV1,
    /// Multilingual model
    ParaphraseMLMiniLML12V2,
}

/// The provider-side identifier of each supported model: the repository code
/// under which the provider stores and fetches the model's weights.
pub open spec fn provider_code(m: JSEmbeddingModel) -> Seq<char> {
    match m {
        JSEmbeddingModel::AllMiniLML6V2 => "Qdrant/all-MiniLM-L6-v2-onnx"@,
        JSEmbeddingModel::BGEBaseENV15 => "Xenova/bge-base-en-v1.5"@,
        JSEmbeddingModel::BGELargeENV15 => "Xenova/bge-large-en-v1.5"@,
        JSEmbeddingModel::BGESmallENV15 => "Xenova/bge-small-en-v1.5"@,
        JSEmbeddingModel::NomicEmbedTextV1 => "nomic-ai/nomic-embed-text-v1"@,
        JSEmbeddingModel::ParaphraseMLMiniLML12V2 => "Xenova/paraphrase-multilingual-MiniLM-L12-v2"@,
    }
}

/// Maps a model selector to the provider's identifier for it. Total: every
/// selector has exactly one provider identifier, and the mapping never fails.
pub fn resolve(m: JSEmbeddingModel) -> (r: String)
    ensures
        r@ == provider_code(m),
{
    match m {
        JSEmbeddingModel::AllMiniLML6V2 => String::from_str("Qdrant/all-MiniLM-L6-v2-onnx"),
        JSEmbeddingModel::BGEBaseENV15 => String::from_str("Xenova/bge-base-en-v1.5"),
        JSEmbeddingModel::BGELargeENV15 => String::from_str("Xenova/bge-large-en-v1.5"),
        JSEmbeddingModel::BGESmallENV15 => String::from_str("Xenova/bge-small-en-v1.5"),
        JSEmbeddingModel::NomicEmbedTextV1 => String::from_str("nomic-ai/nomic-embed-text-v1"),
        JSEmbeddingModel::ParaphraseMLMiniLML12V2 => String::from_str(
            "Xenova/paraphrase-multilingual-MiniLM-L12-v2",
        ),
    }
}

/// The fixed length of every vector the provider returns for a model.
pub open spec fn provider_dim(m: JSEmbeddingModel) -> nat {
    match m {
        JSEmbeddingModel::AllMiniLML6V2 => 384,
        JSEmbeddingModel::BGEBaseENV15 => 768,
        JSEmbeddingModel::BGELargeENV15 => 1024,
        JSEmbeddingModel::BGESmallENV15 => 384,
        JSEmbeddingModel::NomicEmbedTextV1 => 768,
        JSEmbeddingModel::ParaphraseMLMiniLML12V2 => 384,
    }
}

/// The output dimensionality of a model: the length every embedding vector of
/// one of its sessions has.
pub fn dimension(m: JSEmbeddingModel) -> (r: usize)
    ensures
        r == provider_dim(m),
{
    match m {
        JSEmbeddingModel::AllMiniLML6V2 => 384,
        JSEmbeddingModel::BGEBaseENV15 => 768,
        JSEmbeddingModel::BGELargeENV15 => 1024,
        JSEmbeddingModel::BGESmallENV15 => 384,
        JSEmbeddingModel::NomicEmbedTextV1 => 768,
        JSEmbeddingModel::ParaphraseMLMiniLML12V2 => 384,
    }
}

/// Law: the selector-to-identifier mapping is injective. Together with its
/// totality (`resolve` is a plain match with one arm per selector) this makes
/// it a bijection between the closed enumeration and its set of provider
/// identifiers: each selector has a unique, stable provider identifier.
pub proof fn lemma_provider_code_injective(a: JSEmbeddingModel, b: JSEmbeddingModel)
    ensures
        provider_code(a) == provider_code(b) ==> a == b,
{
    reveal_strlit("Qdrant/all-MiniLM-L6-v2-onnx");
    reveal_strlit("Xenova/bge-base-en-v1.5");
    reveal_strlit("Xenova/bge-large-en-v1.5");
    reveal_strlit("Xenova/bge-small-en-v1.5");
    reveal_strlit("nomic-ai/nomic-embed-text-v1");
    reveal_strlit("Xenova/paraphrase-multilingual-MiniLM-L12-v2");
    assert("Qdrant/all-MiniLM-L6-v2-onnx"@.len() == 28);
    assert("Xenova/bge-base-en-v1.5"@.len() == 23);
    assert("Xenova/bge-large-en-v1.5"@.len() == 24);
    assert("Xenova/bge-small-en-v1.5"@.len() == 24);
    assert("nomic-ai/nomic-embed-text-v1"@.len() == 28);
    assert("Xenova/paraphrase-multilingual-MiniLM-L12-v2"@.len() == 44);
    assert("Qdrant/all-MiniLM-L6-v2-onnx"@[0] != "nomic-ai/nomic-embed-text-v1"@[0]);
    assert("Xenova/bge-large-en-v1.5"@[11] != "Xenova/bge-small-en-v1.5"@[11]);
    assert("Qdrant/all-MiniLM-L6-v2-onnx"@ != "Xenova/bge-base-en-v1.5"@);
    assert("Qdrant/all-MiniLM-L6-v2-onnx"@ != "Xenova/bge-large-en-v1.5"@);
    assert("Qdrant/all-MiniLM-L6-v2-onnx"@ != "Xenova/bge-small-en-v1.5"@);
    assert("Qdrant/all-MiniLM-L6-v2-onnx"@ != "nomic-ai/nomic-embed-text-v1"@);
    assert("Qdrant/all-MiniLM-L6-v2-onnx"@ != "Xenova/paraphrase-multilingual-MiniLM-L12-v2"@);
    assert("Xenova/bge-base-en-v1.5"@ != "Xenova/bge-large-en-v1.5"@);
    assert("Xenova/bge-base-en-v1.5"@ != "Xenova/bge-small-en-v1.5"@);
    assert("Xenova/bge-base-en-v1.5"@ != "nomic-ai/nomic-embed-text-v1"@);
    assert("Xenova/bge-base-en-v1.5"@ != "Xenova/paraphrase-multilingual-MiniLM-L12-v2"@);
    assert("Xenova/bge-large-en-v1.5"@ != "Xenova/bge-small-en-v1.5"@);
    assert("Xenova/bge-large-en-v1.5"@ != "nomic-ai/nomic-embed-text-v1"@);
    assert("Xenova/bge-large-en-v1.5"@ != "Xenova/paraphrase-multilingual-MiniLM-L12-v2"@);
    assert("Xenova/bge-small-en-v1.5"@ != "nomic-ai/nomic-embed-text-v1"@);
    assert("Xenova/bge-small-en-v1.5"@ != "Xenova/paraphrase-multilingual-MiniLM-L12-v2"@);
    assert("nomic-ai/nomic-embed-text-v1"@ != "Xenova/paraphrase-multilingual-MiniLM-L12-v2"@);
}

} // verus!
