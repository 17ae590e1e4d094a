//! Session configuration: the options a caller may supply, the documented
//! defaults for the ones it leaves out, and the conversion of the optional
//! batch-size hint to the provider's form.

use vstd::prelude::*;
use crate::model::JSEmbeddingModel;

verus! {

/// Default maximum sequence length handed to the provider.
pub const DEFAULT_MAX_LENGTH: usize = 512;

/// The provider's configuration for one embedding session, fully determined
/// at construction and never changed afterwards.
#[derive(Debug)]
pub struct SessionConfig {
    /// The model the session loads.
    pub model: JSEmbeddingModel,
    /// Where the provider caches downloaded model weights.
    pub cache_dir: String,
    /// The longest token sequence the provider accepts per text.
    pub max_length: usize,
    /// Whether the provider reports download progress.
    pub show_download_progress: bool,
}

impl SessionConfig {
    /// Builds the session configuration from whatever options the caller
    /// supplied, filling each omitted one with its documented default:
    /// the small English model, the `.fastembed_cache` directory, a maximum
    /// sequence length of 512, and progress reporting on.
    pub fn new(
        model: Option<JSEmbeddingModel>,
        cache_dir: Option<String>,
        max_length: Option<i32>,
        show_download_progress: Option<bool>,
    ) -> (c: SessionConfig)
        requires
            max_length matches Some(n) ==> n > 0,
        ensures
            model matches Some(m) ==> c.model == m,
            model is None ==> c.model == JSEmbeddingModel::BGESmallENV15,
            cache_dir matches Some(d) ==> c.cache_dir@ == d@,
            cache_dir is None ==> c.cache_dir@ == ".fastembed_cache"@,
            max_length matches Some(n) ==> c.max_length == n as usize,
            max_length is None ==> c.max_length == DEFAULT_MAX_LENGTH,
            show_download_progress matches Some(p) ==> c.show_download_progress == p,
            show_download_progress is None ==> c.show_download_progress == true,
    {
        let model_v: JSEmbeddingModel = match model {
            Some(m) => m,
            None => JSEmbeddingModel::BGESmallENV15,
        };
        let cache_dir_v: String = match cache_dir {
            Some(d) => d,
            None => String::from_str(".fastembed_cache"),
        };
        let max_length_v: usize = match max_length {
            Some(n) => n as usize,
            None => DEFAULT_MAX_LENGTH,
        };
        let show_v: bool = match show_download_progress {
            Some(p) => p,
            None => true,
        };
        SessionConfig {
            model: model_v,
            cache_dir: cache_dir_v,
            max_length: max_length_v,
            show_download_progress: show_v,
        }
    }
}

/// Converts the caller's optional batch-size hint to the provider's form.
/// The hint only shapes the provider's internal chunking; it never changes
/// which vectors come back.
pub fn resolve_batch_size(batch_size: Option<i32>) -> (r: Option<usize>)
    requires
        batch_size matches Some(n) ==> n > 0,
    ensures
        batch_size matches Some(n) ==> r == Some(n as usize),
        batch_size is None ==> r is None,
{
    match batch_size {
        Some(n) => Some(n as usize),
        None => None,
    }
}

} // verus!
