//! Options shared by the model families at load time.
use ort::execution_providers::ExecutionProviderDispatch;
use std::path::PathBuf;
use vstd::prelude::*;

verus! {

/// A model family's longest input, in tokens, when the options give no other.
pub trait HasMaxLength {
    const MAX_LENGTH: usize;
}

/// Options for loading one of a family's built-in models.
#[derive(Debug, Clone)]
pub struct InitOptionsWithLength<M> {
    /// The model to load.
    pub model_name: M,
    /// The execution providers to register, in order of preference.
    pub execution_providers: Vec<ExecutionProviderDispatch>,
    /// Where downloaded model files are kept.
    pub cache_dir: PathBuf,
    /// Whether a download shows its progress.
    pub show_download_progress: bool,
    /// The longest input, in tokens.
    pub max_length: usize,
}

} // verus!
