//! Where a user-supplied model's files come from.
use std::path::PathBuf;
use vstd::prelude::*;

verus! {

/// The ONNX graph of a user-supplied model: its bytes, or the path of a file that holds them.
#[derive(Debug, Clone, PartialEq, Eq)]
pub enum OnnxSource {
    /// The graph's bytes, already in memory.
    Memory(Vec<u8>),
    /// The path of a file that holds the graph.
    File(PathBuf),
}

impl From<Vec<u8>> for OnnxSource {
    fn from(bytes: Vec<u8>) -> (r: Self) {
        OnnxSource::Memory(bytes)
    }
}

impl vstd::std_specs::convert::FromSpecImpl<Vec<u8>> for OnnxSource {
    open spec fn obeys_from_spec() -> bool {
        true
    }

    open spec fn from_spec(v: Vec<u8>) -> Self {
        OnnxSource::Memory(v)
    }
}

impl From<PathBuf> for OnnxSource {
    fn from(path: PathBuf) -> (r: Self) {
        OnnxSource::File(path)
    }
}

impl vstd::std_specs::convert::FromSpecImpl<PathBuf> for OnnxSource {
    open spec fn obeys_from_spec() -> bool {
        true
    }

    open spec fn from_spec(v: PathBuf) -> Self {
        OnnxSource::File(v)
    }
}

/// The bytes of the four tokenizer files that a user-supplied model comes with.
#[derive(Debug, Clone, PartialEq, Eq)]
pub struct TokenizerFiles {
    pub tokenizer_file: Vec<u8>,
    pub config_file: Vec<u8>,
    pub special_tokens_map_file: Vec<u8>,
    pub tokenizer_config_file: Vec<u8>,
}

} // verus!
