use vstd::prelude::*;

pub mod init;

verus! {

/// The longest input, in tokens, that a reranker accepts when no other limit is given.
pub const DEFAULT_MAX_LENGTH: usize = 512;

} // verus!
