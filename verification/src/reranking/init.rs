//! What a reranker is loaded from and with.
use super::DEFAULT_MAX_LENGTH;
use crate::common::{OnnxSource, TokenizerFiles};
use crate::init::{HasMaxLength, InitOptionsWithLength};
use crate::models::reranking::RerankerModel;
use ort::execution_providers::ExecutionProviderDispatch;
use ort::session::Session;
use tokenizers::Tokenizer;
use vstd::prelude::*;
use vstd::std_specs::convert::IntoSpec;

verus! {

/// A loaded cross-encoder reranker: its tokenizer and inference session.
#[derive(Debug)]
pub struct TextRerank {
    pub tokenizer: Tokenizer,
    pub(crate) session: Session,
    pub(crate) need_token_type_ids: bool,
    /// Maximum sequence length used for token-budget calculation when a
    /// prompt template is in use.
    pub(crate) max_length: usize,
    /// Optional chat-template prompt for generative-style rerankers
    /// (e.g. Zerank-1-small).  When `Some`, `{query}` and `{doc}`
    /// placeholders are substituted before tokenisation.
    pub(crate) prompt_template: Option<String>,
}

impl HasMaxLength for RerankerModel {
    const MAX_LENGTH: usize = DEFAULT_MAX_LENGTH;
}

/// Options for initializing the reranking models
pub type RerankInitOptions = InitOptionsWithLength<RerankerModel>;

/// Options for initializing UserDefinedRerankerModel
///
/// Model files are held by the UserDefinedRerankerModel struct
#[derive(Debug, Clone)]
#[non_exhaustive]
pub struct RerankInitOptionsUserDefined {
    pub execution_providers: Vec<ExecutionProviderDispatch>,
    pub max_length: usize,
    /// Optional chat-template prompt with `{query}` / `{doc}` placeholders,
    /// used for generative-style rerankers such as Zerank-1-small.
    pub prompt_template: Option<String>,
}

impl Default for RerankInitOptionsUserDefined {
    /// No execution provider, the default length limit and no prompt template.
    fn default() -> (r: Self)
        ensures
            r.execution_providers@ == Seq::<ExecutionProviderDispatch>::empty(),
            r.max_length == DEFAULT_MAX_LENGTH,
            r.max_length == <RerankerModel as HasMaxLength>::MAX_LENGTH,
            r.prompt_template is None,
    {
        Self { execution_providers: Vec::new(), max_length: DEFAULT_MAX_LENGTH, prompt_template: None }
    }
}

/// Convert RerankInitOptions to RerankInitOptionsUserDefined
///
/// This is useful for when the user wants to use the same options for both the default and user-defined models
impl From<RerankInitOptions> for RerankInitOptionsUserDefined {
    /// Keeps the execution providers and the length limit; sets no prompt template.
    fn from(options: RerankInitOptions) -> (r: Self)
        ensures
            r.execution_providers == options.execution_providers,
            r.max_length == options.max_length,
            r.prompt_template is None,
    {
        RerankInitOptionsUserDefined {
            execution_providers: options.execution_providers,
            max_length: options.max_length,
            prompt_template: None,
        }
    }
}

impl vstd::std_specs::convert::FromSpecImpl<RerankInitOptions> for RerankInitOptionsUserDefined {
    open spec fn obeys_from_spec() -> bool {
        true
    }

    open spec fn from_spec(options: RerankInitOptions) -> Self {
        RerankInitOptionsUserDefined {
            execution_providers: options.execution_providers,
            max_length: options.max_length,
            prompt_template: None,
        }
    }
}

/// Struct for "bring your own" reranking models
///
/// The onnx_file and tokenizer_files are expecting the files' bytes
#[derive(Debug, Clone, PartialEq, Eq)]
#[non_exhaustive]
pub struct UserDefinedRerankingModel {
    pub onnx_source: OnnxSource,
    pub tokenizer_files: TokenizerFiles,
}

impl UserDefinedRerankingModel {
    /// A user-supplied model made of the given graph source and tokenizer files.
    pub fn new<S: Into<OnnxSource>>(onnx_source: S, tokenizer_files: TokenizerFiles) -> (r: Self)
        ensures
            <S as IntoSpec<OnnxSource>>::obeys_into_spec() ==> r.onnx_source == <S as IntoSpec<OnnxSource>>::into_spec(onnx_source),
            r.tokenizer_files == tokenizer_files,
    {
        Self { onnx_source: onnx_source.into(), tokenizer_files }
    }
}

} // verus!
