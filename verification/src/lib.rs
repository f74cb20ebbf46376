//! Local reranking with cross-encoder models: the catalogue of built-in rerankers,
//! how a model is named and parsed, and the options a reranker is loaded with.

pub mod ascii;
pub mod common;
pub mod init;
pub mod models;
pub mod outside;
pub mod reranking;

pub use common::{OnnxSource, TokenizerFiles};
pub use init::{HasMaxLength, InitOptionsWithLength};
pub use models::reranking::{reranker_model_list, RerankerModel, RerankerModelInfo};
pub use reranking::init::{
    RerankInitOptions, RerankInitOptionsUserDefined, TextRerank, UserDefinedRerankingModel,
};
pub use reranking::DEFAULT_MAX_LENGTH;
