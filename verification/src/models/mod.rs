pub mod catalogue;
pub mod reranking;
