//! The built-in reranker models and what is known of each.
use crate::ascii::{
    eq_ignore_ascii_case, lemma_eq_ignore_ascii_case_reflexive, lemma_eq_ignore_ascii_case_symmetric,
    lemma_eq_ignore_ascii_case_transitive, str_eq_ignore_ascii_case,
};
use vstd::prelude::*;

verus! {

#[derive(Debug, Clone, Copy, PartialEq, Eq, Structural)]
pub enum RerankerModel {
    /// BAAI/bge-reranker-base
    BGERerankerBase,
    /// rozgo/bge-reranker-v2-m3
    BGERerankerV2M3,
    /// jinaai/jina-reranker-v1-turbo-en
    JINARerankerV1TurboEn,
    /// jinaai/jina-reranker-v2-base-multilingual — FP32
    JINARerankerV2BaseMultiligual,
    /// jinaai/jina-reranker-v2-base-multilingual — INT8 quantized
    JINARerankerV2BaseMultilingualInt8,
    /// jinaai/jina-reranker-v2-base-multilingual — FP16 (`onnx/model_fp16.onnx`).
    /// Uses graph optimisations (`SimplifiedLayerNormFusion` with
    /// `InsertedPrecisionFreeCast`) that require ORT >= 1.23
    /// (`ort = 2.0.0-rc.12+`).  Validated via reranker-parity at
    /// `spearman_threshold=0.9`.
    JINARerankerV2BaseMultilingualFp16,
    // ── mixedbread-ai mxbai-rerank ────────────────────────────────────────────
    /// mixedbread-ai/mxbai-rerank-xsmall-v1 — 33M, English, 512 tokens
    MxbaiRerankXsmallV1,
    /// mixedbread-ai/mxbai-rerank-xsmall-v1 — INT8-quantized
    MxbaiRerankXsmallV1Q,
    /// mixedbread-ai/mxbai-rerank-base-v1 — 86M, English, 512 tokens
    MxbaiRerankBaseV1,
    /// mixedbread-ai/mxbai-rerank-base-v1 — INT8-quantized
    MxbaiRerankBaseV1Q,
    /// mixedbread-ai/mxbai-rerank-large-v1 — 560M, English, 512 tokens
    MxbaiRerankLargeV1,
    /// mixedbread-ai/mxbai-rerank-large-v1 — INT8-quantized
    MxbaiRerankLargeV1Q,
    // ── cross-encoder/ms-marco MiniLM ─────────────────────────────────────────
    /// cross-encoder/ms-marco-MiniLM-L-6-v2 — 22M, English, fast
    MsMarcoMiniLML6V2,
    /// cross-encoder/ms-marco-MiniLM-L-12-v2 — 33M, English, high quality
    MsMarcoMiniLML12V2,
    // ── nvidia/llama-nemotron-rerank-1b-v2 ────────────────────────────────────
    /// nvidia/llama-nemotron-rerank-1b-v2 — 1B, multilingual, LLaMA-3.2 bidirectional (FP32)
    LlamaNemotronRerank1BV2,
    /// nvidia/llama-nemotron-rerank-1b-v2 — INT4 MatMul + INT8 Gather (~832 MB).
    /// Block-wise INT4 weights preserve dynamic range better than per-channel
    /// vanilla INT8 (Spearman 0.944 per LEARNINGS Phase 7).  Requires ORT
    /// >= 1.23 (`ort = 2.0.0-rc.12+`).
    LlamaNemotronRerank1BV2Int4Full,
    // ── Alibaba-NLP/gte-reranker-modernbert-base ──────────────────────────────
    /// Alibaba-NLP/gte-reranker-modernbert-base — 149M, English, 8192 tokens (FP32, 596 MB)
    GteRerankerModernBertBase,
    /// Alibaba-NLP/gte-reranker-modernbert-base — INT8 quantized (150 MB).
    /// English-only: per-group Spearman vs FP32 = 1.0 on English queries,
    /// drops to ~0.8 on non-English queries.  ModernBERT is English-trained,
    /// so this is consistent with the underlying model's design.
    GteRerankerModernBertBaseQ,
    /// Alibaba-NLP/gte-reranker-modernbert-base — Q4F16 mixed-precision (140 MB).
    /// Uses graph optimisations that require ORT >= 1.23
    /// (`ort = 2.0.0-rc.12+`).  Validated via reranker-parity.
    GteRerankerModernBertBaseQ4F16,
    // ── zeroentropy/zerank-1-small (Qwen3 1.7B reranker, multilingual) ────────
    /// zeroentropy/zerank-1-small — 1.7B Qwen3 reranker, multilingual (FP32 ONNX, ~3.4 GB; batch-broadcast patched)
    ZerankSmall,
    /// zeroentropy/zerank-1-small — INT8 quantized (~1.7 GB; batch-broadcast patched).
    /// Per LEARNINGS Phase 7: Spearman 0.965 vs PyTorch on the multilingual
    /// probe set (English-clean, slight ranking drift on some non-English queries).
    /// Requires ORT >= 1.23 (`ort = 2.0.0-rc.12+`).
    ZerankSmallInt8,
    /// zeroentropy/zerank-1-small — INT4 MatMulNBits (~860 MB; batch-broadcast patched).
    /// Per LEARNINGS Phase 7: Spearman 0.935 vs PyTorch on the multilingual
    /// probe set.  Requires ORT >= 1.23 (`ort = 2.0.0-rc.12+`).
    ZerankSmallInt4,
}

impl Default for RerankerModel {
    /// The default reranker is BAAI/bge-reranker-base.
    fn default() -> (r: Self)
        ensures
            r == RerankerModel::BGERerankerBase,
    {
        RerankerModel::BGERerankerBase
    }
}

/// What the library knows of a built-in reranker model: where to fetch it and how to prompt it.
#[derive(Debug, Clone)]
pub struct RerankerModelInfo {
    /// The model this entry describes.
    pub model: RerankerModel,
    /// A short description of the model.
    pub description: String,
    /// The model's repository on the Hugging Face hub, `owner/name`.
    pub model_code: String,
    /// The path of the ONNX graph inside the repository.
    pub model_file: String,
    /// Further files the graph needs, such as external weights.
    pub additional_files: Vec<String>,
    /// A prompt with `{query}` and `{doc}` placeholders, for generative-style rerankers.
    pub prompt_template: Option<String>,
}

/// The mathematical content of a [`RerankerModelInfo`]: its texts as character sequences.
pub struct RerankerModelInfoView {
    pub model: RerankerModel,
    pub description: Seq<char>,
    pub model_code: Seq<char>,
    pub model_file: Seq<char>,
    pub additional_files: Seq<Seq<char>>,
    pub prompt_template: Option<Seq<char>>,
}

impl View for RerankerModelInfo {
    type V = RerankerModelInfoView;

    open spec fn view(&self) -> RerankerModelInfoView {
        RerankerModelInfoView {
            model: self.model,
            description: self.description@,
            model_code: self.model_code@,
            model_file: self.model_file@,
            additional_files: self.additional_files@.map_values(|f: String| f@),
            prompt_template: match self.prompt_template {
                Some(p) => Some(p@),
                None => None,
            },
        }
    }
}

/// The built-in models in the order in which [`reranker_model_list`] lists them.
pub open spec fn spec_model_order() -> Seq<RerankerModel> {
    seq![
        RerankerModel::BGERerankerBase,
        RerankerModel::BGERerankerV2M3,
        RerankerModel::JINARerankerV1TurboEn,
        RerankerModel::JINARerankerV2BaseMultiligual,
        RerankerModel::JINARerankerV2BaseMultilingualInt8,
        RerankerModel::JINARerankerV2BaseMultilingualFp16,
        RerankerModel::MxbaiRerankXsmallV1,
        RerankerModel::MxbaiRerankXsmallV1Q,
        RerankerModel::MxbaiRerankBaseV1,
        RerankerModel::MxbaiRerankBaseV1Q,
        RerankerModel::MxbaiRerankLargeV1,
        RerankerModel::MxbaiRerankLargeV1Q,
        RerankerModel::MsMarcoMiniLML6V2,
        RerankerModel::MsMarcoMiniLML12V2,
        RerankerModel::LlamaNemotronRerank1BV2,
        RerankerModel::LlamaNemotronRerank1BV2Int4Full,
        RerankerModel::GteRerankerModernBertBase,
        RerankerModel::GteRerankerModernBertBaseQ,
        RerankerModel::GteRerankerModernBertBaseQ4F16,
        RerankerModel::ZerankSmall,
        RerankerModel::ZerankSmallInt8,
        RerankerModel::ZerankSmallInt4,
    ]
}

/// An entry whose texts are given; there is at most one additional file.
pub open spec fn spec_entry(
    model: RerankerModel,
    description: Seq<char>,
    model_code: Seq<char>,
    model_file: Seq<char>,
    additional_file: Option<Seq<char>>,
    prompt_template: Option<Seq<char>>,
) -> RerankerModelInfoView {
    RerankerModelInfoView {
        model,
        description,
        model_code,
        model_file,
        additional_files: match additional_file {
            Some(f) => seq![f],
            None => Seq::empty(),
        },
        prompt_template,
    }
}

/// The entry of a built-in model.
pub open spec fn spec_model_info(model: RerankerModel) -> RerankerModelInfoView {
    match model {
        RerankerModel::BGERerankerBase => spec_entry(
            model,
            "reranker model for English and Chinese"@,
            "BAAI/bge-reranker-base"@,
            "onnx/model.onnx"@,
            None,
            None,
        ),
        RerankerModel::BGERerankerV2M3 => spec_entry(
            model,
            "reranker model for multilingual"@,
            "rozgo/bge-reranker-v2-m3"@,
            "model.onnx"@,
            Some("model.onnx.data"@),
            None,
        ),
        RerankerModel::JINARerankerV1TurboEn => spec_entry(
            model,
            "reranker model for English"@,
            "jinaai/jina-reranker-v1-turbo-en"@,
            "onnx/model.onnx"@,
            None,
            None,
        ),
        RerankerModel::JINARerankerV2BaseMultiligual => spec_entry(
            model,
            "Jina reranker v2, multilingual — 278M, 1024 tokens, XLM-RoBERTa (FP32)"@,
            "jinaai/jina-reranker-v2-base-multilingual"@,
            "onnx/model.onnx"@,
            None,
            None,
        ),
        RerankerModel::JINARerankerV2BaseMultilingualInt8 => spec_entry(
            model,
            "Jina reranker v2, multilingual — 278M, 1024 tokens, XLM-RoBERTa (INT8)"@,
            "jinaai/jina-reranker-v2-base-multilingual"@,
            "onnx/model_int8.onnx"@,
            None,
            None,
        ),
        RerankerModel::JINARerankerV2BaseMultilingualFp16 => spec_entry(
            model,
            "Jina reranker v2, multilingual — 278M, 1024 tokens, XLM-RoBERTa (FP16). Requires ORT >= 1.23 (`ort = 2.0.0-rc.12+`)."@,
            "jinaai/jina-reranker-v2-base-multilingual"@,
            "onnx/model_fp16.onnx"@,
            None,
            None,
        ),
        RerankerModel::MxbaiRerankXsmallV1 => spec_entry(
            model,
            "mxbai-rerank-xsmall-v1 — 33M, English, DeBERTa-v3 cross-encoder"@,
            "mixedbread-ai/mxbai-rerank-xsmall-v1"@,
            "onnx/model.onnx"@,
            None,
            None,
        ),
        RerankerModel::MxbaiRerankXsmallV1Q => spec_entry(
            model,
            "mxbai-rerank-xsmall-v1 INT8 — 33M, English, DeBERTa-v3 cross-encoder"@,
            "mixedbread-ai/mxbai-rerank-xsmall-v1"@,
            "onnx/model_quantized.onnx"@,
            None,
            None,
        ),
        RerankerModel::MxbaiRerankBaseV1 => spec_entry(
            model,
            "mxbai-rerank-base-v1 — 86M, English, DeBERTa-v3 cross-encoder"@,
            "mixedbread-ai/mxbai-rerank-base-v1"@,
            "onnx/model.onnx"@,
            None,
            None,
        ),
        RerankerModel::MxbaiRerankBaseV1Q => spec_entry(
            model,
            "mxbai-rerank-base-v1 INT8 — 86M, English, DeBERTa-v3 cross-encoder"@,
            "mixedbread-ai/mxbai-rerank-base-v1"@,
            "onnx/model_quantized.onnx"@,
            None,
            None,
        ),
        RerankerModel::MxbaiRerankLargeV1 => spec_entry(
            model,
            "mxbai-rerank-large-v1 — 560M, English, DeBERTa-v3-large cross-encoder"@,
            "mixedbread-ai/mxbai-rerank-large-v1"@,
            "onnx/model.onnx"@,
            None,
            None,
        ),
        RerankerModel::MxbaiRerankLargeV1Q => spec_entry(
            model,
            "mxbai-rerank-large-v1 INT8 — 560M, English, DeBERTa-v3-large cross-encoder"@,
            "mixedbread-ai/mxbai-rerank-large-v1"@,
            "onnx/model_quantized.onnx"@,
            None,
            None,
        ),
        RerankerModel::MsMarcoMiniLML6V2 => spec_entry(
            model,
            "ms-marco-MiniLM-L-6-v2 — 22M, English, fast BERT cross-encoder"@,
            "cross-encoder/ms-marco-MiniLM-L-6-v2"@,
            "onnx/model.onnx"@,
            None,
            None,
        ),
        RerankerModel::MsMarcoMiniLML12V2 => spec_entry(
            model,
            "ms-marco-MiniLM-L-12-v2 — 33M, English, BERT cross-encoder"@,
            "cross-encoder/ms-marco-MiniLM-L-12-v2"@,
            "onnx/model.onnx"@,
            None,
            None,
        ),
        RerankerModel::LlamaNemotronRerank1BV2 => spec_entry(
            model,
            "nvidia/llama-nemotron-rerank-1b-v2 — 1B LLaMA-3.2 bidirectional reranker, multilingual (FP32, 4.6 GB)"@,
            "cstr/llama-nemotron-rerank-1b-v2-ONNX"@,
            "model.onnx"@,
            Some("model.onnx_data"@),
            None,
        ),
        RerankerModel::LlamaNemotronRerank1BV2Int4Full => spec_entry(
            model,
            "nvidia/llama-nemotron-rerank-1b-v2 — INT4 MatMul + INT8 Gather (~832 MB). Block-wise INT4 weights preserve dynamic range; Spearman 0.944 vs PyTorch (LEARNINGS Phase 7).  Requires ORT >= 1.23 (`ort = 2.0.0-rc.12+`)."@,
            "cstr/llama-nemotron-rerank-1b-v2-ONNX"@,
            "model_int4_full.onnx"@,
            None,
            None,
        ),
        RerankerModel::GteRerankerModernBertBase => spec_entry(
            model,
            "gte-reranker-modernbert-base — 149M, English, 8192 tokens, ModernBERT cross-encoder (FP32, 596 MB)"@,
            "Alibaba-NLP/gte-reranker-modernbert-base"@,
            "onnx/model.onnx"@,
            None,
            None,
        ),
        RerankerModel::GteRerankerModernBertBaseQ => spec_entry(
            model,
            "gte-reranker-modernbert-base — 149M, English, 8192 tokens, ModernBERT cross-encoder (INT8, 150 MB)"@,
            "Alibaba-NLP/gte-reranker-modernbert-base"@,
            "onnx/model_int8.onnx"@,
            None,
            None,
        ),
        RerankerModel::GteRerankerModernBertBaseQ4F16 => spec_entry(
            model,
            "gte-reranker-modernbert-base — 149M, English, 8192 tokens, ModernBERT cross-encoder (Q4F16, ~140 MB). Requires ORT >= 1.23 (`ort = 2.0.0-rc.12+`)."@,
            "Alibaba-NLP/gte-reranker-modernbert-base"@,
            "onnx/model_q4f16.onnx"@,
            None,
            None,
        ),
        RerankerModel::ZerankSmall => spec_entry(
            model,
            "zeroentropy/zerank-1-small — 1.7B Qwen3 reranker, multilingual (FP32 ONNX, ~3.4 GB; batch-broadcast patched)"@,
            "cstr/zerank-1-small-ONNX"@,
            "model.onnx"@,
            Some("model.onnx_data"@),
            Some("<|im_start|>user\nQuery: {query}\nDocument: {doc}\nRelevant:<|im_end|>\n<|im_start|>assistant\n"@),
        ),
        RerankerModel::ZerankSmallInt8 => spec_entry(
            model,
            "zeroentropy/zerank-1-small — INT8 (~1.7 GB; batch-broadcast patched). Spearman 0.965 vs PyTorch (LEARNINGS Phase 7).  Requires ORT >= 1.23 (`ort = 2.0.0-rc.12+`)."@,
            "cstr/zerank-1-small-ONNX"@,
            "model_int8.onnx"@,
            Some("model_int8.onnx_data"@),
            Some("<|im_start|>user\nQuery: {query}\nDocument: {doc}\nRelevant:<|im_end|>\n<|im_start|>assistant\n"@),
        ),
        RerankerModel::ZerankSmallInt4 => spec_entry(
            model,
            "zeroentropy/zerank-1-small — INT4 MatMulNBits (~860 MB; batch-broadcast patched). Spearman 0.935 vs PyTorch (LEARNINGS Phase 7).  Requires ORT >= 1.23 (`ort = 2.0.0-rc.12+`)."@,
            "cstr/zerank-1-small-ONNX"@,
            "model_int4_full.onnx"@,
            None,
            Some("<|im_start|>user\nQuery: {query}\nDocument: {doc}\nRelevant:<|im_end|>\n<|im_start|>assistant\n"@),
        ),
    }
}

/// The repository of a built-in model.
pub open spec fn spec_model_code(model: RerankerModel) -> Seq<char> {
    spec_model_info(model).model_code
}

/// The characters of an optional text.
pub open spec fn opt_str_view(s: Option<&str>) -> Option<Seq<char>> {
    match s {
        Some(t) => Some(t@),
        None => None,
    }
}

/// Builds one entry of the model list.
fn entry(
    model: RerankerModel,
    description: &str,
    model_code: &str,
    model_file: &str,
    additional_file: Option<&str>,
    prompt_template: Option<&str>,
) -> (r: RerankerModelInfo)
    ensures
        r@ == spec_entry(
            model,
            description@,
            model_code@,
            model_file@,
            opt_str_view(additional_file),
            opt_str_view(prompt_template),
        ),
{
    let mut additional_files: Vec<String> = Vec::new();
    if let Some(f) = additional_file {
        additional_files.push(String::from_str(f));
    }
    let prompt = match prompt_template {
        Some(p) => Some(String::from_str(p)),
        None => None,
    };
    let r = RerankerModelInfo {
        model,
        description: String::from_str(description),
        model_code: String::from_str(model_code),
        model_file: String::from_str(model_file),
        additional_files,
        prompt_template: prompt,
    };
    assert(r@.additional_files =~= spec_entry(
        model,
        description@,
        model_code@,
        model_file@,
        opt_str_view(additional_file),
        opt_str_view(prompt_template),
    ).additional_files);
    r
}

/// The entry of one built-in model.
fn model_info(model: RerankerModel) -> (r: RerankerModelInfo)
    ensures
        r@ == spec_model_info(model),
{
    match model {
        RerankerModel::BGERerankerBase => entry(
            model,
            "reranker model for English and Chinese",
            "BAAI/bge-reranker-base",
            "onnx/model.onnx",
            None,
            None,
        ),
        RerankerModel::BGERerankerV2M3 => entry(
            model,
            "reranker model for multilingual",
            "rozgo/bge-reranker-v2-m3",
            "model.onnx",
            Some("model.onnx.data"),
            None,
        ),
        RerankerModel::JINARerankerV1TurboEn => entry(
            model,
            "reranker model for English",
            "jinaai/jina-reranker-v1-turbo-en",
            "onnx/model.onnx",
            None,
            None,
        ),
        RerankerModel::JINARerankerV2BaseMultiligual => entry(
            model,
            "Jina reranker v2, multilingual — 278M, 1024 tokens, XLM-RoBERTa (FP32)",
            "jinaai/jina-reranker-v2-base-multilingual",
            "onnx/model.onnx",
            None,
            None,
        ),
        RerankerModel::JINARerankerV2BaseMultilingualInt8 => entry(
            model,
            "Jina reranker v2, multilingual — 278M, 1024 tokens, XLM-RoBERTa (INT8)",
            "jinaai/jina-reranker-v2-base-multilingual",
            "onnx/model_int8.onnx",
            None,
            None,
        ),
        RerankerModel::JINARerankerV2BaseMultilingualFp16 => entry(
            model,
            "Jina reranker v2, multilingual — 278M, 1024 tokens, XLM-RoBERTa (FP16). Requires ORT >= 1.23 (`ort = 2.0.0-rc.12+`).",
            "jinaai/jina-reranker-v2-base-multilingual",
            "onnx/model_fp16.onnx",
            None,
            None,
        ),
        RerankerModel::MxbaiRerankXsmallV1 => entry(
            model,
            "mxbai-rerank-xsmall-v1 — 33M, English, DeBERTa-v3 cross-encoder",
            "mixedbread-ai/mxbai-rerank-xsmall-v1",
            "onnx/model.onnx",
            None,
            None,
        ),
        RerankerModel::MxbaiRerankXsmallV1Q => entry(
            model,
            "mxbai-rerank-xsmall-v1 INT8 — 33M, English, DeBERTa-v3 cross-encoder",
            "mixedbread-ai/mxbai-rerank-xsmall-v1",
            "onnx/model_quantized.onnx",
            None,
            None,
        ),
        RerankerModel::MxbaiRerankBaseV1 => entry(
            model,
            "mxbai-rerank-base-v1 — 86M, English, DeBERTa-v3 cross-encoder",
            "mixedbread-ai/mxbai-rerank-base-v1",
            "onnx/model.onnx",
            None,
            None,
        ),
        RerankerModel::MxbaiRerankBaseV1Q => entry(
            model,
            "mxbai-rerank-base-v1 INT8 — 86M, English, DeBERTa-v3 cross-encoder",
            "mixedbread-ai/mxbai-rerank-base-v1",
            "onnx/model_quantized.onnx",
            None,
            None,
        ),
        RerankerModel::MxbaiRerankLargeV1 => entry(
            model,
            "mxbai-rerank-large-v1 — 560M, English, DeBERTa-v3-large cross-encoder",
            "mixedbread-ai/mxbai-rerank-large-v1",
            "onnx/model.onnx",
            None,
            None,
        ),
        RerankerModel::MxbaiRerankLargeV1Q => entry(
            model,
            "mxbai-rerank-large-v1 INT8 — 560M, English, DeBERTa-v3-large cross-encoder",
            "mixedbread-ai/mxbai-rerank-large-v1",
            "onnx/model_quantized.onnx",
            None,
            None,
        ),
        RerankerModel::MsMarcoMiniLML6V2 => entry(
            model,
            "ms-marco-MiniLM-L-6-v2 — 22M, English, fast BERT cross-encoder",
            "cross-encoder/ms-marco-MiniLM-L-6-v2",
            "onnx/model.onnx",
            None,
            None,
        ),
        RerankerModel::MsMarcoMiniLML12V2 => entry(
            model,
            "ms-marco-MiniLM-L-12-v2 — 33M, English, BERT cross-encoder",
            "cross-encoder/ms-marco-MiniLM-L-12-v2",
            "onnx/model.onnx",
            None,
            None,
        ),
        RerankerModel::LlamaNemotronRerank1BV2 => entry(
            model,
            "nvidia/llama-nemotron-rerank-1b-v2 — 1B LLaMA-3.2 bidirectional reranker, multilingual (FP32, 4.6 GB)",
            "cstr/llama-nemotron-rerank-1b-v2-ONNX",
            "model.onnx",
            Some("model.onnx_data"),
            None,
        ),
        RerankerModel::LlamaNemotronRerank1BV2Int4Full => entry(
            model,
            "nvidia/llama-nemotron-rerank-1b-v2 — INT4 MatMul + INT8 Gather (~832 MB). Block-wise INT4 weights preserve dynamic range; Spearman 0.944 vs PyTorch (LEARNINGS Phase 7).  Requires ORT >= 1.23 (`ort = 2.0.0-rc.12+`).",
            "cstr/llama-nemotron-rerank-1b-v2-ONNX",
            "model_int4_full.onnx",
            None,
            None,
        ),
        RerankerModel::GteRerankerModernBertBase => entry(
            model,
            "gte-reranker-modernbert-base — 149M, English, 8192 tokens, ModernBERT cross-encoder (FP32, 596 MB)",
            "Alibaba-NLP/gte-reranker-modernbert-base",
            "onnx/model.onnx",
            None,
            None,
        ),
        RerankerModel::GteRerankerModernBertBaseQ => entry(
            model,
            "gte-reranker-modernbert-base — 149M, English, 8192 tokens, ModernBERT cross-encoder (INT8, 150 MB)",
            "Alibaba-NLP/gte-reranker-modernbert-base",
            "onnx/model_int8.onnx",
            None,
            None,
        ),
        RerankerModel::GteRerankerModernBertBaseQ4F16 => entry(
            model,
            "gte-reranker-modernbert-base — 149M, English, 8192 tokens, ModernBERT cross-encoder (Q4F16, ~140 MB). Requires ORT >= 1.23 (`ort = 2.0.0-rc.12+`).",
            "Alibaba-NLP/gte-reranker-modernbert-base",
            "onnx/model_q4f16.onnx",
            None,
            None,
        ),
        RerankerModel::ZerankSmall => entry(
            model,
            "zeroentropy/zerank-1-small — 1.7B Qwen3 reranker, multilingual (FP32 ONNX, ~3.4 GB; batch-broadcast patched)",
            "cstr/zerank-1-small-ONNX",
            "model.onnx",
            Some("model.onnx_data"),
            Some("<|im_start|>user\nQuery: {query}\nDocument: {doc}\nRelevant:<|im_end|>\n<|im_start|>assistant\n"),
        ),
        RerankerModel::ZerankSmallInt8 => entry(
            model,
            "zeroentropy/zerank-1-small — INT8 (~1.7 GB; batch-broadcast patched). Spearman 0.965 vs PyTorch (LEARNINGS Phase 7).  Requires ORT >= 1.23 (`ort = 2.0.0-rc.12+`).",
            "cstr/zerank-1-small-ONNX",
            "model_int8.onnx",
            Some("model_int8.onnx_data"),
            Some("<|im_start|>user\nQuery: {query}\nDocument: {doc}\nRelevant:<|im_end|>\n<|im_start|>assistant\n"),
        ),
        RerankerModel::ZerankSmallInt4 => entry(
            model,
            "zeroentropy/zerank-1-small — INT4 MatMulNBits (~860 MB; batch-broadcast patched). Spearman 0.935 vs PyTorch (LEARNINGS Phase 7).  Requires ORT >= 1.23 (`ort = 2.0.0-rc.12+`).",
            "cstr/zerank-1-small-ONNX",
            "model_int4_full.onnx",
            None,
            Some("<|im_start|>user\nQuery: {query}\nDocument: {doc}\nRelevant:<|im_end|>\n<|im_start|>assistant\n"),
        ),
    }
}

/// Lists every built-in reranker model with its repository, files and prompt.
pub fn reranker_model_list() -> (r: Vec<RerankerModelInfo>)
    ensures
        r@.len() == spec_model_order().len(),
        forall|i: int| 0 <= i < r@.len() ==> #[trigger] r@[i]@ == spec_model_info(spec_model_order()[i]),
        forall|i: int| 0 <= i < r@.len() ==> #[trigger] r@[i].model as int == i,
{
    proof {
        law_model_list_in_declaration_order();
        assert forall|m: RerankerModel| #[trigger] spec_model_info(m).model == m by {
            law_model_list_covers_each_model_once(m);
        }
    }
    let order = model_order();
    let mut list: Vec<RerankerModelInfo> = Vec::new();
    let mut i: usize = 0;
    while i < order.len()
        invariant
            order@ == spec_model_order(),
            i <= order.len(),
            list@.len() == i,
            forall|j: int| 0 <= j < i ==> #[trigger] list@[j]@ == spec_model_info(spec_model_order()[j]),
        decreases order.len() - i,
    {
        list.push(model_info(order[i]));
        i = i + 1;
    }
    assert forall|i: int| 0 <= i < list@.len() implies #[trigger] list@[i].model as int == i by {
        assert(list@[i]@ == spec_model_info(spec_model_order()[i]));
        assert(spec_model_info(spec_model_order()[i]).model == spec_model_order()[i]);
        assert(spec_model_order()[i] as int == i);
    }
    list
}

/// The built-in models, in list order.
fn model_order() -> (r: Vec<RerankerModel>)
    ensures
        r@ == spec_model_order(),
{
    let r = vec![
        RerankerModel::BGERerankerBase,
        RerankerModel::BGERerankerV2M3,
        RerankerModel::JINARerankerV1TurboEn,
        RerankerModel::JINARerankerV2BaseMultiligual,
        RerankerModel::JINARerankerV2BaseMultilingualInt8,
        RerankerModel::JINARerankerV2BaseMultilingualFp16,
        RerankerModel::MxbaiRerankXsmallV1,
        RerankerModel::MxbaiRerankXsmallV1Q,
        RerankerModel::MxbaiRerankBaseV1,
        RerankerModel::MxbaiRerankBaseV1Q,
        RerankerModel::MxbaiRerankLargeV1,
        RerankerModel::MxbaiRerankLargeV1Q,
        RerankerModel::MsMarcoMiniLML6V2,
        RerankerModel::MsMarcoMiniLML12V2,
        RerankerModel::LlamaNemotronRerank1BV2,
        RerankerModel::LlamaNemotronRerank1BV2Int4Full,
        RerankerModel::GteRerankerModernBertBase,
        RerankerModel::GteRerankerModernBertBaseQ,
        RerankerModel::GteRerankerModernBertBaseQ4F16,
        RerankerModel::ZerankSmall,
        RerankerModel::ZerankSmallInt8,
        RerankerModel::ZerankSmallInt4,
    ];
    assert(r@ =~= spec_model_order());
    r
}

/// The first model of `models` whose repository matches `s` when ASCII case is ignored.
pub open spec fn first_match(models: Seq<RerankerModel>, s: Seq<char>) -> Option<RerankerModel>
    decreases models.len(),
{
    if models.len() == 0 {
        None
    } else if eq_ignore_ascii_case(spec_model_code(models[0]), s) {
        Some(models[0])
    } else {
        first_match(models.drop_first(), s)
    }
}

/// The model that a repository name denotes: the first listed model whose
/// repository matches it when ASCII case is ignored.
pub open spec fn spec_parse_model(s: Seq<char>) -> Option<RerankerModel> {
    first_match(spec_model_order(), s)
}

/// The error given for a text that names no built-in model.
pub open spec fn unknown_model_message(s: Seq<char>) -> Seq<char> {
    "Unknown reranker model: "@ + s
}

/// What [`first_match`] finds: the earliest model whose repository matches `s`,
/// or nothing when no model's does.
pub(crate) proof fn lemma_first_match(models: Seq<RerankerModel>, s: Seq<char>)
    ensures
        match first_match(models, s) {
            Some(x) => exists|j: int|
                0 <= j < models.len() && models[j] == x && eq_ignore_ascii_case(spec_model_code(x), s)
                    && forall|i: int|
                    0 <= i < j ==> !#[trigger] eq_ignore_ascii_case(spec_model_code(models[i]), s),
            None => forall|i: int|
                0 <= i < models.len() ==> !#[trigger] eq_ignore_ascii_case(spec_model_code(models[i]), s),
        },
    decreases models.len(),
{
    if models.len() > 0 && !eq_ignore_ascii_case(spec_model_code(models[0]), s) {
        let rest = models.drop_first();
        lemma_first_match(rest, s);
        match first_match(rest, s) {
            Some(x) => {
                let j = choose|j: int|
                    0 <= j < rest.len() && rest[j] == x && eq_ignore_ascii_case(spec_model_code(x), s)
                        && forall|i: int|
                        0 <= i < j ==> !#[trigger] eq_ignore_ascii_case(spec_model_code(rest[i]), s);
                assert(models[j + 1] == x);
                assert forall|i: int| 0 <= i < j + 1 implies !#[trigger] eq_ignore_ascii_case(
                    spec_model_code(models[i]),
                    s,
                ) by {
                    if i > 0 {
                        assert(models[i] == rest[i - 1]);
                    }
                }
            },
            None => {
                assert forall|i: int| 0 <= i < models.len() implies !#[trigger] eq_ignore_ascii_case(
                    spec_model_code(models[i]),
                    s,
                ) by {
                    if i > 0 {
                        assert(models[i] == rest[i - 1]);
                    }
                }
            },
        }
    }
}

/// [`first_match`] gives the same answer for texts that match without regard to ASCII case.
proof fn lemma_first_match_ignores_ascii_case(models: Seq<RerankerModel>, a: Seq<char>, b: Seq<char>)
    requires
        eq_ignore_ascii_case(a, b),
    ensures
        first_match(models, a) == first_match(models, b),
    decreases models.len(),
{
    if models.len() > 0 {
        let code = spec_model_code(models[0]);
        lemma_eq_ignore_ascii_case_symmetric(a, b);
        if eq_ignore_ascii_case(code, a) {
            lemma_eq_ignore_ascii_case_transitive(code, a, b);
        }
        if eq_ignore_ascii_case(code, b) {
            lemma_eq_ignore_ascii_case_transitive(code, b, a);
        }
        lemma_first_match_ignores_ascii_case(models.drop_first(), a, b);
    }
}

/// The model list follows the enum's declaration order: it has one entry per
/// variant, and its entry at index `i` is the variant declared `i`-th.
pub proof fn law_model_list_in_declaration_order()
    ensures
        spec_model_order().len() == RerankerModel::ZerankSmallInt4 as int + 1,
        forall|i: int| 0 <= i < spec_model_order().len() ==> #[trigger] spec_model_order()[i] as int == i,
{
    let order = spec_model_order();
    assert forall|i: int| 0 <= i < order.len() implies #[trigger] order[i] as int == i by {
        assert(order.len() == 22);
    }
}

/// Every built-in model is listed exactly once, and the entry of a model describes that model.
pub proof fn law_model_list_covers_each_model_once(model: RerankerModel)
    ensures
        spec_model_order().contains(model),
        spec_model_order().no_duplicates(),
        spec_model_info(model).model == model,
{
    lemma_every_model_listed(model);
    let order = spec_model_order();
    assert forall|i: int, j: int| 0 <= i < order.len() && 0 <= j < order.len() && i != j implies order[i]
        != order[j] by {
        assert(order.len() == 22);
    }
}

/// Reading back the repository of a built-in model never fails: it names a model
/// whose repository matches, and it names the model itself unless a model listed
/// before it has a repository that matches without regard to ASCII case.
pub proof fn law_parse_model_code(model: RerankerModel)
    ensures
        spec_parse_model(spec_model_code(model)) matches Some(found) && eq_ignore_ascii_case(
            spec_model_code(found),
            spec_model_code(model),
        ),
        (forall|j: int, k: int|
            #![trigger spec_model_order()[j], spec_model_order()[k]]
            0 <= j < k < spec_model_order().len() && spec_model_order()[k] == model
                ==> !eq_ignore_ascii_case(spec_model_code(spec_model_order()[j]), spec_model_code(model)))
            ==> spec_parse_model(spec_model_code(model)) == Some(model),
{
    let order = spec_model_order();
    let s = spec_model_code(model);
    lemma_every_model_listed(model);
    let k = choose|k: int| 0 <= k < order.len() && order[k] == model;
    lemma_eq_ignore_ascii_case_reflexive(s);
    assert(eq_ignore_ascii_case(spec_model_code(order[k]), s));
    lemma_first_match(order, s);
    if forall|j: int, k2: int|
        #![trigger order[j], order[k2]]
        0 <= j < k2 < order.len() && order[k2] == model
            ==> !eq_ignore_ascii_case(spec_model_code(order[j]), s) {
        let found = spec_parse_model(s)->0;
        let j = choose|j: int|
            0 <= j < order.len() && order[j] == found && eq_ignore_ascii_case(spec_model_code(found), s)
                && forall|i: int| 0 <= i < j ==> !#[trigger] eq_ignore_ascii_case(spec_model_code(order[i]), s);
        if j < k {
            assert(!eq_ignore_ascii_case(spec_model_code(order[j]), s));
        }
        if j > k {
            assert(!eq_ignore_ascii_case(spec_model_code(order[k]), s));
        }
    }
}

/// Parsing ignores ASCII case: texts that match without regard to it name the same model.
pub proof fn law_parse_ignores_ascii_case(a: Seq<char>, b: Seq<char>)
    requires
        eq_ignore_ascii_case(a, b),
    ensures
        spec_parse_model(a) == spec_parse_model(b),
{
    lemma_first_match_ignores_ascii_case(spec_model_order(), a, b);
}

/// A text names a model exactly when some built-in model's repository matches it
/// without regard to ASCII case, and the model it names is one whose repository matches.
pub proof fn law_parse_succeeds_iff_listed(s: Seq<char>)
    ensures
        spec_parse_model(s) is Some <==> exists|i: int|
            0 <= i < spec_model_order().len() && #[trigger] eq_ignore_ascii_case(
                spec_model_code(spec_model_order()[i]),
                s,
            ),
        spec_parse_model(s) matches Some(found) ==> eq_ignore_ascii_case(spec_model_code(found), s),
{
    lemma_first_match(spec_model_order(), s);
}

/// Every built-in model is listed.
proof fn lemma_every_model_listed(model: RerankerModel)
    ensures
        spec_model_order().contains(model),
{
    let order = spec_model_order();
    match model {
        RerankerModel::BGERerankerBase => assert(order[0] == model),
        RerankerModel::BGERerankerV2M3 => assert(order[1] == model),
        RerankerModel::JINARerankerV1TurboEn => assert(order[2] == model),
        RerankerModel::JINARerankerV2BaseMultiligual => assert(order[3] == model),
        RerankerModel::JINARerankerV2BaseMultilingualInt8 => assert(order[4] == model),
        RerankerModel::JINARerankerV2BaseMultilingualFp16 => assert(order[5] == model),
        RerankerModel::MxbaiRerankXsmallV1 => assert(order[6] == model),
        RerankerModel::MxbaiRerankXsmallV1Q => assert(order[7] == model),
        RerankerModel::MxbaiRerankBaseV1 => assert(order[8] == model),
        RerankerModel::MxbaiRerankBaseV1Q => assert(order[9] == model),
        RerankerModel::MxbaiRerankLargeV1 => assert(order[10] == model),
        RerankerModel::MxbaiRerankLargeV1Q => assert(order[11] == model),
        RerankerModel::MsMarcoMiniLML6V2 => assert(order[12] == model),
        RerankerModel::MsMarcoMiniLML12V2 => assert(order[13] == model),
        RerankerModel::LlamaNemotronRerank1BV2 => assert(order[14] == model),
        RerankerModel::LlamaNemotronRerank1BV2Int4Full => assert(order[15] == model),
        RerankerModel::GteRerankerModernBertBase => assert(order[16] == model),
        RerankerModel::GteRerankerModernBertBaseQ => assert(order[17] == model),
        RerankerModel::GteRerankerModernBertBaseQ4F16 => assert(order[18] == model),
        RerankerModel::ZerankSmall => assert(order[19] == model),
        RerankerModel::ZerankSmallInt8 => assert(order[20] == model),
        RerankerModel::ZerankSmallInt4 => assert(order[21] == model),
    }
}

impl RerankerModel {
    /// The model's repository on the Hugging Face hub, as the model list gives it.
    pub fn to_string(&self) -> (r: String)
        ensures
            r@ == spec_model_code(*self),
    {
        let list = reranker_model_list();
        let mut i: usize = 0;
        while i < list.len()
            invariant
                list@.len() == spec_model_order().len(),
                forall|k: int| 0 <= k < list@.len() ==> #[trigger] list@[k]@ == spec_model_info(spec_model_order()[k]),
                i <= list.len(),
                forall|j: int| 0 <= j < i ==> spec_model_order()[j] != *self,
            decreases list.len() - i,
        {
            if list[i].model == *self {
                assert(list@[i as int]@ == spec_model_info(spec_model_order()[i as int]));
                return list[i].model_code.clone();
            }
            assert(list@[i as int]@ == spec_model_info(spec_model_order()[i as int]));
            i = i + 1;
        }
        proof {
            lemma_every_model_listed(*self);
        }
        String::new()
    }

    /// The model whose repository is `s`, ignoring ASCII case; the first listed one
    /// where several share it. Fails with "Unknown reranker model: " and `s` otherwise.
    pub fn from_str(s: &str) -> (r: Result<RerankerModel, String>)
        ensures
            match r {
                Ok(m) => spec_parse_model(s@) == Some(m),
                Err(e) => spec_parse_model(s@) is None && e@ == unknown_model_message(s@),
            },
    {
        let list = reranker_model_list();
        let mut i: usize = 0;
        assert(spec_model_order().skip(0) =~= spec_model_order());
        while i < list.len()
            invariant
                list@.len() == spec_model_order().len(),
                forall|k: int| 0 <= k < list@.len() ==> #[trigger] list@[k]@ == spec_model_info(spec_model_order()[k]),
                i <= list.len(),
                spec_parse_model(s@) == first_match(spec_model_order().skip(i as int), s@),
            decreases list.len() - i,
        {
            let ghost rest = spec_model_order().skip(i as int);
            assert(list@[i as int]@ == spec_model_info(spec_model_order()[i as int]));
            assert(rest[0] == spec_model_order()[i as int]);
            if str_eq_ignore_ascii_case(list[i].model_code.as_str(), s) {
                return Ok(list[i].model);
            }
            assert(rest.drop_first() =~= spec_model_order().skip(i + 1));
            i = i + 1;
        }
        assert(spec_model_order().skip(i as int) =~= Seq::<RerankerModel>::empty());
        let mut msg = String::from_str("Unknown reranker model: ");
        msg.append(s);
        Err(msg)
    }
}

impl std::str::FromStr for RerankerModel {
    type Err = String;

    /// Parses a repository name as [`RerankerModel::from_str`] does.
    fn from_str(s: &str) -> (r: Result<Self, String>)
        ensures
            match r {
                Ok(m) => spec_parse_model(s@) == Some(m),
                Err(e) => spec_parse_model(s@) is None && e@ == unknown_model_message(s@),
            },
    {
        RerankerModel::from_str(s)
    }
}

impl TryFrom<String> for RerankerModel {
    type Error = String;

    /// Parses a repository name as [`RerankerModel::from_str`] does.
    fn try_from(value: String) -> (r: Result<Self, String>)
        ensures
            match r {
                Ok(m) => spec_parse_model(value@) == Some(m),
                Err(e) => spec_parse_model(value@) is None && e@ == unknown_model_message(value@),
            },
    {
        RerankerModel::from_str(value.as_str())
    }
}

/// The std conversion claims no fixed value: an error carries a freshly built
/// message, so `try_from` states its result through its own `ensures`.
impl vstd::std_specs::convert::TryFromSpecImpl<String> for RerankerModel {
    open spec fn obeys_try_from_spec() -> bool {
        false
    }

    open spec fn try_from_spec(v: String) -> Result<Self, String> {
        arbitrary()
    }
}

} // verus!
