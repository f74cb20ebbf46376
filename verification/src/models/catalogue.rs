//! Laws of the built-in model catalogue: what each entry holds, and how the
//! entries that share a repository relate.
use crate::ascii::{ascii_lower, eq_ignore_ascii_case, lemma_eq_ignore_ascii_case_reflexive};
use crate::models::reranking::{
    law_model_list_covers_each_model_once, law_model_list_in_declaration_order, lemma_first_match, spec_model_code,
    spec_model_info, spec_model_order, spec_parse_model, RerankerModel,
};
use vstd::prelude::*;

verus! {

/// Whether a graph file is a model's full-precision graph, `model.onnx`, at the
/// top of the repository or in its `onnx/` folder.
pub open spec fn is_full_precision_graph(file: Seq<char>) -> bool {
    file == "onnx/model.onnx"@ || file == "model.onnx"@
}

/// The catalogue entry of every built-in model: its description, repository,
/// graph file, extra files and prompt template.
pub proof fn law_catalogue(model: RerankerModel)
    ensures
        ({
            let info = spec_model_info(model);
            match model {
            RerankerModel::BGERerankerBase => {
                &&& info.description == "reranker model for English and Chinese"@
                &&& info.model_code == "BAAI/bge-reranker-base"@
                &&& info.model_file == "onnx/model.onnx"@
                &&& info.additional_files == Seq::<Seq<char>>::empty()
                &&& info.prompt_template == None::<Seq<char>>
            },
            RerankerModel::BGERerankerV2M3 => {
                &&& info.description == "reranker model for multilingual"@
                &&& info.model_code == "rozgo/bge-reranker-v2-m3"@
                &&& info.model_file == "model.onnx"@
                &&& info.additional_files == seq!["model.onnx.data"@]
                &&& info.prompt_template == None::<Seq<char>>
            },
            RerankerModel::JINARerankerV1TurboEn => {
                &&& info.description == "reranker model for English"@
                &&& info.model_code == "jinaai/jina-reranker-v1-turbo-en"@
                &&& info.model_file == "onnx/model.onnx"@
                &&& info.additional_files == Seq::<Seq<char>>::empty()
                &&& info.prompt_template == None::<Seq<char>>
            },
            RerankerModel::JINARerankerV2BaseMultiligual => {
                &&& info.description == "Jina reranker v2, multilingual — 278M, 1024 tokens, XLM-RoBERTa (FP32)"@
                &&& info.model_code == "jinaai/jina-reranker-v2-base-multilingual"@
                &&& info.model_file == "onnx/model.onnx"@
                &&& info.additional_files == Seq::<Seq<char>>::empty()
                &&& info.prompt_template == None::<Seq<char>>
            },
            RerankerModel::JINARerankerV2BaseMultilingualInt8 => {
                &&& info.description == "Jina reranker v2, multilingual — 278M, 1024 tokens, XLM-RoBERTa (INT8)"@
                &&& info.model_code == "jinaai/jina-reranker-v2-base-multilingual"@
                &&& info.model_file == "onnx/model_int8.onnx"@
                &&& info.additional_files == Seq::<Seq<char>>::empty()
                &&& info.prompt_template == None::<Seq<char>>
            },
            RerankerModel::JINARerankerV2BaseMultilingualFp16 => {
                &&& info.description == "Jina reranker v2, multilingual — 278M, 1024 tokens, XLM-RoBERTa (FP16). Requires ORT >= 1.23 (`ort = 2.0.0-rc.12+`)."@
                &&& info.model_code == "jinaai/jina-reranker-v2-base-multilingual"@
                &&& info.model_file == "onnx/model_fp16.onnx"@
                &&& info.additional_files == Seq::<Seq<char>>::empty()
                &&& info.prompt_template == None::<Seq<char>>
            },
            RerankerModel::MxbaiRerankXsmallV1 => {
                &&& info.description == "mxbai-rerank-xsmall-v1 — 33M, English, DeBERTa-v3 cross-encoder"@
                &&& info.model_code == "mixedbread-ai/mxbai-rerank-xsmall-v1"@
                &&& info.model_file == "onnx/model.onnx"@
                &&& info.additional_files == Seq::<Seq<char>>::empty()
                &&& info.prompt_template == None::<Seq<char>>
            },
            RerankerModel::MxbaiRerankXsmallV1Q => {
                &&& info.description == "mxbai-rerank-xsmall-v1 INT8 — 33M, English, DeBERTa-v3 cross-encoder"@
                &&& info.model_code == "mixedbread-ai/mxbai-rerank-xsmall-v1"@
                &&& info.model_file == "onnx/model_quantized.onnx"@
                &&& info.additional_files == Seq::<Seq<char>>::empty()
                &&& info.prompt_template == None::<Seq<char>>
            },
            RerankerModel::MxbaiRerankBaseV1 => {
                &&& info.description == "mxbai-rerank-base-v1 — 86M, English, DeBERTa-v3 cross-encoder"@
                &&& info.model_code == "mixedbread-ai/mxbai-rerank-base-v1"@
                &&& info.model_file == "onnx/model.onnx"@
                &&& info.additional_files == Seq::<Seq<char>>::empty()
                &&& info.prompt_template == None::<Seq<char>>
            },
            RerankerModel::MxbaiRerankBaseV1Q => {
                &&& info.description == "mxbai-rerank-base-v1 INT8 — 86M, English, DeBERTa-v3 cross-encoder"@
                &&& info.model_code == "mixedbread-ai/mxbai-rerank-base-v1"@
                &&& info.model_file == "onnx/model_quantized.onnx"@
                &&& info.additional_files == Seq::<Seq<char>>::empty()
                &&& info.prompt_template == None::<Seq<char>>
            },
            RerankerModel::MxbaiRerankLargeV1 => {
                &&& info.description == "mxbai-rerank-large-v1 — 560M, English, DeBERTa-v3-large cross-encoder"@
                &&& info.model_code == "mixedbread-ai/mxbai-rerank-large-v1"@
                &&& info.model_file == "onnx/model.onnx"@
                &&& info.additional_files == Seq::<Seq<char>>::empty()
                &&& info.prompt_template == None::<Seq<char>>
            },
            RerankerModel::MxbaiRerankLargeV1Q => {
                &&& info.description == "mxbai-rerank-large-v1 INT8 — 560M, English, DeBERTa-v3-large cross-encoder"@
                &&& info.model_code == "mixedbread-ai/mxbai-rerank-large-v1"@
                &&& info.model_file == "onnx/model_quantized.onnx"@
                &&& info.additional_files == Seq::<Seq<char>>::empty()
                &&& info.prompt_template == None::<Seq<char>>
            },
            RerankerModel::MsMarcoMiniLML6V2 => {
                &&& info.description == "ms-marco-MiniLM-L-6-v2 — 22M, English, fast BERT cross-encoder"@
                &&& info.model_code == "cross-encoder/ms-marco-MiniLM-L-6-v2"@
                &&& info.model_file == "onnx/model.onnx"@
                &&& info.additional_files == Seq::<Seq<char>>::empty()
                &&& info.prompt_template == None::<Seq<char>>
            },
            RerankerModel::MsMarcoMiniLML12V2 => {
                &&& info.description == "ms-marco-MiniLM-L-12-v2 — 33M, English, BERT cross-encoder"@
                &&& info.model_code == "cross-encoder/ms-marco-MiniLM-L-12-v2"@
                &&& info.model_file == "onnx/model.onnx"@
                &&& info.additional_files == Seq::<Seq<char>>::empty()
                &&& info.prompt_template == None::<Seq<char>>
            },
            RerankerModel::LlamaNemotronRerank1BV2 => {
                &&& info.description == "nvidia/llama-nemotron-rerank-1b-v2 — 1B LLaMA-3.2 bidirectional reranker, multilingual (FP32, 4.6 GB)"@
                &&& info.model_code == "cstr/llama-nemotron-rerank-1b-v2-ONNX"@
                &&& info.model_file == "model.onnx"@
                &&& info.additional_files == seq!["model.onnx_data"@]
                &&& info.prompt_template == None::<Seq<char>>
            },
            RerankerModel::LlamaNemotronRerank1BV2Int4Full => {
                &&& info.description == "nvidia/llama-nemotron-rerank-1b-v2 — INT4 MatMul + INT8 Gather (~832 MB). Block-wise INT4 weights preserve dynamic range; Spearman 0.944 vs PyTorch (LEARNINGS Phase 7).  Requires ORT >= 1.23 (`ort = 2.0.0-rc.12+`)."@
                &&& info.model_code == "cstr/llama-nemotron-rerank-1b-v2-ONNX"@
                &&& info.model_file == "model_int4_full.onnx"@
                &&& info.additional_files == Seq::<Seq<char>>::empty()
                &&& info.prompt_template == None::<Seq<char>>
            },
            RerankerModel::GteRerankerModernBertBase => {
                &&& info.description == "gte-reranker-modernbert-base — 149M, English, 8192 tokens, ModernBERT cross-encoder (FP32, 596 MB)"@
                &&& info.model_code == "Alibaba-NLP/gte-reranker-modernbert-base"@
                &&& info.model_file == "onnx/model.onnx"@
                &&& info.additional_files == Seq::<Seq<char>>::empty()
                &&& info.prompt_template == None::<Seq<char>>
            },
            RerankerModel::GteRerankerModernBertBaseQ => {
                &&& info.description == "gte-reranker-modernbert-base — 149M, English, 8192 tokens, ModernBERT cross-encoder (INT8, 150 MB)"@
                &&& info.model_code == "Alibaba-NLP/gte-reranker-modernbert-base"@
                &&& info.model_file == "onnx/model_int8.onnx"@
                &&& info.additional_files == Seq::<Seq<char>>::empty()
                &&& info.prompt_template == None::<Seq<char>>
            },
            RerankerModel::GteRerankerModernBertBaseQ4F16 => {
                &&& info.description == "gte-reranker-modernbert-base — 149M, English, 8192 tokens, ModernBERT cross-encoder (Q4F16, ~140 MB). Requires ORT >= 1.23 (`ort = 2.0.0-rc.12+`)."@
                &&& info.model_code == "Alibaba-NLP/gte-reranker-modernbert-base"@
                &&& info.model_file == "onnx/model_q4f16.onnx"@
                &&& info.additional_files == Seq::<Seq<char>>::empty()
                &&& info.prompt_template == None::<Seq<char>>
            },
            RerankerModel::ZerankSmall => {
                &&& info.description == "zeroentropy/zerank-1-small — 1.7B Qwen3 reranker, multilingual (FP32 ONNX, ~3.4 GB; batch-broadcast patched)"@
                &&& info.model_code == "cstr/zerank-1-small-ONNX"@
                &&& info.model_file == "model.onnx"@
                &&& info.additional_files == seq!["model.onnx_data"@]
                &&& info.prompt_template == Some("<|im_start|>user\nQuery: {query}\nDocument: {doc}\nRelevant:<|im_end|>\n<|im_start|>assistant\n"@)
            },
            RerankerModel::ZerankSmallInt8 => {
                &&& info.description == "zeroentropy/zerank-1-small — INT8 (~1.7 GB; batch-broadcast patched). Spearman 0.965 vs PyTorch (LEARNINGS Phase 7).  Requires ORT >= 1.23 (`ort = 2.0.0-rc.12+`)."@
                &&& info.model_code == "cstr/zerank-1-small-ONNX"@
                &&& info.model_file == "model_int8.onnx"@
                &&& info.additional_files == seq!["model_int8.onnx_data"@]
                &&& info.prompt_template == Some("<|im_start|>user\nQuery: {query}\nDocument: {doc}\nRelevant:<|im_end|>\n<|im_start|>assistant\n"@)
            },
            RerankerModel::ZerankSmallInt4 => {
                &&& info.description == "zeroentropy/zerank-1-small — INT4 MatMulNBits (~860 MB; batch-broadcast patched). Spearman 0.935 vs PyTorch (LEARNINGS Phase 7).  Requires ORT >= 1.23 (`ort = 2.0.0-rc.12+`)."@
                &&& info.model_code == "cstr/zerank-1-small-ONNX"@
                &&& info.model_file == "model_int4_full.onnx"@
                &&& info.additional_files == Seq::<Seq<char>>::empty()
                &&& info.prompt_template == Some("<|im_start|>user\nQuery: {query}\nDocument: {doc}\nRelevant:<|im_end|>\n<|im_start|>assistant\n"@)
            },
            }
        }),
{
}

/// Each built-in model that is listed first among those sharing its repository
/// loads that repository's full-precision graph; its quantized siblings come after it.
pub proof fn law_first_of_repository_is_full_precision()
    ensures
        forall|i: int|
            0 <= i < spec_model_order().len() && (forall|j: int|
                0 <= j < i ==> spec_model_code(#[trigger] spec_model_order()[j]) != spec_model_code(
                    spec_model_order()[i],
                )) ==> is_full_precision_graph(
                #[trigger] spec_model_info(spec_model_order()[i]).model_file,
            ),
{
    let order = spec_model_order();
    assert forall|i: int|
        0 <= i < order.len() && (forall|j: int|
            0 <= j < i ==> spec_model_code(#[trigger] order[j]) != spec_model_code(order[i])) implies
        is_full_precision_graph(#[trigger] spec_model_info(order[i]).model_file) by {
        if i == 4 {
            assert(spec_model_code(order[3]) == spec_model_code(order[4]));
        }
        if i == 5 {
            assert(spec_model_code(order[3]) == spec_model_code(order[5]));
        }
        if i == 7 {
            assert(spec_model_code(order[6]) == spec_model_code(order[7]));
        }
        if i == 9 {
            assert(spec_model_code(order[8]) == spec_model_code(order[9]));
        }
        if i == 11 {
            assert(spec_model_code(order[10]) == spec_model_code(order[11]));
        }
        if i == 15 {
            assert(spec_model_code(order[14]) == spec_model_code(order[15]));
        }
        if i == 17 {
            assert(spec_model_code(order[16]) == spec_model_code(order[17]));
        }
        if i == 18 {
            assert(spec_model_code(order[16]) == spec_model_code(order[18]));
        }
        if i == 20 {
            assert(spec_model_code(order[19]) == spec_model_code(order[20]));
        }
        if i == 21 {
            assert(spec_model_code(order[19]) == spec_model_code(order[21]));
        }
    }
}

/// No two built-in models load the same graph: models that share a repository
/// (a full-precision model and its quantized variants) have different graph files.
pub proof fn law_distinct_graphs(a: RerankerModel, b: RerankerModel)
    requires
        a != b,
    ensures
        spec_model_code(a) != spec_model_code(b) || spec_model_info(a).model_file != spec_model_info(
            b,
        ).model_file,
{
    reveal_strlit("BAAI/bge-reranker-base");
    reveal_strlit("rozgo/bge-reranker-v2-m3");
    reveal_strlit("jinaai/jina-reranker-v1-turbo-en");
    reveal_strlit("jinaai/jina-reranker-v2-base-multilingual");
    reveal_strlit("mixedbread-ai/mxbai-rerank-xsmall-v1");
    reveal_strlit("mixedbread-ai/mxbai-rerank-base-v1");
    reveal_strlit("mixedbread-ai/mxbai-rerank-large-v1");
    reveal_strlit("cross-encoder/ms-marco-MiniLM-L-6-v2");
    reveal_strlit("cross-encoder/ms-marco-MiniLM-L-12-v2");
    reveal_strlit("cstr/llama-nemotron-rerank-1b-v2-ONNX");
    reveal_strlit("Alibaba-NLP/gte-reranker-modernbert-base");
    reveal_strlit("cstr/zerank-1-small-ONNX");
    reveal_strlit("onnx/model.onnx");
    reveal_strlit("model.onnx");
    reveal_strlit("onnx/model_int8.onnx");
    reveal_strlit("onnx/model_fp16.onnx");
    reveal_strlit("onnx/model_quantized.onnx");
    reveal_strlit("model_int4_full.onnx");
    reveal_strlit("onnx/model_q4f16.onnx");
    reveal_strlit("model_int8.onnx");
    let (ca, cb) = (spec_model_code(a), spec_model_code(b));
    let (fa, fb) = (spec_model_info(a).model_file, spec_model_info(b).model_file);
    if ca == cb && fa == fb {
        assert(ca.len() == cb.len() && ca[0] == cb[0] && ca[1] == cb[1]);
        assert(fa.len() == fb.len() && fa[11] == fb[11]);
    }
}

/// Repository names of built-in models that match without regard to ASCII case are equal.
proof fn lemma_codes_differ_beyond_case(a: RerankerModel, b: RerankerModel)
    ensures
        eq_ignore_ascii_case(spec_model_code(a), spec_model_code(b)) ==> spec_model_code(a)
            == spec_model_code(b),
{
    reveal_strlit("BAAI/bge-reranker-base");
    reveal_strlit("rozgo/bge-reranker-v2-m3");
    reveal_strlit("jinaai/jina-reranker-v1-turbo-en");
    reveal_strlit("jinaai/jina-reranker-v2-base-multilingual");
    reveal_strlit("mixedbread-ai/mxbai-rerank-xsmall-v1");
    reveal_strlit("mixedbread-ai/mxbai-rerank-base-v1");
    reveal_strlit("mixedbread-ai/mxbai-rerank-large-v1");
    reveal_strlit("cross-encoder/ms-marco-MiniLM-L-6-v2");
    reveal_strlit("cross-encoder/ms-marco-MiniLM-L-12-v2");
    reveal_strlit("cstr/llama-nemotron-rerank-1b-v2-ONNX");
    reveal_strlit("Alibaba-NLP/gte-reranker-modernbert-base");
    reveal_strlit("cstr/zerank-1-small-ONNX");
    if eq_ignore_ascii_case(spec_model_code(a), spec_model_code(b)) {
        assert(ascii_lower(spec_model_code(a)[0]) == ascii_lower(spec_model_code(b)[0]));
        assert(ascii_lower(spec_model_code(a)[1]) == ascii_lower(spec_model_code(b)[1]));
    }
}

/// Reading a built-in model's repository name gives the model of that repository
/// that is declared (and listed) first, which loads the repository's
/// full-precision graph: a quantized variant's name reads back as its
/// full-precision sibling.
pub proof fn law_parse_gives_full_precision(model: RerankerModel)
    ensures
        spec_parse_model(spec_model_code(model)) matches Some(found) && {
            &&& spec_model_code(found) == spec_model_code(model)
            &&& found as int <= model as int
            &&& is_full_precision_graph(spec_model_info(found).model_file)
            &&& forall|other: RerankerModel|
                (other as int) < (found as int) ==> spec_model_code(other) != spec_model_code(model)
        },
{
    let order = spec_model_order();
    let s = spec_model_code(model);
    law_model_list_in_declaration_order();
    law_first_of_repository_is_full_precision();
    law_model_list_covers_each_model_once(model);
    let k = choose|k: int| 0 <= k < order.len() && order[k] == model;
    assert(order[k] as int == k);
    lemma_eq_ignore_ascii_case_reflexive(s);
    lemma_first_match(order, s);
    let found = spec_parse_model(s)->0;
    let j = choose|j: int|
        0 <= j < order.len() && order[j] == found && eq_ignore_ascii_case(spec_model_code(found), s)
            && forall|i: int| 0 <= i < j ==> !#[trigger] eq_ignore_ascii_case(spec_model_code(order[i]), s);
    if j > k {
        assert(!eq_ignore_ascii_case(spec_model_code(order[k]), s));
    }
    lemma_codes_differ_beyond_case(found, model);
    assert forall|i: int| 0 <= i < j implies spec_model_code(#[trigger] order[i]) != spec_model_code(order[j]) by {
        assert(!eq_ignore_ascii_case(spec_model_code(order[i]), s));
    }
    assert(order[j] as int == j);
    assert forall|other: RerankerModel| (other as int) < (found as int) implies spec_model_code(other)
        != spec_model_code(model) by {
        law_model_list_covers_each_model_once(other);
        let idx = choose|idx: int| 0 <= idx < order.len() && order[idx] == other;
        assert(order[idx] as int == idx);
        assert(!eq_ignore_ascii_case(spec_model_code(order[idx]), s));
    }
}

/// A built-in model needs at most one extra file, and that file holds the
/// external data of its graph: the graph's file name followed by `.data` or `_data`.
pub proof fn law_extra_files_hold_graph_data(model: RerankerModel)
    ensures
        spec_model_info(model).additional_files.len() <= 1,
        forall|i: int|
            0 <= i < spec_model_info(model).additional_files.len() ==> {
                let extra = #[trigger] spec_model_info(model).additional_files[i];
                let file = spec_model_info(model).model_file;
                extra == file + ".data"@ || extra == file + "_data"@
            },
{
    reveal_strlit("onnx/model.onnx");
    reveal_strlit("model.onnx");
    reveal_strlit("onnx/model_int8.onnx");
    reveal_strlit("onnx/model_fp16.onnx");
    reveal_strlit("onnx/model_quantized.onnx");
    reveal_strlit("model_int4_full.onnx");
    reveal_strlit("onnx/model_q4f16.onnx");
    reveal_strlit("model_int8.onnx");
    reveal_strlit("model.onnx.data");
    reveal_strlit("model.onnx_data");
    reveal_strlit("model_int8.onnx_data");
    reveal_strlit(".data");
    reveal_strlit("_data");
    let info = spec_model_info(model);
    if info.additional_files.len() == 1 {
        let extra = info.additional_files[0];
        assert(extra =~= info.model_file + ".data"@ || extra =~= info.model_file + "_data"@);
    }
}

} // verus!
