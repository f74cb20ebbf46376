use fastembed::ascii::{chars_of, str_eq_ignore_ascii_case, to_ascii_lower};
use fastembed::{
    reranker_model_list, HasMaxLength, InitOptionsWithLength, OnnxSource, RerankInitOptions,
    RerankInitOptionsUserDefined, RerankerModel, TokenizerFiles, UserDefinedRerankingModel,
    DEFAULT_MAX_LENGTH,
};
use std::path::PathBuf;

fn all_models() -> Vec<RerankerModel> {
    reranker_model_list().into_iter().map(|i| i.model).collect()
}

#[test]
fn model_list_has_every_model_once() {
    let models = all_models();
    assert_eq!(models.len(), 22);
    for (i, a) in models.iter().enumerate() {
        for b in models.iter().skip(i + 1) {
            assert_ne!(a, b);
        }
    }
    assert_eq!(models[0], RerankerModel::BGERerankerBase);
    assert_eq!(models[21], RerankerModel::ZerankSmallInt4);
}

#[test]
fn model_list_entries() {
    let list = reranker_model_list();
    let bge = &list[0];
    assert_eq!(bge.description, "reranker model for English and Chinese");
    assert_eq!(bge.model_code, "BAAI/bge-reranker-base");
    assert_eq!(bge.model_file, "onnx/model.onnx");
    assert!(bge.additional_files.is_empty());
    assert_eq!(bge.prompt_template, None);

    let v2m3 = &list[1];
    assert_eq!(v2m3.model, RerankerModel::BGERerankerV2M3);
    assert_eq!(v2m3.additional_files, vec![String::from("model.onnx.data")]);

    let fp16 = &list[5];
    assert_eq!(fp16.model, RerankerModel::JINARerankerV2BaseMultilingualFp16);
    assert_eq!(
        fp16.description,
        "Jina reranker v2, multilingual — 278M, 1024 tokens, XLM-RoBERTa (FP16). Requires ORT >= 1.23 (`ort = 2.0.0-rc.12+`)."
    );

    let zerank = &list[19];
    assert_eq!(zerank.model, RerankerModel::ZerankSmall);
    assert_eq!(zerank.model_code, "cstr/zerank-1-small-ONNX");
    assert_eq!(zerank.additional_files, vec![String::from("model.onnx_data")]);
    assert_eq!(
        zerank.prompt_template.as_deref(),
        Some("<|im_start|>user\nQuery: {query}\nDocument: {doc}\nRelevant:<|im_end|>\n<|im_start|>assistant\n")
    );
    let int4 = &list[21];
    assert!(int4.additional_files.is_empty());
    assert!(int4.prompt_template.is_some());
}

#[test]
fn default_model_is_bge_reranker_base() {
    assert_eq!(RerankerModel::default(), RerankerModel::BGERerankerBase);
    assert_eq!(RerankerModel::default().to_string(), "BAAI/bge-reranker-base");
}

#[test]
fn to_string_is_the_listed_code() {
    for info in reranker_model_list() {
        assert_eq!(info.model.to_string(), info.model_code);
    }
    assert_eq!(
        RerankerModel::MsMarcoMiniLML12V2.to_string(),
        "cross-encoder/ms-marco-MiniLM-L-12-v2"
    );
}

#[test]
fn from_str_exact_and_case_insensitive() {
    assert_eq!(
        RerankerModel::from_str("BAAI/bge-reranker-base"),
        Ok(RerankerModel::BGERerankerBase)
    );
    assert_eq!(
        RerankerModel::from_str("baai/BGE-RERANKER-BASE"),
        Ok(RerankerModel::BGERerankerBase)
    );
    assert_eq!(
        RerankerModel::from_str("CROSS-ENCODER/MS-MARCO-minilm-l-6-v2"),
        Ok(RerankerModel::MsMarcoMiniLML6V2)
    );
}

#[test]
fn from_str_shared_code_gives_first_listed() {
    assert_eq!(
        RerankerModel::from_str("jinaai/jina-reranker-v2-base-multilingual"),
        Ok(RerankerModel::JINARerankerV2BaseMultiligual)
    );
    assert_eq!(
        RerankerModel::from_str("cstr/zerank-1-small-ONNX"),
        Ok(RerankerModel::ZerankSmall)
    );
}

#[test]
fn from_str_unknown_model_error() {
    assert_eq!(
        RerankerModel::from_str("foo/bar"),
        Err(String::from("Unknown reranker model: foo/bar"))
    );
    assert_eq!(
        RerankerModel::from_str(""),
        Err(String::from("Unknown reranker model: "))
    );
    // Near misses do not match.
    assert!(RerankerModel::from_str("BAAI/bge-reranker-base ").is_err());
    assert!(RerankerModel::from_str("BAAI/bge-reranker").is_err());
}

#[test]
fn parse_and_try_from_agree_with_from_str() {
    let parsed: Result<RerankerModel, String> = "mixedbread-ai/MXBAI-rerank-large-v1".parse();
    assert_eq!(parsed, Ok(RerankerModel::MxbaiRerankLargeV1));
    assert_eq!(
        RerankerModel::try_from(String::from("rozgo/bge-reranker-v2-m3")),
        Ok(RerankerModel::BGERerankerV2M3)
    );
    assert_eq!(
        RerankerModel::try_from(String::from("nope")),
        Err(String::from("Unknown reranker model: nope"))
    );
}

#[test]
fn round_trip_through_the_code() {
    let list = reranker_model_list();
    for (k, info) in list.iter().enumerate() {
        let back = RerankerModel::from_str(&info.model.to_string()).unwrap();
        assert_eq!(back.to_string(), info.model_code);
        let shadowed = list[..k]
            .iter()
            .any(|e| e.model_code.eq_ignore_ascii_case(&info.model_code));
        assert_eq!(back == info.model, !shadowed);
    }
    // A model listed after another with the same repository reads back as the first one.
    assert_eq!(
        RerankerModel::from_str(&RerankerModel::MxbaiRerankBaseV1Q.to_string()),
        Ok(RerankerModel::MxbaiRerankBaseV1)
    );
}

#[test]
fn max_length_of_the_family() {
    assert_eq!(DEFAULT_MAX_LENGTH, 512);
    assert_eq!(<RerankerModel as HasMaxLength>::MAX_LENGTH, 512);
}

#[test]
fn user_defined_options_default() {
    let o = RerankInitOptionsUserDefined::default();
    assert!(o.execution_providers.is_empty());
    assert_eq!(o.max_length, DEFAULT_MAX_LENGTH);
    assert_eq!(o.prompt_template, None);
}

#[test]
fn user_defined_options_from_builtin_options() {
    let opts: RerankInitOptions = InitOptionsWithLength {
        model_name: RerankerModel::ZerankSmall,
        execution_providers: vec![ort::ep::CPU::default().build()],
        cache_dir: PathBuf::from("cache"),
        show_download_progress: false,
        max_length: 1024,
    };
    let u = RerankInitOptionsUserDefined::from(opts);
    assert_eq!(u.max_length, 1024);
    assert_eq!(u.execution_providers.len(), 1);
    assert_eq!(u.prompt_template, None);
}

fn files() -> TokenizerFiles {
    TokenizerFiles {
        tokenizer_file: vec![1],
        config_file: vec![2],
        special_tokens_map_file: vec![3],
        tokenizer_config_file: vec![4],
    }
}

#[test]
fn user_defined_model_from_bytes() {
    let m = UserDefinedRerankingModel::new(vec![7u8, 8, 9], files());
    assert_eq!(m.onnx_source, OnnxSource::Memory(vec![7, 8, 9]));
    assert_eq!(m.tokenizer_files, files());
}

#[test]
fn user_defined_model_from_path() {
    let m = UserDefinedRerankingModel::new(PathBuf::from("model.onnx"), files());
    assert_eq!(m.onnx_source, OnnxSource::File(PathBuf::from("model.onnx")));
}

#[test]
fn ascii_case_folding() {
    assert_eq!(to_ascii_lower('Q'), 'q');
    assert_eq!(to_ascii_lower('A'), 'a');
    assert_eq!(to_ascii_lower('Z'), 'z');
    assert_eq!(to_ascii_lower('q'), 'q');
    assert_eq!(to_ascii_lower('['), '[');
    assert_eq!(to_ascii_lower('É'), 'É');
    assert_eq!(chars_of("aé1"), vec!['a', 'é', '1']);
    assert!(str_eq_ignore_ascii_case("Hello", "hELLO"));
    assert!(!str_eq_ignore_ascii_case("Hello", "Hell"));
    assert!(!str_eq_ignore_ascii_case("É", "é"));
    assert!(str_eq_ignore_ascii_case("", ""));
}
