# fastembed (reranker catalogue, verified)

The reranking side of fastembed: the built-in cross-encoder models, their
repositories and files, how a model is named and parsed back from its name,
and the options a reranker is loaded with. Every function in `src/` is
verified with Verus.

- `src/models/reranking.rs`: `RerankerModel`, `reranker_model_list`, naming and parsing, and their laws.
- `src/ascii.rs`: matching texts without regard to ASCII case.
- `src/reranking/init.rs`: `TextRerank`, load options for user-defined models, `UserDefinedRerankingModel`.
- `src/common.rs`, `src/init.rs`: model sources and the options shared by model families.
- `src/outside.rs`: the types of `ort`, `tokenizers` and std that values carry unopened.
- `app/`: `RerankResult` (it holds a float) and a `Display` wrapper for model names.
