//! Types of other crates that values of this library carry unopened.
use vstd::prelude::*;

verus! {

/// `ort::execution_providers::ExecutionProviderDispatch`: one execution provider
/// that an inference session may register. The library only stores and moves
/// such values; nothing is assumed of what is inside one.
#[verifier::external_type_specification]
#[verifier::external_body]
pub struct ExExecutionProviderDispatch(ort::execution_providers::ExecutionProviderDispatch);

/// `ort::session::Session`: a loaded ONNX inference session, held opaque.
#[verifier::external_type_specification]
#[verifier::external_body]
pub struct ExSession(ort::session::Session);

/// `tokenizers::Tokenizer`: a loaded tokenizer, held opaque.
#[verifier::external_type_specification]
#[verifier::external_body]
pub struct ExTokenizer(tokenizers::Tokenizer);

/// `std::path::PathBuf`: a file-system path, held opaque.
#[verifier::external_type_specification]
#[verifier::external_body]
pub struct ExPathBuf(std::path::PathBuf);

/// `Clone::clone` of `std::path::PathBuf`, reached through the derived `Clone`
/// of the library's types that hold a path. Nothing is claimed of the copy.
pub assume_specification[ <std::path::PathBuf as std::clone::Clone>::clone ](
    p: &std::path::PathBuf,
) -> std::path::PathBuf;

} // verus!
