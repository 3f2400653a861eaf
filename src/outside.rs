//! The failure types of the outside crates that the library carries.
use vstd::prelude::*;

verus! {

/// The failure reported by `toml` when a document does not deserialize.
#[verifier::external_type_specification]
#[verifier::external_body]
pub struct ExTomlError(toml::de::Error);

/// The failure reported by `value_ext` when a JSON value lacks what was asked of it.
#[verifier::external_type_specification]
#[verifier::external_body]
pub struct ExJsonValueExtError(value_ext::JsonValueExtError);

/// The failure reported by `serde_json`.
#[verifier::external_type_specification]
#[verifier::external_body]
pub struct ExSerdeJsonError(serde_json::Error);

/// The failure reported by `handlebars` when a template does not render.
#[verifier::external_type_specification]
#[verifier::external_body]
pub struct ExRenderError(handlebars::RenderError);

/// The failure reported by the `genai` backend client.
#[verifier::external_type_specification]
#[verifier::external_body]
pub struct ExGenaiError(genai::Error);

/// The failure reported by `simple_fs`.
#[verifier::external_type_specification]
#[verifier::external_body]
pub struct ExSimpleFsError(simple_fs::Error);

/// The failure reported by the `keyring` credential store.
#[verifier::external_type_specification]
#[verifier::external_body]
pub struct ExKeyringError(keyring::Error);

/// The failure reported by `reqwest`.
#[verifier::external_type_specification]
#[verifier::external_body]
pub struct ExReqwestError(reqwest::Error);

/// An input/output failure of std.
#[verifier::external_type_specification]
#[verifier::external_body]
pub struct ExIoError(std::io::Error);

/// The failure reported by `tokio` when no runtime is active on this thread.
#[verifier::external_type_specification]
#[verifier::external_body]
pub struct ExTryCurrentError(tokio::runtime::TryCurrentError);

} // verus!
