//! The one value that an application keeps from run to run.
//!
//! The value is kept as JSON text under a fixed key of the host's key-value
//! storage. Reading and writing that storage is the host's part. The host
//! reads the text once, before the first frame, and [`restore`] decodes it;
//! a state that wants its value kept hands it to
//! [`crate::state::Context::set_storage`], which encodes it and hands back
//! what the host has to write: a [`StoredText`].

use vstd::prelude::*;

verus! {

/// The key under which the value is kept.
pub const STORAGE_KEY: &'static str = "data";

/// A text and the key under which the host has to keep it, in place of what
/// it keeps there.
#[derive(Debug, Clone, PartialEq, Eq)]
#[must_use]
pub struct StoredText {
    pub key: &'static str,
    pub text: String,
}

/// Why a value was not stored.
#[derive(Debug, Clone, Copy, PartialEq, Eq, Structural)]
pub enum StorageError {
    /// The value cannot be written as JSON.
    Unserializable,
}

/// `serde_json::Error`: why JSON text was not read or written. Nothing is
/// looked at inside it.
#[verifier::external_type_specification]
#[verifier::external_body]
pub struct ExJsonError(serde_json::Error);

/// `serde_json::from_str`: reads a value of type `D` from JSON text, or says
/// why the text does not hold one. Nothing is claimed of which texts are
/// accepted nor of the value that comes out.
#[verifier::external_body]
fn from_json<D: serde::de::DeserializeOwned>(text: &str) -> (r: Result<D, serde_json::Error>) {
    serde_json::from_str(text)
}

/// `serde_json::to_string`: writes `value` as JSON text, or says why it
/// cannot be written. Nothing is claimed of the text.
#[verifier::external_body]
pub(crate) fn to_json<D: serde::Serialize>(value: &D) -> (r: Result<String, serde_json::Error>) {
    serde_json::to_string(value)
}

/// The value that a decoding attempt stands for: the decoded value, or the
/// type's default where there was nothing to decode or decoding failed.
pub fn decoded_or_default<D: Default, E>(decoded: Option<Result<D, E>>) -> (r: D)
    ensures
        decoded matches Some(Ok(value)) ==> r == value,
        !(decoded matches Some(Ok(_))) ==> D::default.ensures((), r),
{
    match decoded {
        Some(Ok(value)) => value,
        _ => D::default(),
    }
}

/// The value to start with, given what the storage held: the stored value,
/// or the type's default where nothing was stored or what was stored cannot
/// be read.
pub fn restore<D: Default + serde::de::DeserializeOwned>(stored: Option<&str>) -> (r: D)
    ensures
        stored is None ==> D::default.ensures((), r),
{
    let decoded = match stored {
        Some(text) => Some(from_json::<D>(text)),
        None => None,
    };
    decoded_or_default(decoded)
}

} // verus!
