//! The boundary to the host environment. Nothing in this file is proved:
//! each item states what is taken on trust from the host's own code.
//!
//! The SDK's own `Address::from_string` and `Address::require_auth` abort on
//! failure. The host functions behind them return their error instead, and
//! are reached through `Env::host`, which the SDK offers with its `testutils`
//! feature. The error's kind tells a refusal from a failure of the host for
//! reasons of its own.

use soroban_sdk::xdr::{ScErrorCode, ScErrorType};
use soroban_sdk::{Address, Env};
use vstd::prelude::*;

verus! {

/// The handle through which the host environment is reached. Opaque here.
#[verifier::external_type_specification]
#[verifier::external_body]
pub struct ExEnv(soroban_sdk::Env);

/// The host's native address: a decoded cryptographic identity. Opaque here.
#[verifier::external_type_specification]
#[verifier::external_body]
pub struct ExAddress(soroban_sdk::Address);

/// The verdict of the host's address decoder on `text`: whether it reads as
/// the strkey of an account or of a contract, version byte and checksum
/// included. The decoder reads nothing but the text, so its verdict is a
/// property of the text alone.
pub uninterp spec fn host_accepts(text: Seq<char>) -> bool;

/// The part of the address encoding that a glance can check: fifty-six
/// characters, the first of them `G` (an account) or `C` (a contract).
pub open spec fn has_address_shape(text: Seq<char>) -> bool {
    text.len() == 56 && (text[0] == 'G' || text[0] == 'C')
}

/// A valid address encoding: a text of the right shape that the host's
/// decoder accepts.
pub open spec fn is_address_encoding(text: Seq<char>) -> bool {
    has_address_shape(text) && host_accepts(text)
}

/// What the host's decoder made of a text.
pub enum Decoding {
    /// The text is an address encoding, and this is the address.
    Decoded(Address),
    /// The decoder rejected the text as invalid input.
    Rejected,
    /// The host failed for a reason of its own, such as a spent budget.
    Failed,
}

/// What the host answered when asked for proof of control of an address.
pub enum Authorization {
    /// The invocation carries a valid proof.
    Granted,
    /// The host's authorization check refused.
    Refused,
    /// The host failed for a reason of its own, such as a spent budget or a
    /// call outside any invocation.
    Failed,
}

/// Hands `text` to the host as a string object and calls
/// `soroban_env_host::Env::strkey_to_address` on it, the decoder behind
/// `soroban_sdk::Address::from_string`.
///
/// Trusted: an address comes back only for a text that the decoder accepts,
/// and such a text has the shape above (the host compares the length with 56
/// before it decodes, and admits only the account and contract versions,
/// whose first base-32 digit is `G` or `C`). An error of type `Value` with
/// code `InvalidInput` comes back only where the decoder turned the text
/// down: for a wrong length, a text that is no strkey, or a strkey of
/// another kind. The host's other errors on this path (its budget, its
/// object table) have other types. Of `Failed` nothing is claimed.
#[verifier::external_body]
pub(crate) fn decode_address(env: &Env, text: &str) -> (decoding: Decoding)
    ensures
        decoding is Decoded ==> host_accepts(text@) && has_address_shape(text@),
        decoding is Rejected ==> !host_accepts(text@),
{
    let host = env.host();
    let Ok(key) = soroban_sdk::EnvBase::string_new_from_slice(host, text.as_bytes()) else {
        return Decoding::Failed;
    };
    match soroban_env_host::Env::strkey_to_address(host, key.to_val()) {
        Ok(object) => Decoding::Decoded(soroban_sdk::FromVal::from_val(env, &object)),
        Err(e) if e.error.is_type(ScErrorType::Value) && e.error.is_code(
            ScErrorCode::InvalidInput,
        ) => Decoding::Rejected,
        Err(_) => Decoding::Failed,
    }
}

/// Calls `soroban_env_host::Env::require_auth`, the host function behind
/// `soroban_sdk::Address::require_auth`, and reports how it ended: with
/// success, with an error of type `Auth`, or with another error.
///
/// Nothing is claimed of the answer: it depends on the authorizations that
/// the current invocation carries, which only the host can see, and asking
/// may consume one of them.
#[verifier::external_body]
pub(crate) fn holds_proof_of(address: &Address) -> (answer: Authorization) {
    match soroban_env_host::Env::require_auth(address.env().host(), address.to_object()) {
        Ok(_) => Authorization::Granted,
        Err(e) if e.error.is_type(ScErrorType::Auth) => Authorization::Refused,
        Err(_) => Authorization::Failed,
    }
}

} // verus!
