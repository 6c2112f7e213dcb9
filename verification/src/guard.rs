//! The authorization guard: one check per invocation, no state.

use crate::host::{
    decode_address, has_address_shape, holds_proof_of, is_address_encoding, Authorization,
    Decoding,
};
use soroban_sdk::{Address, Env};
use vstd::prelude::*;

verus! {

/// Why the guard refused an invocation.
#[derive(Clone, Copy, Debug, PartialEq, Eq, Structural)]
pub enum AuthError {
    /// The address text is not an address encoding that the host accepts.
    AddressDecode,
    /// The address decoded, but the invocation carries no valid proof of
    /// control over it.
    AuthorizationDenied,
    /// The host failed for a reason of its own before it could tell, such as
    /// a spent budget.
    HostFailure,
}

/// What one invocation hands to the guard. Only `address` bears on the
/// outcome. The other five fields are accepted so that callers of a fuller
/// authentication protocol can pass what they have; the guard never reads
/// them. Whether a client domain and its address ought to be bound to the
/// outcome is a matter of policy for whoever integrates the guard: here they
/// are not.
#[derive(Debug)]
pub struct InvocationRequest {
    /// The textual address whose control is to be proved.
    pub address: String,
    /// Inert.
    pub memo: Option<String>,
    /// Inert.
    pub home_domain: Option<String>,
    /// Inert.
    pub web_auth_domain: Option<String>,
    /// Inert.
    pub client_domain: Option<String>,
    /// Inert.
    pub client_domain_address: Option<String>,
}

/// What the guard owes an address text in an authorization context, the set
/// of address texts whose control the invocation proves, where the host does
/// not fail.
pub open spec fn due(text: Seq<char>, context: Set<Seq<char>>) -> Result<(), AuthError> {
    if !is_address_encoding(text) {
        Err(AuthError::AddressDecode)
    } else if context.contains(text) {
        Ok(())
    } else {
        Err(AuthError::AuthorizationDenied)
    }
}

/// What the guard owes a request: what it owes the request's address.
pub open spec fn owed(request: InvocationRequest, context: Set<Seq<char>>) -> Result<
    (),
    AuthError,
> {
    due(request.address@, context)
}

/// Whether `text` has the shape of an address. A text without it is refused
/// before the host is asked.
pub fn has_shape(text: &str) -> (shaped: bool)
    ensures
        shaped == has_address_shape(text@),
{
    if text.unicode_len() != 56 {
        false
    } else {
        let first = text.get_char(0);
        first == 'G' || first == 'C'
    }
}

/// The guard's step after the host's decoder has answered: on with the
/// address, or the refusal that the answer calls for.
pub fn after_decoding(decoding: Decoding) -> (r: Result<Address, AuthError>)
    ensures
        decoding is Decoded ==> r == Ok::<Address, AuthError>(decoding->Decoded_0),
        decoding is Rejected ==> r == Err::<Address, AuthError>(AuthError::AddressDecode),
        decoding is Failed ==> r == Err::<Address, AuthError>(AuthError::HostFailure),
{
    match decoding {
        Decoding::Decoded(address) => Ok(address),
        Decoding::Rejected => Err(AuthError::AddressDecode),
        Decoding::Failed => Err(AuthError::HostFailure),
    }
}

/// The guard's last step, after the host has answered the question of proof.
pub fn after_authorization(authorization: Authorization) -> (r: Result<(), AuthError>)
    ensures
        authorization is Granted ==> r == Ok::<(), AuthError>(()),
        authorization is Refused ==> r == Err::<(), AuthError>(AuthError::AuthorizationDenied),
        authorization is Failed ==> r == Err::<(), AuthError>(AuthError::HostFailure),
{
    match authorization {
        Authorization::Granted => Ok(()),
        Authorization::Refused => Err(AuthError::AuthorizationDenied),
        Authorization::Failed => Err(AuthError::HostFailure),
    }
}

/// An authorization context as a capability: something that can be asked,
/// without being changed, whether it holds proof of control of an address.
pub trait ProofOracle {
    /// Whether the context proves control of the address that `text` encodes.
    spec fn proves(&self, text: Seq<char>) -> bool;

    /// Asks the oracle about `address`.
    fn holds_proof_of(&self, address: &String) -> (proven: bool)
        ensures
            proven == self.proves(address@),
    ;
}

/// The context of the oracle: the address texts that it proves.
pub open spec fn context_of<O: ProofOracle>(oracle: O) -> Set<Seq<char>> {
    Set::new(|text: Seq<char>| oracle.proves(text))
}

/// A context that answers every address alike: it proves all or nothing.
pub struct Settled {
    /// The answer given for every address.
    pub proven: bool,
}

impl ProofOracle for Settled {
    open spec fn proves(&self, text: Seq<char>) -> bool {
        self.proven
    }

    fn holds_proof_of(&self, address: &String) -> (proven: bool) {
        self.proven
    }
}

/// A context that holds proof of control of one address and of no other.
pub struct Holder {
    /// The text of the address that is proved.
    pub address: String,
}

impl ProofOracle for Holder {
    open spec fn proves(&self, text: Seq<char>) -> bool {
        text == self.address@
    }

    fn holds_proof_of(&self, address: &String) -> (proven: bool) {
        *address == self.address
    }
}

/// The contract whose single entry point is the guard.
pub struct WebAuthContract;

impl WebAuthContract {
    /// The entry point. The host that `env` reaches decodes `address`; the
    /// oracle, which the execution environment supplies, answers the
    /// question of proof. `Ok` tells the caller that the invocation is
    /// authorized by `address`. The five parameters after `address` are
    /// inert.
    ///
    /// A text without the shape of an address is refused as undecodable
    /// whatever the oracle holds. For any other text the answer is what is
    /// due to it in the oracle's context, unless the host fails.
    pub fn web_auth_verify<O: ProofOracle>(
        env: Env,
        oracle: &O,
        address: String,
        _memo: Option<String>,
        _home_domain: Option<String>,
        _web_auth_domain: Option<String>,
        _client_domain: Option<String>,
        _client_domain_address: Option<String>,
    ) -> (r: Result<(), AuthError>)
        ensures
            !has_address_shape(address@) ==> r == Err::<(), AuthError>(AuthError::AddressDecode),
            r is Ok ==> is_address_encoding(address@) && oracle.proves(address@),
            r == Err::<(), AuthError>(AuthError::AuthorizationDenied) ==> is_address_encoding(
                address@,
            ) && !oracle.proves(address@),
            r == Err::<(), AuthError>(AuthError::AddressDecode) ==> !is_address_encoding(
                address@,
            ),
    {
        if !has_shape(address.as_str()) {
            return Err(AuthError::AddressDecode);
        }
        match after_decoding(decode_address(&env, address.as_str())) {
            Err(refusal) => Err(refusal),
            Ok(_) => if oracle.holds_proof_of(&address) {
                Ok(())
            } else {
                Err(AuthError::AuthorizationDenied)
            },
        }
    }

    /// Checks one request with the host that `env` reaches as the authority
    /// on both questions: it decodes `request.address` and says whether the
    /// invocation proves control of the decoded address.
    ///
    /// A text without the shape of an address is refused as undecodable. Of
    /// a text with the shape, the host's answers decide, and nothing is
    /// promised of them: its budget may be spent, and a proof that served
    /// one check is spent.
    pub fn verify(env: &Env, request: &InvocationRequest) -> (r: Result<(), AuthError>)
        ensures
            !has_address_shape(request.address@) ==> r == Err::<(), AuthError>(
                AuthError::AddressDecode,
            ),
            r is Ok ==> is_address_encoding(request.address@),
            r == Err::<(), AuthError>(AuthError::AuthorizationDenied) ==> is_address_encoding(
                request.address@,
            ),
            r == Err::<(), AuthError>(AuthError::AddressDecode) ==> !is_address_encoding(
                request.address@,
            ),
    {
        if !has_shape(request.address.as_str()) {
            return Err(AuthError::AddressDecode);
        }
        match after_decoding(decode_address(env, request.address.as_str())) {
            Err(refusal) => Err(refusal),
            Ok(address) => after_authorization(holds_proof_of(&address)),
        }
    }
}

} // verus!
