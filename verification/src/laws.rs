//! What holds of the guard on every input. The first laws speak of what is
//! due to an address in an authorization context; the last ones state what
//! the entry point's contract gives, with the oracle's context as the
//! context: `entry` stands there for any result that meets that contract.

use crate::guard::{context_of, due, owed, AuthError, InvocationRequest, ProofOracle};
use crate::host::{has_address_shape, is_address_encoding};
use vstd::prelude::*;

verus! {

/// A valid address encoding whose control the context proves passes.
pub proof fn law_proven_address_passes(text: Seq<char>, context: Set<Seq<char>>)
    requires
        is_address_encoding(text),
        context.contains(text),
    ensures
        due(text, context) == Ok::<(), AuthError>(()),
{
}

/// A valid address encoding whose control the context does not prove is
/// denied.
pub proof fn law_unproven_address_denied(text: Seq<char>, context: Set<Seq<char>>)
    requires
        is_address_encoding(text),
        !context.contains(text),
    ensures
        due(text, context) == Err::<(), AuthError>(AuthError::AuthorizationDenied),
{
}

/// A text that is no valid address encoding is rejected as undecodable in
/// every context, also in one that proves control of that very text or of
/// anything else. A text without the shape of an address is such a text.
pub proof fn law_malformed_address_rejected(text: Seq<char>, context: Set<Seq<char>>)
    requires
        !is_address_encoding(text) || !has_address_shape(text),
    ensures
        due(text, context) == Err::<(), AuthError>(AuthError::AddressDecode),
{
}

/// The five inert fields never change what is owed: two requests with one
/// address are owed the same in one context, and each is owed what the
/// request with that address and all five fields absent is owed.
pub proof fn law_inert_fields_ignored(
    one: InvocationRequest,
    other: InvocationRequest,
    context: Set<Seq<char>>,
)
    requires
        one.address@ == other.address@,
    ensures
        owed(one, context) == owed(other, context),
        owed(one, context) == owed(
            (InvocationRequest {
                address: one.address,
                memo: None,
                home_domain: None,
                web_auth_domain: None,
                client_domain: None,
                client_domain_address: None,
            }),
            context,
        ),
{
}

/// Whether `entry` meets the contract of the entry point for `address` and
/// `oracle`.
pub open spec fn meets_entry_contract<O: ProofOracle>(
    entry: Result<(), AuthError>,
    oracle: O,
    address: Seq<char>,
) -> bool {
    &&& !has_address_shape(address) ==> entry == Err::<(), AuthError>(AuthError::AddressDecode)
    &&& entry is Ok ==> is_address_encoding(address) && oracle.proves(address)
    &&& entry == Err::<(), AuthError>(AuthError::AuthorizationDenied) ==> is_address_encoding(
        address,
    ) && !oracle.proves(address)
    &&& entry == Err::<(), AuthError>(AuthError::AddressDecode) ==> !is_address_encoding(address)
}

/// Unless the host fails, the entry point gives what is due to the address
/// in the oracle's context: success for a valid address that the oracle
/// proves, denial for a valid one that it does not, and the decode error for
/// a text that is no valid encoding, whatever the oracle proves.
pub proof fn law_entry_gives_what_is_due<O: ProofOracle>(
    entry: Result<(), AuthError>,
    oracle: O,
    address: Seq<char>,
)
    requires
        meets_entry_contract(entry, oracle, address),
        entry != Err::<(), AuthError>(AuthError::HostFailure),
    ensures
        entry == due(address, context_of(oracle)),
        is_address_encoding(address) && oracle.proves(address) ==> entry == Ok::<(), AuthError>(
            (),
        ),
        is_address_encoding(address) && !oracle.proves(address) ==> entry == Err::<
            (),
            AuthError,
        >(AuthError::AuthorizationDenied),
        !is_address_encoding(address) ==> entry == Err::<(), AuthError>(AuthError::AddressDecode),
{
    assert(context_of(oracle).contains(address) == oracle.proves(address));
    match entry {
        Ok(unit) => {
            assert(unit == ());
            assert(entry == Ok::<(), AuthError>(()));
        },
        Err(AuthError::AddressDecode) => {
            assert(entry == Err::<(), AuthError>(AuthError::AddressDecode));
        },
        Err(AuthError::AuthorizationDenied) => {
            assert(entry == Err::<(), AuthError>(AuthError::AuthorizationDenied));
        },
        Err(AuthError::HostFailure) => {
            assert(entry == Err::<(), AuthError>(AuthError::HostFailure));
        },
    }
}

/// No oracle passes a text that is no valid address encoding, and none has
/// it denied: also where the host fails.
pub proof fn law_entry_never_passes_malformed<O: ProofOracle>(
    entry: Result<(), AuthError>,
    oracle: O,
    address: Seq<char>,
)
    requires
        meets_entry_contract(entry, oracle, address),
        !is_address_encoding(address),
    ensures
        entry is Err,
        entry != Err::<(), AuthError>(AuthError::AuthorizationDenied),
        !has_address_shape(address) ==> entry == Err::<(), AuthError>(AuthError::AddressDecode),
{
}

/// Two calls of the entry point with one oracle and one address, whatever
/// inert values each carries, end alike unless the host fails in one of
/// them.
pub proof fn law_entry_repeats<O: ProofOracle>(
    first: Result<(), AuthError>,
    second: Result<(), AuthError>,
    oracle: O,
    address: Seq<char>,
)
    requires
        meets_entry_contract(first, oracle, address),
        meets_entry_contract(second, oracle, address),
        first != Err::<(), AuthError>(AuthError::HostFailure),
        second != Err::<(), AuthError>(AuthError::HostFailure),
    ensures
        first == second,
{
    law_entry_gives_what_is_due(first, oracle, address);
    law_entry_gives_what_is_due(second, oracle, address);
}

} // verus!
