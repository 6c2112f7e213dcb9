//! An authorization guard for a metered smart-contract host: it has the host
//! decode a textual address and asks whether the current invocation carries
//! proof of control over it.

pub mod guard;
pub mod host;
pub mod laws;

pub use guard::{
    after_authorization, after_decoding, has_shape, AuthError, Holder, InvocationRequest,
    ProofOracle, Settled, WebAuthContract,
};
pub use host::{Authorization, Decoding};
