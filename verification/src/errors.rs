//! Why a registration is rejected.

use vstd::prelude::*;

verus! {

/// The reasons for which `register_oapp` rejects an invocation. A rejected
/// invocation leaves the endpoint as it was.
#[derive(Clone, Copy, Debug, PartialEq, Eq, Structural)]
pub enum EndpointError {
    /// The payer did not sign the transaction.
    AccountNotSigner,
    /// The account passed as the system allocator is not the system program.
    InvalidProgramId,
    /// No address can be derived for the OApp: no bump seed yields one.
    InvalidSeeds,
    /// The account passed for the record is not at the address derived from
    /// the domain tag and the OApp's public key.
    ConstraintSeeds,
    /// A record already exists at the derived address.
    AccountAlreadyInUse,
}

} // verus!
