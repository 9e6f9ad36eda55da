//! Derivation of the address at which an OApp's registration record lives.
//!
//! The address is a program derived address: a one-way function of the seeds
//! `[OAPP_SEED, oapp]` and of the identifier of the program that owns the
//! record. The function itself is the host chain's; this module fixes the
//! seeds and their order, which is what keeps addresses compatible between
//! deployments.

use vstd::prelude::*;
use crate::pubkey::Pubkey;
use crate::OAPP_SEED;

verus! {

/// What `Pubkey::try_find_program_address` of the host chain's SDK returns
/// for a list of seeds and a program identifier: the derived address with
/// its bump seed, or `None` where no address can be derived.
pub uninterp spec fn program_address(seeds: Seq<Seq<u8>>, program_id: Seq<u8>) -> Option<
    (Seq<u8>, u8),
>;

/// The seeds of an OApp's registration record, in derivation order: the
/// domain tag, then the OApp's public key.
pub open spec fn oapp_seeds(oapp: Pubkey) -> Seq<Seq<u8>> {
    seq![OAPP_SEED@, oapp@]
}

/// The address of the registration record of `oapp` under `program_id`, with
/// its bump seed.
pub open spec fn oapp_registry_address(program_id: Pubkey, oapp: Pubkey) -> Option<(Seq<u8>, u8)> {
    program_address(oapp_seeds(oapp), program_id@)
}

/// A derived address and bump seed, by the views of their parts.
pub open spec fn address_view(derived: Option<(Pubkey, u8)>) -> Option<(Seq<u8>, u8)> {
    match derived {
        Some((address, bump)) => Some((address@, bump)),
        None => None,
    }
}

/// Calls `anchor_lang::prelude::Pubkey::try_find_program_address` on the two
/// seeds `tag` and `key`, in this order, and on `program_id`. The type is
/// `solana_program::pubkey::Pubkey`, which `anchor_lang` re-exports.
///
/// Trusted: the result is the one that `program_address` names. The outside
/// function hashes the seeds, a bump seed and the program identifier, and
/// searches the bump seeds from 255 downwards for a hash that is no curve
/// point. It reads nothing but its arguments and does not panic; it returns
/// `None` where a seed is too long or no bump seed fits.
#[verifier::external_body]
fn try_find_program_address(tag: &[u8], key: &[u8], program_id: &Pubkey) -> (derived: Option<
    (Pubkey, u8),
>)
    ensures
        address_view(derived) == program_address(seq![tag@, key@], program_id@),
{
    let id = anchor_lang::prelude::Pubkey::new_from_array(program_id.bytes);
    match anchor_lang::prelude::Pubkey::try_find_program_address(&[tag, key], &id) {
        Some((address, bump)) => Some((Pubkey { bytes: address.to_bytes() }, bump)),
        None => None,
    }
}

/// Derives the address of the registration record of `oapp` under
/// `program_id`.
pub fn find_oapp_registry_address(program_id: &Pubkey, oapp: &Pubkey) -> (derived: Option<
    (Pubkey, u8),
>)
    ensures
        address_view(derived) == oapp_registry_address(*program_id, *oapp),
{
    try_find_program_address(OAPP_SEED.as_slice(), oapp.bytes.as_slice(), program_id)
}

/// Distinct OApps have distinct seeds: the seed list determines the public
/// key it was built from.
pub proof fn lemma_oapp_seeds_injective(oapp: Pubkey, other: Pubkey)
    ensures
        oapp_seeds(oapp) == oapp_seeds(other) <==> oapp == other,
{
    oapp.lemma_view_injective(other);
    if oapp_seeds(oapp) == oapp_seeds(other) {
        assert(oapp_seeds(oapp)[1] == oapp@);
        assert(oapp_seeds(other)[1] == other@);
    }
}

/// Derivation is deterministic: whatever two runs of
/// `find_oapp_registry_address` return for the same program identifier and
/// the same OApp, they return the same address and the same bump seed, or
/// both return none.
pub proof fn lemma_derivation_deterministic(
    program_id: Pubkey,
    oapp: Pubkey,
    first: Option<(Pubkey, u8)>,
    second: Option<(Pubkey, u8)>,
)
    requires
        address_view(first) == oapp_registry_address(program_id, oapp),
        address_view(second) == oapp_registry_address(program_id, oapp),
    ensures
        first == second,
{
    if let Some((address, _)) = first {
        if let Some((other, _)) = second {
            address.lemma_view_injective(other);
        }
    }
}

} // verus!
