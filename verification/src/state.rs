//! The registration record of an OApp.

use vstd::prelude::*;
use crate::pubkey::{Pubkey, ZEROED};

verus! {

/// The canonical registration record of one OApp.
///
/// It is created by `register_oapp` at the address derived from the OApp's
/// public key, and holds the values the OApp was registered with.
#[derive(Clone, Copy, Debug)]
pub struct OAppRegistry {
    /// The public key of the registered OApp.
    pub oapp: Pubkey,
    /// The authority empowered to manage the OApp's configuration.
    pub delegate: Pubkey,
}

impl Default for OAppRegistry {
    /// The contents of a record's account as the allocator hands it over,
    /// before it is initialized: every byte zero.
    fn default() -> (record: OAppRegistry)
        ensures
            record.oapp.bytes == ZEROED,
            record.delegate.bytes == ZEROED,
    {
        OAppRegistry { oapp: Pubkey::default(), delegate: Pubkey::default() }
    }
}

impl PartialEq for OAppRegistry {
    fn eq(&self, other: &OAppRegistry) -> (same: bool) {
        self.oapp == other.oapp && self.delegate == other.delegate
    }
}

impl Eq for OAppRegistry {

}

impl vstd::std_specs::cmp::PartialEqSpecImpl for OAppRegistry {
    open spec fn obeys_eq_spec() -> bool {
        true
    }

    open spec fn eq_spec(&self, other: &OAppRegistry) -> bool {
        self.oapp@ == other.oapp@ && self.delegate@ == other.delegate@
    }
}

} // verus!
