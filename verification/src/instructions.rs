//! The `register_oapp` instruction: its parameters, its accounts, the checks
//! that precede it and the initialization it performs.

use vstd::prelude::*;
use crate::errors::EndpointError;
use crate::pubkey::Pubkey;
use crate::state::OAppRegistry;

verus! {

/// Address of the system program, the allocator of new accounts: 32 zero
/// bytes.
pub const SYSTEM_PROGRAM_ID: [u8; 32] = [
    0, 0, 0, 0, 0, 0, 0, 0, 0, 0, 0, 0, 0, 0, 0, 0, 0, 0, 0, 0, 0, 0, 0, 0, 0, 0, 0, 0, 0, 0, 0, 0,
];

/// What an OApp is registered with.
#[derive(Clone, Copy, Debug)]
pub struct RegisterOAppParams {
    /// The public key of the OApp: its identity.
    pub oapp: Pubkey,
    /// The authority empowered to manage the OApp's configuration.
    pub delegate: Pubkey,
}

/// The accounts of one invocation of `register_oapp`, in their fixed order.
#[derive(Clone, Copy, Debug)]
pub struct RegisterOApp {
    /// The account that pays for the new record.
    pub payer: Pubkey,
    /// Whether the payer signed the transaction.
    pub payer_is_signer: bool,
    /// The account of the new record.
    pub oapp_registry: Pubkey,
    /// The allocator of new accounts.
    pub system_program: Pubkey,
}

impl RegisterOAppParams {
    /// The record that a registration with these parameters creates: every
    /// field is the parameter of the same name.
    pub open spec fn record(self) -> OAppRegistry {
        OAppRegistry { oapp: self.oapp, delegate: self.delegate }
    }
}

impl RegisterOApp {
    /// The outcome of the checks on the accounts, given the address derived
    /// for the OApp: the first check that fails names the error.
    pub open spec fn validation(self, derived: Option<(Seq<u8>, u8)>) -> Result<(), EndpointError> {
        if !self.payer_is_signer {
            Err(EndpointError::AccountNotSigner)
        } else if self.system_program@ != SYSTEM_PROGRAM_ID@ {
            Err(EndpointError::InvalidProgramId)
        } else {
            match derived {
                None => Err(EndpointError::InvalidSeeds),
                Some((address, _)) => if address != self.oapp_registry@ {
                    Err(EndpointError::ConstraintSeeds)
                } else {
                    Ok(())
                },
            }
        }
    }

    /// Checks the accounts against the address `derived` for the OApp: the
    /// payer has signed, the allocator is the system program, and the
    /// record's account is at the derived address.
    pub fn validate(&self, derived: Option<(Pubkey, u8)>) -> (checked: Result<(), EndpointError>)
        ensures
            checked == self.validation(crate::pda::address_view(derived)),
    {
        if !self.payer_is_signer {
            return Err(EndpointError::AccountNotSigner);
        }
        if self.system_program != (Pubkey { bytes: SYSTEM_PROGRAM_ID }) {
            return Err(EndpointError::InvalidProgramId);
        }
        match derived {
            None => Err(EndpointError::InvalidSeeds),
            Some((address, _)) => {
                if address != self.oapp_registry {
                    Err(EndpointError::ConstraintSeeds)
                } else {
                    Ok(())
                }
            },
        }
    }

    /// Initializes a newly allocated record: every field is assigned from
    /// the parameters, verbatim.
    pub fn apply(registry: &mut OAppRegistry, params: &RegisterOAppParams)
        ensures
            *final(registry) == params.record(),
    {
        registry.oapp = params.oapp;
        registry.delegate = params.delegate;
    }
}

} // verus!
