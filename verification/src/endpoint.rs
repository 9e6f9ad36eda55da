//! The endpoint: the registration records it holds, and the instruction that
//! creates them.

use vstd::prelude::*;
use crate::errors::EndpointError;
use crate::instructions::{RegisterOApp, RegisterOAppParams, SYSTEM_PROGRAM_ID};
use crate::pda::{address_view, find_oapp_registry_address, oapp_registry_address};
use crate::pubkey::Pubkey;
use crate::state::OAppRegistry;

verus! {

/// One record and the address it lives at.
struct Entry {
    address: Pubkey,
    registry: OAppRegistry,
}

/// The registration records that one deployment of the endpoint owns.
///
/// Its view maps the bytes of an address to the record at that address. No
/// address holds more than one record, and a record, once created, is never
/// changed or removed.
pub struct Endpoint {
    program_id: Pubkey,
    entries: Vec<Entry>,
}

impl View for Endpoint {
    type V = Map<Seq<u8>, OAppRegistry>;

    closed spec fn view(&self) -> Map<Seq<u8>, OAppRegistry> {
        Map::new(
            |address: Seq<u8>| self.holds(address),
            |address: Seq<u8>| self.entries@[self.index_of(address)].registry,
        )
    }
}

/// Whether a registration is accepted, given the records that exist, the
/// address derived for the OApp and the accounts passed: the accounts must
/// pass their checks, and no record may exist yet at the record's address.
pub open spec fn registration(
    records: Map<Seq<u8>, OAppRegistry>,
    derived: Option<(Seq<u8>, u8)>,
    accounts: RegisterOApp,
) -> Result<(), EndpointError> {
    match accounts.validation(derived) {
        Err(error) => Err(error),
        Ok(_) => if records.dom().contains(accounts.oapp_registry@) {
            Err(EndpointError::AccountAlreadyInUse)
        } else {
            Ok(())
        },
    }
}

/// The records after a registration: one more where it is accepted, the
/// same where it is rejected.
pub open spec fn registered(
    records: Map<Seq<u8>, OAppRegistry>,
    derived: Option<(Seq<u8>, u8)>,
    accounts: RegisterOApp,
    params: RegisterOAppParams,
) -> Map<Seq<u8>, OAppRegistry> {
    if registration(records, derived, accounts) is Ok {
        records.insert(accounts.oapp_registry@, params.record())
    } else {
        records
    }
}

/// Whether `register_oapp` accepts a registration, given the records that
/// exist: `registration` at the address derived for the OApp of `params`.
pub open spec fn register_oapp_outcome(
    program_id: Pubkey,
    records: Map<Seq<u8>, OAppRegistry>,
    accounts: RegisterOApp,
    params: RegisterOAppParams,
) -> Result<(), EndpointError> {
    registration(records, oapp_registry_address(program_id, params.oapp), accounts)
}

/// The records after `register_oapp`: `registered` at the address derived
/// for the OApp of `params`.
pub open spec fn register_oapp_records(
    program_id: Pubkey,
    records: Map<Seq<u8>, OAppRegistry>,
    accounts: RegisterOApp,
    params: RegisterOAppParams,
) -> Map<Seq<u8>, OAppRegistry> {
    registered(records, oapp_registry_address(program_id, params.oapp), accounts, params)
}

/// Every record lives at the address derived, under `program_id`, from the
/// public key of the OApp that it names.
pub open spec fn located(program_id: Pubkey, records: Map<Seq<u8>, OAppRegistry>) -> bool {
    forall|address: Seq<u8>| #[trigger]
        records.dom().contains(address) ==> (oapp_registry_address(
            program_id,
            records[address].oapp,
        ) matches Some((derived, _)) && derived == address)
}

impl Endpoint {
    #[verifier::type_invariant]
    spec fn distinct_addresses(self) -> bool {
        forall|i: int, j: int|
            0 <= i < j < self.entries@.len() ==> self.entries@[i].address@
                != self.entries@[j].address@
    }

    spec fn holds(self, address: Seq<u8>) -> bool {
        exists|i: int| 0 <= i < self.entries@.len() && self.entries@[i].address@ == address
    }

    spec fn index_of(self, address: Seq<u8>) -> int {
        choose|i: int| 0 <= i < self.entries@.len() && self.entries@[i].address@ == address
    }

    /// The identifier of the program that owns the records.
    pub closed spec fn spec_program_id(&self) -> Pubkey {
        self.program_id
    }

    /// An endpoint deployed under `program_id`, with no record yet.
    pub fn new(program_id: Pubkey) -> (endpoint: Endpoint)
        ensures
            endpoint@ == Map::<Seq<u8>, OAppRegistry>::empty(),
            endpoint.program_id() == program_id,
            located(program_id, endpoint@),
    {
        let endpoint = Endpoint { program_id, entries: Vec::new() };
        assert(endpoint@ =~= Map::<Seq<u8>, OAppRegistry>::empty());
        endpoint
    }

    /// The identifier of the program that owns the records.
    #[verifier::when_used_as_spec(spec_program_id)]
    pub fn program_id(&self) -> (program_id: Pubkey)
        ensures
            program_id == self.spec_program_id(),
    {
        self.program_id
    }

    /// Reads the record at `address`, if there is one.
    pub fn get(&self, address: &Pubkey) -> (found: Option<OAppRegistry>)
        ensures
            found == if self@.dom().contains(address@) {
                Some(self@[address@])
            } else {
                None::<OAppRegistry>
            },
    {
        proof {
            use_type_invariant(self);
        }
        let mut i: usize = 0;
        while i < self.entries.len()
            invariant
                self.distinct_addresses(),
                i <= self.entries@.len(),
                forall|j: int| 0 <= j < i ==> self.entries@[j].address@ != address@,
            decreases self.entries@.len() - i,
        {
            if self.entries[i].address == *address {
                assert(self.holds(address@));
                assert(self.index_of(address@) == i);
                return Some(self.entries[i].registry);
            }
            i += 1;
        }
        assert(!self.holds(address@));
        None
    }

    /// Allocates the record at `address` and initializes it from `params`,
    /// unless a record exists there already.
    pub fn init_oapp_registry(&mut self, address: Pubkey, params: &RegisterOAppParams) -> (created:
        Result<(), EndpointError>)
        ensures
            created == if old(self)@.dom().contains(address@) {
                Err::<(), EndpointError>(EndpointError::AccountAlreadyInUse)
            } else {
                Ok::<(), EndpointError>(())
            },
            final(self)@ == if old(self)@.dom().contains(address@) {
                old(self)@
            } else {
                old(self)@.insert(address@, params.record())
            },
            final(self).program_id() == old(self).program_id(),
    {
        if self.get(&address).is_some() {
            return Err(EndpointError::AccountAlreadyInUse);
        }
        proof {
            use_type_invariant(&*self);
        }
        let mut registry = OAppRegistry::default();
        RegisterOApp::apply(&mut registry, params);
        let ghost before = *self;
        let mut entries: Vec<Entry> = Vec::new();
        core::mem::swap(&mut self.entries, &mut entries);
        entries.push(Entry { address, registry });
        self.entries = entries;
        proof {
            let after = *self;
            let last = before.entries@.len() as int;
            assert(!before.holds(address@));
            assert(after.entries@[last].address@ == address@);
            assert forall|key: Seq<u8>| #[trigger] after@.dom().contains(key) <==> before@.insert(
                address@,
                params.record(),
            ).dom().contains(key) by {
                if before.holds(key) {
                    let i = before.index_of(key);
                    assert(after.entries@[i].address@ == key);
                }
                if key == address@ {
                    assert(after.holds(key));
                }
            }
            assert forall|key: Seq<u8>| #[trigger] after@.dom().contains(key) implies after@[key]
                == before@.insert(address@, params.record())[key] by {
                let i = after.index_of(key);
                if key == address@ {
                    assert(i == last);
                } else {
                    assert(i < last);
                    assert(before.entries@[i].address@ == key);
                    assert(before.holds(key));
                    assert(before.index_of(key) == i);
                }
            }
            assert(after@ =~= before@.insert(address@, params.record()));
        }
        Ok(())
    }
}

/// Registers an OApp, given the address `derived` for its public key:
/// checks the accounts, allocates the record at the record's account and
/// initializes it from `params`. A rejected registration changes nothing.
pub fn register_oapp_at(
    endpoint: &mut Endpoint,
    derived: Option<(Pubkey, u8)>,
    accounts: &RegisterOApp,
    params: &RegisterOAppParams,
) -> (outcome: Result<(), EndpointError>)
    ensures
        outcome == registration(old(endpoint)@, address_view(derived), *accounts),
        final(endpoint)@ == registered(old(endpoint)@, address_view(derived), *accounts, *params),
        final(endpoint).program_id() == old(endpoint).program_id(),
{
    match accounts.validate(derived) {
        Err(error) => Err(error),
        Ok(_) => endpoint.init_oapp_registry(accounts.oapp_registry, params),
    }
}

/// Registers an OApp: derives the address of its record from the domain tag
/// and its public key, checks the accounts against it, and creates the
/// record there with the fields of `params`.
///
/// The registration is accepted exactly when the payer has signed, the
/// allocator is the system program, the record's account is at the derived
/// address, and no record exists there yet. Otherwise the first of these
/// that fails names the error, and the endpoint is left as it was.
pub fn register_oapp(
    endpoint: &mut Endpoint,
    accounts: &RegisterOApp,
    params: RegisterOAppParams,
) -> (outcome: Result<(), EndpointError>)
    ensures
        outcome == register_oapp_outcome(
            old(endpoint).program_id(),
            old(endpoint)@,
            *accounts,
            params,
        ),
        final(endpoint)@ == register_oapp_records(
            old(endpoint).program_id(),
            old(endpoint)@,
            *accounts,
            params,
        ),
        final(endpoint).program_id() == old(endpoint).program_id(),
        located(old(endpoint).program_id(), old(endpoint)@) ==> located(
            final(endpoint).program_id(),
            final(endpoint)@,
        ),
{
    let program_id = endpoint.program_id();
    let derived = find_oapp_registry_address(&program_id, &params.oapp);
    register_oapp_at(endpoint, derived, accounts, &params)
}

/// A first registration succeeds: where the payer has signed, the allocator
/// is the system program, the record's account is at the address derived
/// for the OApp and no record exists there yet, the registration is
/// accepted. It creates at that address a record whose fields are those of
/// the parameters, and changes no other record.
pub proof fn lemma_first_registration_creates_record(
    program_id: Pubkey,
    records: Map<Seq<u8>, OAppRegistry>,
    accounts: RegisterOApp,
    params: RegisterOAppParams,
)
    requires
        accounts.payer_is_signer,
        accounts.system_program@ == SYSTEM_PROGRAM_ID@,
        oapp_registry_address(program_id, params.oapp) matches Some((address, _)) && address
            == accounts.oapp_registry@,
        !records.dom().contains(accounts.oapp_registry@),
    ensures
        register_oapp_outcome(program_id, records, accounts, params) is Ok,
        register_oapp_records(program_id, records, accounts, params).dom()
            == records.dom().insert(accounts.oapp_registry@),
        register_oapp_records(program_id, records, accounts, params)[accounts.oapp_registry@]
            == params.record(),
        forall|address: Seq<u8>| #[trigger]
            records.dom().contains(address) ==> register_oapp_records(
                program_id,
                records,
                accounts,
                params,
            )[address] == records[address],
{
}

/// A second registration fails: once an OApp is registered, every further
/// registration of the same OApp is rejected, whatever accounts and
/// delegate it names, and leaves every record as it was.
pub proof fn lemma_second_registration_rejected(
    program_id: Pubkey,
    records: Map<Seq<u8>, OAppRegistry>,
    accounts: RegisterOApp,
    params: RegisterOAppParams,
    later_accounts: RegisterOApp,
    later_params: RegisterOAppParams,
)
    requires
        register_oapp_outcome(program_id, records, accounts, params) is Ok,
        later_params.oapp == params.oapp,
    ensures
        register_oapp_outcome(
            program_id,
            register_oapp_records(program_id, records, accounts, params),
            later_accounts,
            later_params,
        ) is Err,
        register_oapp_records(
            program_id,
            register_oapp_records(program_id, records, accounts, params),
            later_accounts,
            later_params,
        ) == register_oapp_records(program_id, records, accounts, params),
{
}

/// A record, once created, stays: no registration, accepted or rejected,
/// removes or changes a record that exists.
pub proof fn lemma_records_persist(
    program_id: Pubkey,
    records: Map<Seq<u8>, OAppRegistry>,
    accounts: RegisterOApp,
    params: RegisterOAppParams,
    address: Seq<u8>,
)
    requires
        records.dom().contains(address),
    ensures
        register_oapp_records(program_id, records, accounts, params).dom().contains(address),
        register_oapp_records(program_id, records, accounts, params)[address] == records[address],
{
}

/// An OApp has at most one record: where every record lives at the address
/// derived from its OApp, two records of the same OApp are at the same
/// address.
pub proof fn lemma_one_record_per_oapp(
    program_id: Pubkey,
    records: Map<Seq<u8>, OAppRegistry>,
    address: Seq<u8>,
    other: Seq<u8>,
)
    requires
        located(program_id, records),
        records.dom().contains(address),
        records.dom().contains(other),
        records[address].oapp == records[other].oapp,
    ensures
        address == other,
{
}

} // verus!
