//! The oracle adapter: a registry of trusted oracles and the confirmations
//! they have signed, at most one per oracle and escrow.

use vstd::prelude::*;
use crate::address::Address;
use crate::confirmation::{views, ConfirmationData, ConfirmationView};
use crate::digest::{ed25519_accepts_strict, sha256, spec_ed25519_accepts_strict, spec_sha256};

verus! {

/// Why an operation of the oracle adapter was refused.
#[derive(Clone, Copy, Debug, PartialEq, Eq, Structural)]
pub enum ContractError {
    Unauthorized,
    AlreadyInitialized,
    OracleNotRegistered,
    OracleAlreadyRegistered,
    InvalidSignature,
    ConfirmationAlreadyExists,
    EscrowNotFound,
    InvalidEventType,
}

impl ContractError {
    /// The number under which the error crosses the contract boundary.
    pub open spec fn spec_code(self) -> u32 {
        match self {
            ContractError::Unauthorized => 1,
            ContractError::AlreadyInitialized => 2,
            ContractError::OracleNotRegistered => 3,
            ContractError::OracleAlreadyRegistered => 4,
            ContractError::InvalidSignature => 5,
            ContractError::ConfirmationAlreadyExists => 6,
            ContractError::EscrowNotFound => 7,
            ContractError::InvalidEventType => 8,
        }
    }

    /// The number under which the error crosses the contract boundary.
    pub fn code(&self) -> (res: u32)
        ensures
            res == self.spec_code(),
    {
        match self {
            ContractError::Unauthorized => 1,
            ContractError::AlreadyInitialized => 2,
            ContractError::OracleNotRegistered => 3,
            ContractError::OracleAlreadyRegistered => 4,
            ContractError::InvalidSignature => 5,
            ContractError::ConfirmationAlreadyExists => 6,
            ContractError::EscrowNotFound => 7,
            ContractError::InvalidEventType => 8,
        }
    }
}

/// The kinds of event an oracle can attest.
#[derive(Clone, Copy, Debug, PartialEq, Eq, Structural)]
pub enum EventType {
    Shipment,
    Delivery,
    Quality,
    Custom,
}

impl EventType {
    /// The number that stands for the event type in a confirmation.
    pub open spec fn spec_code(self) -> u32 {
        match self {
            EventType::Shipment => 1,
            EventType::Delivery => 2,
            EventType::Quality => 3,
            EventType::Custom => 4,
        }
    }

    /// The number that stands for the event type in a confirmation.
    pub fn code(&self) -> (res: u32)
        ensures
            res == self.spec_code(),
            1 <= res <= 4,
    {
        match self {
            EventType::Shipment => 1,
            EventType::Delivery => 2,
            EventType::Quality => 3,
            EventType::Custom => 4,
        }
    }

    /// The event type that a number stands for: the numbers 1 to 4 stand for
    /// one each, no other number does.
    pub fn from_code(code: u32) -> (res: Option<EventType>)
        ensures
            valid_event_type(code) ==> res is Some && res->Some_0.spec_code() == code,
            !valid_event_type(code) ==> res is None,
    {
        if code == 1 {
            Some(EventType::Shipment)
        } else if code == 2 {
            Some(EventType::Delivery)
        } else if code == 3 {
            Some(EventType::Quality)
        } else if code == 4 {
            Some(EventType::Custom)
        } else {
            None
        }
    }
}

/// Whether a number stands for an event type.
pub open spec fn valid_event_type(code: u32) -> bool {
    1 <= code <= 4
}

/// The adapter's configuration: its admin and the registered oracles, in
/// order of registration.
#[derive(Debug)]
pub struct ContractData {
    pub admin: Address,
    pub initialized: bool,
    pub oracles: Vec<Address>,
}

/// What the adapter announces when a transition succeeds.
#[derive(Debug, PartialEq, Eq)]
pub enum AdapterEvent {
    Initialized { admin: Address },
    OracleAdded { oracle: Address },
    OracleRemoved { oracle: Address },
    Confirmed { escrow_id: Vec<u8>, event_type: u32, result: Vec<u8>, oracle: Address },
}

/// The oracle registry with the confirmations recorded so far.
#[derive(Debug)]
pub struct OracleAdapter {
    /// Whether the configuration was ever written. Until then the admin is
    /// the all-zero address and no oracle is registered.
    pub has_data: bool,
    pub data: ContractData,
    /// Every confirmation ever recorded, in order of arrival.
    pub confirmations: Vec<ConfirmationData>,
}

/// The four bytes of a number, most significant first.
pub open spec fn spec_be_bytes(v: u32) -> Seq<u8> {
    seq![
        (v / 0x100_0000) as u8,
        ((v / 0x1_0000) % 0x100) as u8,
        ((v / 0x100) % 0x100) as u8,
        (v % 0x100) as u8,
    ]
}

/// The canonical byte string an oracle signs the digest of: the escrow id,
/// then the event type as four big-endian bytes, then the result.
pub open spec fn spec_message_bytes(escrow_id: Seq<u8>, event_type: u32, result: Seq<u8>) -> Seq<
    u8,
> {
    escrow_id + spec_be_bytes(event_type) + result
}

/// The message an oracle signs: the SHA-256 digest of the canonical bytes.
pub open spec fn spec_message(escrow_id: Seq<u8>, event_type: u32, result: Seq<u8>) -> Seq<u8> {
    spec_sha256(spec_message_bytes(escrow_id, event_type, result))
}

/// Whether the canonical byte string of a confirmation fits a byte string
/// of the ledger, which holds at most `u32::MAX` bytes.
pub open spec fn spec_message_fits(escrow_id: Seq<u8>, result: Seq<u8>) -> bool {
    escrow_id.len() + 4 + result.len() <= u32::MAX
}

/// Whether a confirmation's signature is valid: the message can be built,
/// and the signature is accepted for it under the oracle's key by the
/// strict rule of the ledger.
pub open spec fn spec_signature_valid(
    oracle: Address,
    escrow_id: Seq<u8>,
    event_type: u32,
    result: Seq<u8>,
    signature: Seq<u8>,
) -> bool {
    spec_message_fits(escrow_id, result) && spec_ed25519_accepts_strict(
        oracle.key@,
        spec_message(escrow_id, event_type, result),
        signature,
    )
}

/// Whether two byte strings are the same.
pub fn bytes_equal(a: &Vec<u8>, b: &Vec<u8>) -> (res: bool)
    ensures
        res == (a@ == b@),
{
    if a.len() != b.len() {
        return false;
    }
    let mut i: usize = 0;
    while i < a.len()
        invariant
            i <= a@.len(),
            a@.len() == b@.len(),
            forall|j: int| 0 <= j < i ==> a@[j] == b@[j],
        decreases a@.len() - i,
    {
        if a[i] != b[i] {
            return false;
        }
        i += 1;
    }
    proof {
        assert(a@ =~= b@);
    }
    true
}

/// A copy of a byte string.
pub fn copy_bytes(a: &Vec<u8>) -> (res: Vec<u8>)
    ensures
        res@ == a@,
{
    let mut out: Vec<u8> = Vec::new();
    let mut i: usize = 0;
    while i < a.len()
        invariant
            i <= a@.len(),
            out@ == a@.take(i as int),
        decreases a@.len() - i,
    {
        out.push(a[i]);
        proof {
            assert(out@ =~= a@.take(i + 1));
        }
        i += 1;
    }
    proof {
        assert(a@.take(a@.len() as int) =~= a@);
    }
    out
}

/// Builds the canonical byte string of a confirmation.
pub fn message_bytes(escrow_id: &Vec<u8>, event_type: u32, result: &Vec<u8>) -> (res: Vec<u8>)
    ensures
        res@ == spec_message_bytes(escrow_id@, event_type, result@),
{
    let mut out: Vec<u8> = copy_bytes(escrow_id);
    out.push((event_type / 0x100_0000) as u8);
    out.push(((event_type / 0x1_0000) % 0x100) as u8);
    out.push(((event_type / 0x100) % 0x100) as u8);
    out.push((event_type % 0x100) as u8);
    proof {
        assert(out@ =~= escrow_id@ + spec_be_bytes(event_type));
    }
    let ghost head = out@;
    let mut i: usize = 0;
    while i < result.len()
        invariant
            i <= result@.len(),
            out@ == head + result@.take(i as int),
        decreases result@.len() - i,
    {
        out.push(result[i]);
        proof {
            assert(out@ =~= head + result@.take(i + 1));
        }
        i += 1;
    }
    proof {
        assert(result@.take(result@.len() as int) =~= result@);
    }
    out
}

impl ConfirmationData {
    /// A copy of the confirmation.
    pub fn duplicate(&self) -> (res: ConfirmationData)
        ensures
            res@ == self@,
    {
        ConfirmationData {
            escrow_id: copy_bytes(&self.escrow_id),
            event_type: self.event_type,
            result: copy_bytes(&self.result),
            oracle: self.oracle,
            timestamp: self.timestamp,
            verified: self.verified,
        }
    }
}

impl OracleAdapter {
    /// The adapter's invariant: before the configuration is written the admin
    /// is the zero address and the registry is empty; no oracle is registered
    /// twice; no oracle has confirmed the same escrow twice; every recorded
    /// confirmation is verified and of a valid event type.
    pub open spec fn wf(self) -> bool {
        &&& !self.has_data ==> self.data.admin.is_zero() && !self.data.initialized
            && self.data.oracles@.len() == 0
        &&& self.data.oracles@.len() <= u32::MAX
        &&& forall|i: int, j: int|
            0 <= i < j < self.data.oracles@.len() ==> self.data.oracles@[i]
                != self.data.oracles@[j]
        &&& forall|i: int, j: int|
            0 <= i < j < self.confirmations@.len() ==> !(self.confirmations@[i].escrow_id@
                == self.confirmations@[j].escrow_id@ && self.confirmations@[i].oracle
                == self.confirmations@[j].oracle)
        &&& forall|i: int|
            0 <= i < self.confirmations@.len() ==> (#[trigger] self.confirmations@[i]).verified
                && valid_event_type(self.confirmations@[i].event_type)
    }

    /// Whether the oracle is in the registry.
    pub open spec fn is_registered(self, oracle: Address) -> bool {
        self.data.oracles@.contains(oracle)
    }

    /// Whether the confirmation at index `i` is the one of `oracle` for
    /// `escrow_id`.
    pub open spec fn is_entry(self, i: int, escrow_id: Seq<u8>, oracle: Address) -> bool {
        0 <= i < self.confirmations@.len() && self.confirmations@[i].escrow_id@ == escrow_id
            && self.confirmations@[i].oracle == oracle
    }

    /// Whether `oracle` has confirmed `escrow_id`.
    pub open spec fn has_confirmation(self, escrow_id: Seq<u8>, oracle: Address) -> bool {
        exists|i: int| self.is_entry(i, escrow_id, oracle)
    }

    /// The confirmation of `oracle` for `escrow_id`.
    pub open spec fn confirmation_of(self, escrow_id: Seq<u8>, oracle: Address) -> ConfirmationData
        recommends
            self.has_confirmation(escrow_id, oracle),
    {
        self.confirmations@[choose|i: int| self.is_entry(i, escrow_id, oracle)]
    }

    /// The confirmations for `escrow_id` of the first `n` registered oracles,
    /// in the order of the registry.
    pub open spec fn collected(self, escrow_id: Seq<u8>, n: nat) -> Seq<ConfirmationView>
        decreases n,
    {
        if n == 0 {
            Seq::empty()
        } else {
            let earlier = self.collected(escrow_id, (n - 1) as nat);
            let oracle = self.data.oracles@[n - 1];
            if self.has_confirmation(escrow_id, oracle) {
                earlier.push(self.confirmation_of(escrow_id, oracle)@)
            } else {
                earlier
            }
        }
    }

    /// Whether `later` can follow `self`: every confirmation recorded is
    /// still there, unchanged and in its place.
    pub open spec fn precedes(self, later: OracleAdapter) -> bool {
        &&& self.confirmations@.len() <= later.confirmations@.len()
        &&& forall|i: int|
            0 <= i < self.confirmations@.len() ==> later.confirmations@[i]
                == self.confirmations@[i]
    }

    /// Why an admin operation on `oracle` is refused before it looks at the
    /// registry, if it is.
    pub open spec fn admin_error(self, caller: Address) -> Option<ContractError> {
        if caller != self.data.admin {
            Some(ContractError::Unauthorized)
        } else {
            None
        }
    }

    /// Why a confirmation is refused, if it is. `signature_valid` says
    /// whether the oracle's signature on the message was accepted.
    pub open spec fn confirm_error(
        self,
        caller: Address,
        escrow_id: Seq<u8>,
        event_type: u32,
        signature_valid: bool,
    ) -> Option<ContractError> {
        if !self.is_registered(caller) {
            Some(ContractError::OracleNotRegistered)
        } else if !valid_event_type(event_type) {
            Some(ContractError::InvalidEventType)
        } else if self.has_confirmation(escrow_id, caller) {
            Some(ContractError::ConfirmationAlreadyExists)
        } else if !signature_valid {
            Some(ContractError::InvalidSignature)
        } else {
            None
        }
    }

    /// An adapter whose configuration was never written.
    pub fn new() -> (res: OracleAdapter)
        ensures
            res.wf(),
            !res.has_data,
            res.confirmations@.len() == 0,
    {
        OracleAdapter {
            has_data: false,
            data: ContractData { admin: Address::zero(), initialized: false, oracles: Vec::new() },
            confirmations: Vec::new(),
        }
    }

    /// Sets the admin and starts with an empty registry. Fails with
    /// `AlreadyInitialized` once the configuration was written.
    pub fn initialize(&mut self, admin: Address) -> (res: Result<AdapterEvent, ContractError>)
        requires
            old(self).wf(),
        ensures
            final(self).wf(),
            final(self).confirmations == old(self).confirmations,
            old(self).has_data ==> res == Err::<AdapterEvent, ContractError>(
                ContractError::AlreadyInitialized,
            ) && *final(self) == *old(self),
            !old(self).has_data ==> {
                &&& res == Ok::<AdapterEvent, ContractError>(AdapterEvent::Initialized { admin })
                &&& final(self).has_data
                &&& final(self).data.admin == admin
                &&& final(self).data.initialized
                &&& final(self).data.oracles@.len() == 0
            },
    {
        if self.has_data {
            return Err(ContractError::AlreadyInitialized);
        }
        self.has_data = true;
        self.data.admin = admin;
        self.data.initialized = true;
        Ok(AdapterEvent::Initialized { admin })
    }

    /// The configuration: before it is written, the zero admin and an empty
    /// registry.
    pub fn get_contract_data(&self) -> (res: &ContractData)
        ensures
            *res == self.data,
    {
        &self.data
    }

    fn check_admin(&self, caller: &Address) -> (res: Result<(), ContractError>)
        ensures
            match self.admin_error(*caller) {
                Some(e) => res == Err::<(), ContractError>(e),
                None => res is Ok,
            },
    {
        if !caller.same(&self.data.admin) {
            return Err(ContractError::Unauthorized);
        }
        Ok(())
    }

    /// The place of the oracle in the registry, if it is registered.
    fn position_of(&self, oracle: &Address) -> (res: Option<usize>)
        ensures
            match res {
                Some(i) => i < self.data.oracles@.len() && self.data.oracles@[i as int] == *oracle,
                None => !self.is_registered(*oracle),
            },
    {
        let mut i: usize = 0;
        while i < self.data.oracles.len()
            invariant
                i <= self.data.oracles@.len(),
                forall|j: int| 0 <= j < i ==> self.data.oracles@[j] != *oracle,
            decreases self.data.oracles@.len() - i,
        {
            if self.data.oracles[i].same(oracle) {
                return Some(i);
            }
            i += 1;
        }
        None
    }

    fn is_oracle_registered(&self, oracle: &Address) -> (res: bool)
        ensures
            res == self.is_registered(*oracle),
    {
        self.position_of(oracle).is_some()
    }

    /// Adds an oracle at the end of the registry. Only the admin may
    /// (`Unauthorized`); an oracle already registered is refused with
    /// `OracleAlreadyRegistered`.
    pub fn add_oracle(&mut self, caller: &Address, oracle: Address) -> (res: Result<
        AdapterEvent,
        ContractError,
    >)
        requires
            old(self).wf(),
            old(self).data.oracles@.len() < u32::MAX,
        ensures
            final(self).wf(),
            final(self).confirmations == old(self).confirmations,
            final(self).data.admin == old(self).data.admin,
            final(self).data.initialized == old(self).data.initialized,
            old(self).admin_error(*caller) is Some ==> res == Err::<AdapterEvent, ContractError>(
                ContractError::Unauthorized,
            ) && *final(self) == *old(self),
            old(self).admin_error(*caller) is None && old(self).is_registered(oracle) ==> res
                == Err::<AdapterEvent, ContractError>(ContractError::OracleAlreadyRegistered)
                && *final(self) == *old(self),
            old(self).admin_error(*caller) is None && !old(self).is_registered(oracle) ==> {
                &&& res == Ok::<AdapterEvent, ContractError>(AdapterEvent::OracleAdded { oracle })
                &&& final(self).data.oracles@ == old(self).data.oracles@.push(oracle)
                &&& final(self).has_data
            },
    {
        match self.check_admin(caller) {
            Err(e) => {
                return Err(e);
            },
            Ok(_) => {},
        }
        if self.is_oracle_registered(&oracle) {
            return Err(ContractError::OracleAlreadyRegistered);
        }
        self.data.oracles.push(oracle);
        self.has_data = true;
        Ok(AdapterEvent::OracleAdded { oracle })
    }

    /// Takes an oracle out of the registry; the others keep their order.
    /// Only the admin may (`Unauthorized`); an oracle that is not registered
    /// is refused with `OracleNotRegistered`.
    pub fn remove_oracle(&mut self, caller: &Address, oracle: Address) -> (res: Result<
        AdapterEvent,
        ContractError,
    >)
        requires
            old(self).wf(),
        ensures
            final(self).wf(),
            final(self).confirmations == old(self).confirmations,
            final(self).data.admin == old(self).data.admin,
            final(self).data.initialized == old(self).data.initialized,
            old(self).admin_error(*caller) is Some ==> res == Err::<AdapterEvent, ContractError>(
                ContractError::Unauthorized,
            ) && *final(self) == *old(self),
            old(self).admin_error(*caller) is None && !old(self).is_registered(oracle) ==> res
                == Err::<AdapterEvent, ContractError>(ContractError::OracleNotRegistered)
                && *final(self) == *old(self),
            old(self).admin_error(*caller) is None && old(self).is_registered(oracle) ==> {
                &&& res == Ok::<AdapterEvent, ContractError>(AdapterEvent::OracleRemoved { oracle })
                &&& final(self).data.oracles@ == old(self).data.oracles@.remove(
                    old(self).data.oracles@.index_of(oracle),
                )
                &&& !final(self).is_registered(oracle)
                &&& forall|other: Address|
                    other != oracle ==> (final(self).is_registered(other) <==> old(
                        self,
                    ).is_registered(other))
                &&& final(self).has_data
            },
    {
        match self.check_admin(caller) {
            Err(e) => {
                return Err(e);
            },
            Ok(_) => {},
        }
        match self.position_of(&oracle) {
            None => Err(ContractError::OracleNotRegistered),
            Some(i) => {
                let ghost before = self.data.oracles@;
                proof {
                    let k = before.index_of(oracle);
                    assert(before.contains(oracle));
                    assert(0 <= k < before.len() && before[k] == oracle);
                    assert(k == i);
                }
                self.data.oracles.remove(i);
                self.has_data = true;
                proof {
                    let after = self.data.oracles@;
                    assert forall|j: int| 0 <= j < after.len() implies after[j] != oracle by {
                        if j < i {
                            assert(after[j] == before[j]);
                        } else {
                            assert(after[j] == before[j + 1]);
                        }
                    }
                    assert forall|other: Address| other != oracle implies (after.contains(other)
                        <==> before.contains(other)) by {
                        if before.contains(other) {
                            let k = before.index_of(other);
                            assert(0 <= k < before.len() && before[k] == other);
                            if k < i {
                                assert(after[k] == other);
                            } else {
                                assert(after[k - 1] == other);
                            }
                        }
                        if after.contains(other) {
                            let k = after.index_of(other);
                            assert(0 <= k < after.len() && after[k] == other);
                            if k < i {
                                assert(before[k] == other);
                            } else {
                                assert(before[k + 1] == other);
                            }
                        }
                    }
                }
                Ok(AdapterEvent::OracleRemoved { oracle })
            },
        }
    }

    /// The index of the confirmation of `oracle` for `escrow_id`, if there is
    /// one.
    fn find_confirmation(&self, escrow_id: &Vec<u8>, oracle: &Address) -> (res: Option<usize>)
        ensures
            match res {
                Some(i) => self.is_entry(i as int, escrow_id@, *oracle),
                None => !self.has_confirmation(escrow_id@, *oracle),
            },
    {
        let mut i: usize = 0;
        while i < self.confirmations.len()
            invariant
                i <= self.confirmations@.len(),
                forall|j: int| 0 <= j < i ==> !self.is_entry(j, escrow_id@, *oracle),
            decreases self.confirmations@.len() - i,
        {
            if self.confirmations[i].oracle.same(oracle) && bytes_equal(
                &self.confirmations[i].escrow_id,
                escrow_id,
            ) {
                return Some(i);
            }
            i += 1;
        }
        None
    }

    /// The message an oracle signs for a confirmation: the SHA-256 digest of
    /// the escrow id, the big-endian event type and the result, in this
    /// order.
    pub fn create_message(escrow_id: &Vec<u8>, event_type: u32, result: &Vec<u8>) -> (res: [u8;
        32])
        requires
            spec_message_fits(escrow_id@, result@),
        ensures
            res@ == spec_message(escrow_id@, event_type, result@),
    {
        let bytes = message_bytes(escrow_id, event_type, result);
        sha256(&bytes)
    }

    /// Checks an oracle's signature on a message under the oracle's key, by
    /// the strict rule of the ledger. Fails with `InvalidSignature` unless
    /// the signature is accepted; one that is not 64 bytes long never is.
    pub fn verify_signature(message: &[u8; 32], signature: &Vec<u8>, oracle: &Address) -> (res:
        Result<(), ContractError>)
        ensures
            spec_ed25519_accepts_strict(oracle.key@, message@, signature@) ==> res is Ok,
            !spec_ed25519_accepts_strict(oracle.key@, message@, signature@) ==> res == Err::<
                (),
                ContractError,
            >(ContractError::InvalidSignature),
            signature@.len() != 64 ==> res is Err,
    {
        if ed25519_accepts_strict(
            vstd::array::array_as_slice(&oracle.key),
            vstd::array::array_as_slice(message),
            signature.as_slice(),
        ) {
            Ok(())
        } else {
            Err(ContractError::InvalidSignature)
        }
    }

    /// Records the confirmation of the calling oracle, given whether its
    /// signature was found valid.
    ///
    /// The errors, in the order in which they are checked:
    /// `OracleNotRegistered` unless the caller is registered;
    /// `InvalidEventType` unless the event type is one of 1 to 4;
    /// `ConfirmationAlreadyExists` when the caller has confirmed this escrow
    /// before; `InvalidSignature` unless the signature was valid. Otherwise
    /// the confirmation is stored as verified, with the time `now`.
    pub fn record_confirmation(
        &mut self,
        caller: &Address,
        escrow_id: Vec<u8>,
        event_type: u32,
        result: Vec<u8>,
        signature_valid: bool,
        now: u64,
    ) -> (res: Result<AdapterEvent, ContractError>)
        requires
            old(self).wf(),
        ensures
            final(self).wf(),
            old(self).precedes(*final(self)),
            final(self).has_data == old(self).has_data,
            final(self).data == old(self).data,
            match old(self).confirm_error(*caller, escrow_id@, event_type, signature_valid) {
                Some(e) => res == Err::<AdapterEvent, ContractError>(e) && *final(self) == *old(
                    self,
                ),
                None => {
                    &&& res matches Ok(AdapterEvent::Confirmed {
                        escrow_id: id,
                        event_type: ty,
                        result: payload,
                        oracle,
                    }) && id@ == escrow_id@ && ty == event_type && payload@ == result@ && oracle
                        == *caller
                    &&& final(self).confirmations@ == old(self).confirmations@.push(
                        ConfirmationData {
                            escrow_id,
                            event_type,
                            result,
                            oracle: *caller,
                            timestamp: now,
                            verified: true,
                        },
                    )
                    &&& final(self).has_confirmation(escrow_id@, *caller)
                },
            },
    {
        if !self.is_oracle_registered(caller) {
            return Err(ContractError::OracleNotRegistered);
        }
        if event_type < 1 || event_type > 4 {
            return Err(ContractError::InvalidEventType);
        }
        if self.find_confirmation(&escrow_id, caller).is_some() {
            return Err(ContractError::ConfirmationAlreadyExists);
        }
        if !signature_valid {
            return Err(ContractError::InvalidSignature);
        }
        let event = AdapterEvent::Confirmed {
            escrow_id: copy_bytes(&escrow_id),
            event_type,
            result: copy_bytes(&result),
            oracle: *caller,
        };
        let ghost id = escrow_id@;
        let ghost count = self.confirmations@.len() as int;
        proof {
            assert forall|i: int| 0 <= i < count implies !(self.confirmations@[i].escrow_id@ == id
                && self.confirmations@[i].oracle == *caller) by {
                assert(!self.is_entry(i, id, *caller));
            }
        }
        self.confirmations.push(
            ConfirmationData {
                escrow_id,
                event_type,
                result,
                oracle: *caller,
                timestamp: now,
                verified: true,
            },
        );
        proof {
            assert(self.is_entry(count, id, *caller));
        }
        Ok(event)
    }

    /// Whether the signature of a confirmation is valid: the message can be
    /// built and the signature is accepted for it under the oracle's key.
    pub fn signature_is_valid(
        oracle: &Address,
        escrow_id: &Vec<u8>,
        event_type: u32,
        result: &Vec<u8>,
        signature: &Vec<u8>,
    ) -> (res: bool)
        ensures
            res == spec_signature_valid(*oracle, escrow_id@, event_type, result@, signature@),
            signature@.len() != 64 ==> !res,
    {
        if escrow_id.len() > 0xffff_fffb || result.len() > 0xffff_fffb - escrow_id.len() {
            return false;
        }
        let message = Self::create_message(escrow_id, event_type, result);
        Self::verify_signature(&message, signature, oracle).is_ok()
    }

    /// Accepts a signed confirmation from the calling oracle: builds the
    /// message, checks the signature under the caller's key, and records the
    /// confirmation as `record_confirmation` does. A message too long for
    /// the ledger has no valid signature.
    pub fn confirm_event(
        &mut self,
        caller: &Address,
        escrow_id: Vec<u8>,
        event_type: u32,
        result: Vec<u8>,
        signature: &Vec<u8>,
        now: u64,
    ) -> (res: Result<AdapterEvent, ContractError>)
        requires
            old(self).wf(),
        ensures
            final(self).wf(),
            old(self).precedes(*final(self)),
            final(self).has_data == old(self).has_data,
            final(self).data == old(self).data,
            match old(self).confirm_error(
                *caller,
                escrow_id@,
                event_type,
                spec_signature_valid(*caller, escrow_id@, event_type, result@, signature@),
            ) {
                Some(e) => res == Err::<AdapterEvent, ContractError>(e) && *final(self) == *old(
                    self,
                ),
                None => {
                    &&& res matches Ok(AdapterEvent::Confirmed {
                        escrow_id: id,
                        event_type: ty,
                        result: payload,
                        oracle,
                    }) && id@ == escrow_id@ && ty == event_type && payload@ == result@ && oracle
                        == *caller
                    &&& final(self).confirmations@ == old(self).confirmations@.push(
                        ConfirmationData {
                            escrow_id,
                            event_type,
                            result,
                            oracle: *caller,
                            timestamp: now,
                            verified: true,
                        },
                    )
                    &&& final(self).has_confirmation(escrow_id@, *caller)
                },
            },
            signature@.len() != 64 ==> res is Err,
    {
        let signature_valid = Self::signature_is_valid(
            caller,
            &escrow_id,
            event_type,
            &result,
            signature,
        );
        self.record_confirmation(caller, escrow_id, event_type, result, signature_valid, now)
    }

    /// The confirmations recorded for an escrow by the oracles that are
    /// registered now, in the order of the registry; `None` when there is
    /// none.
    pub fn get_confirmation(&self, escrow_id: &Vec<u8>) -> (res: Option<Vec<ConfirmationData>>)
        requires
            self.wf(),
        ensures
            match res {
                Some(found) => found@.len() > 0 && views(found@) == self.collected(
                    escrow_id@,
                    self.data.oracles@.len(),
                ),
                None => self.collected(escrow_id@, self.data.oracles@.len()).len() == 0,
            },
    {
        let mut found: Vec<ConfirmationData> = Vec::new();
        let mut i: usize = 0;
        proof {
            assert(views(found@) =~= self.collected(escrow_id@, 0));
        }
        while i < self.data.oracles.len()
            invariant
                self.wf(),
                i <= self.data.oracles@.len(),
                views(found@) == self.collected(escrow_id@, i as nat),
            decreases self.data.oracles@.len() - i,
        {
            let oracle = self.data.oracles[i];
            match self.find_confirmation(escrow_id, &oracle) {
                None => {},
                Some(k) => {
                    let ghost earlier = found@;
                    let copy = self.confirmations[k].duplicate();
                    found.push(copy);
                    proof {
                        let chosen = choose|c: int| self.is_entry(c, escrow_id@, oracle);
                        assert(self.is_entry(k as int, escrow_id@, oracle));
                        assert(self.is_entry(chosen, escrow_id@, oracle));
                        assert(chosen == k);
                        assert(views(found@) =~= views(earlier).push(copy@));
                    }
                },
            }
            i += 1;
        }
        if found.len() == 0 {
            None
        } else {
            Some(found)
        }
    }

    /// Whether the oracle is in the registry.
    pub fn is_oracle_registered_query(&self, oracle: &Address) -> (res: bool)
        ensures
            res == self.is_registered(*oracle),
    {
        self.is_oracle_registered(oracle)
    }

    /// How many oracles are registered.
    pub fn get_oracle_count(&self) -> (res: u32)
        requires
            self.wf(),
        ensures
            res == self.data.oracles@.len(),
    {
        self.data.oracles.len() as u32
    }

    /// The oracle registered at the given place, counting from zero.
    pub fn get_oracle_at(&self, index: u32) -> (res: Option<Address>)
        ensures
            index < self.data.oracles@.len() ==> res == Some(self.data.oracles@[index as int]),
            index >= self.data.oracles@.len() ==> res is None,
    {
        if (index as usize) < self.data.oracles.len() {
            Some(self.data.oracles[index as usize])
        } else {
            None
        }
    }

    /// The admin; the zero address while the configuration was never
    /// written.
    pub fn get_admin(&self) -> (res: Address)
        ensures
            res == self.data.admin,
    {
        self.data.admin
    }
}

/// What `get_confirmation` hands out for an escrow is what the first `n`
/// registered oracles have confirmed for it, no more and no less.
pub proof fn collected_is_what_registered_oracles_confirmed(
    adapter: OracleAdapter,
    escrow_id: Seq<u8>,
    n: nat,
)
    requires
        n <= adapter.data.oracles@.len(),
    ensures
        forall|c: ConfirmationView|
            adapter.collected(escrow_id, n).contains(c) <==> exists|k: int|
                0 <= k < n && adapter.has_confirmation(escrow_id, #[trigger] adapter.data.oracles@[k])
                    && c == adapter.confirmation_of(escrow_id, adapter.data.oracles@[k])@,
    decreases n,
{
    let oracles = adapter.data.oracles@;
    if n == 0 {
        assert(adapter.collected(escrow_id, 0) =~= Seq::<ConfirmationView>::empty());
    } else {
        let m = (n - 1) as nat;
        collected_is_what_registered_oracles_confirmed(adapter, escrow_id, m);
        let earlier = adapter.collected(escrow_id, m);
        let now = adapter.collected(escrow_id, n);
        let oracle = oracles[n - 1];
        let has = adapter.has_confirmation(escrow_id, oracle);
        let added = adapter.confirmation_of(escrow_id, oracle)@;
        assert forall|c: ConfirmationView| now.contains(c) <==> exists|k: int|
            0 <= k < n && adapter.has_confirmation(escrow_id, #[trigger] oracles[k]) && c
                == adapter.confirmation_of(escrow_id, oracles[k])@ by {
            if now.contains(c) {
                let i = choose|i: int| 0 <= i < now.len() && now[i] == c;
                if has && i == earlier.len() {
                    assert(c == added);
                    assert(adapter.has_confirmation(escrow_id, oracles[n - 1]));
                } else {
                    assert(earlier[i] == c);
                    assert(earlier.contains(c));
                    let k = choose|k: int|
                        0 <= k < m && adapter.has_confirmation(escrow_id, #[trigger] oracles[k])
                            && c == adapter.confirmation_of(escrow_id, oracles[k])@;
                    assert(0 <= k < n && adapter.has_confirmation(escrow_id, oracles[k]));
                }
            }
            if exists|k: int|
                0 <= k < n && adapter.has_confirmation(escrow_id, #[trigger] oracles[k]) && c
                    == adapter.confirmation_of(escrow_id, oracles[k])@ {
                let k = choose|k: int|
                    0 <= k < n && adapter.has_confirmation(escrow_id, #[trigger] oracles[k]) && c
                        == adapter.confirmation_of(escrow_id, oracles[k])@;
                if k == n - 1 {
                    assert(now[earlier.len() as int] == c);
                } else {
                    assert(0 <= k < m && adapter.has_confirmation(escrow_id, oracles[k]));
                    assert(earlier.contains(c));
                    let i = choose|i: int| 0 <= i < earlier.len() && earlier[i] == c;
                    assert(now[i] == c);
                }
            }
        }
    }
}

/// What the adapter has recorded for an oracle and an escrow is verified
/// and of a valid event type.
pub proof fn recorded_confirmations_are_verified(
    adapter: OracleAdapter,
    escrow_id: Seq<u8>,
    oracle: Address,
)
    requires
        adapter.wf(),
        adapter.has_confirmation(escrow_id, oracle),
    ensures
        adapter.confirmation_of(escrow_id, oracle).verified,
        valid_event_type(adapter.confirmation_of(escrow_id, oracle).event_type),
{
    let i = choose|i: int| adapter.is_entry(i, escrow_id, oracle);
    assert(adapter.confirmations@[i].verified);
}

/// What can follow an adapter that can follow another can follow the other.
pub proof fn adapter_precedes_is_transitive(a: OracleAdapter, b: OracleAdapter, c: OracleAdapter)
    requires
        a.precedes(b),
        b.precedes(c),
    ensures
        a.precedes(c),
{
}

/// A confirmation is recorded once: after an oracle has confirmed an escrow,
/// every further confirmation of that escrow by that oracle is refused with
/// `ConfirmationAlreadyExists`, whatever its signature, for as long as the
/// oracle is registered and the event type is valid.
pub proof fn confirmation_is_not_replayed(
    before: OracleAdapter,
    later: OracleAdapter,
    escrow_id: Seq<u8>,
    oracle: Address,
    event_type: u32,
    signature_valid: bool,
)
    requires
        before.precedes(later),
        before.has_confirmation(escrow_id, oracle),
        later.is_registered(oracle),
        valid_event_type(event_type),
    ensures
        later.has_confirmation(escrow_id, oracle),
        later.confirm_error(oracle, escrow_id, event_type, signature_valid) == Some(
            ContractError::ConfirmationAlreadyExists,
        ),
{
    let i = choose|i: int| before.is_entry(i, escrow_id, oracle);
    assert(later.is_entry(i, escrow_id, oracle));
}

} // verus!
