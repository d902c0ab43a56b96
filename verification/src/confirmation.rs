//! The record an oracle leaves when it attests to an off-chain event.

use vstd::prelude::*;
use crate::address::Address;

verus! {

/// One oracle's attestation of an event for one escrow.
#[derive(Debug, PartialEq, Eq)]
pub struct ConfirmationData {
    /// The escrow the attestation is about, as the bytes the oracle signed.
    pub escrow_id: Vec<u8>,
    /// The kind of event attested, as a number from 1 to 4.
    pub event_type: u32,
    /// The payload of the attestation.
    pub result: Vec<u8>,
    /// The oracle that signed.
    pub oracle: Address,
    /// The ledger time at which the attestation was recorded.
    pub timestamp: u64,
    /// Whether the signature was checked and found valid.
    pub verified: bool,
}

/// A confirmation as plain data.
pub struct ConfirmationView {
    pub escrow_id: Seq<u8>,
    pub event_type: u32,
    pub result: Seq<u8>,
    pub oracle: Address,
    pub timestamp: u64,
    pub verified: bool,
}

impl View for ConfirmationData {
    type V = ConfirmationView;

    open spec fn view(&self) -> ConfirmationView {
        ConfirmationView {
            escrow_id: self.escrow_id@,
            event_type: self.event_type,
            result: self.result@,
            oracle: self.oracle,
            timestamp: self.timestamp,
            verified: self.verified,
        }
    }
}

/// The confirmations as plain data, in the same order.
pub open spec fn views(confirmations: Seq<ConfirmationData>) -> Seq<ConfirmationView> {
    confirmations.map_values(|c: ConfirmationData| c@)
}

/// Whether some confirmation in the list is verified and attests an event
/// of the required type.
pub open spec fn spec_confirmed(confirmations: Seq<ConfirmationData>, required: u32) -> bool {
    exists|i: int|
        0 <= i < confirmations.len() && (#[trigger] confirmations[i]).event_type == required
            && confirmations[i].verified
}

/// What an oracle adapter answers for an escrow counts as confirmed when it
/// holds at least one verified confirmation of the required event type. An
/// empty answer confirms nothing.
pub open spec fn spec_answer_confirms(
    answer: Option<Vec<ConfirmationData>>,
    required: u32,
) -> bool {
    match answer {
        Some(v) => spec_confirmed(v@, required),
        None => false,
    }
}

/// Decides whether an oracle adapter's answer satisfies an escrow's release
/// condition.
pub fn answer_confirms(answer: &Option<Vec<ConfirmationData>>, required: u32) -> (res: bool)
    ensures
        res == spec_answer_confirms(*answer, required),
{
    match answer {
        None => false,
        Some(v) => {
            let mut i: usize = 0;
            while i < v.len()
                invariant
                    i <= v.len(),
                    *answer == Some(*v),
                    forall|j: int|
                        0 <= j < i ==> !((#[trigger] v@[j]).event_type == required
                            && v@[j].verified),
                decreases v.len() - i,
            {
                if v[i].event_type == required && v[i].verified {
                    assert(v@[i as int].event_type == required && v@[i as int].verified);
                    return true;
                }
                i += 1;
            }
            false
        },
    }
}

} // verus!
