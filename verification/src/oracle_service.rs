//! What the off-chain service decides about a payload an oracle submitted.

use vstd::prelude::*;
use vstd::string::StringSliceAdditionalSpecFns;
use vstd::utf8::encode_utf8;
use crate::digest::{
    ed25519_accepts, ed25519_key_parses, hex_decode, spec_ed25519_accepts, spec_ed25519_key,
    spec_hex_decoded, spec_is_hex,
};
use crate::config::{spec_trimmed, trimmed};
use crate::events::{push_decimal, spec_decimal_text};
use crate::models::{OracleConfirmation, OraclePayload};

verus! {

/// How far the timestamp of a payload may lie in the future, in seconds.
pub const FUTURE_DRIFT_SECONDS: u64 = 60;

/// Why a payload was found invalid.
#[derive(Clone, Copy, Debug, PartialEq, Eq, Structural)]
pub enum PayloadError {
    /// The public key is not hexadecimal.
    InvalidSourceHex,
    /// The public key is not 32 bytes long.
    InvalidPublicKeyLength,
    /// The 32 bytes are not an Ed25519 public key.
    InvalidPublicKeyBytes,
    /// The signature is not hexadecimal.
    InvalidSignatureHex,
    /// The signature is not 64 bytes long.
    InvalidSignatureLength,
    /// The signature does not match the message under the key.
    SignatureVerificationFailed,
}

/// Why a payload cannot be submitted to the ledger.
#[derive(Clone, Copy, Debug, PartialEq, Eq, Structural)]
pub enum SubmitError {
    /// The secret key is not 64 characters long.
    SecretKeyLength,
    /// The secret key is not hexadecimal.
    InvalidHexKey,
    /// The data type is longer than a symbol can be.
    InvalidDataType,
    /// The signature is not hexadecimal.
    InvalidSignatureHex,
    /// The signature is longer than a byte string of the ledger can be.
    SignatureTooLong,
    /// The contract id is not hexadecimal.
    InvalidContractIdHex,
    /// The contract id is not 32 bytes long.
    ContractIdLength,
}

/// The longest a symbol of the ledger can be, in bytes.
pub const MAX_SYMBOL_BYTES: usize = 32;

/// Why a payload cannot be submitted with the given secret key and contract
/// id, if it cannot. The secret key is taken without the whitespace around
/// it and must be 64 hexadecimal digits; the data type must fit a symbol;
/// the signature must be hexadecimal; the contract id must be the
/// hexadecimal form of 32 bytes.
pub open spec fn spec_submit_error(
    payload: OraclePayload,
    secret: Seq<char>,
    contract_id: Seq<char>,
) -> Option<SubmitError> {
    let key = encode_utf8(spec_trimmed(secret));
    let signature = encode_utf8(payload.signature@);
    let contract = encode_utf8(contract_id);
    if key.len() != 64 {
        Some(SubmitError::SecretKeyLength)
    } else if !spec_is_hex(key) {
        Some(SubmitError::InvalidHexKey)
    } else if encode_utf8(payload.data_type@).len() > MAX_SYMBOL_BYTES {
        Some(SubmitError::InvalidDataType)
    } else if !spec_is_hex(signature) {
        Some(SubmitError::InvalidSignatureHex)
    } else if spec_hex_decoded(signature).len() > u32::MAX {
        Some(SubmitError::SignatureTooLong)
    } else if !spec_is_hex(contract) {
        Some(SubmitError::InvalidContractIdHex)
    } else if spec_hex_decoded(contract).len() != 32 {
        Some(SubmitError::ContractIdLength)
    } else {
        None
    }
}

/// The decimal digits of a number as ASCII bytes.
pub open spec fn spec_decimal(n: nat) -> Seq<u8>
    decreases n,
{
    if n < 10 {
        seq![(0x30 + n) as u8]
    } else {
        spec_decimal(n / 10).push((0x30 + n % 10) as u8)
    }
}

/// The message an oracle signs for a payload: the timestamp in decimal, a
/// colon, and the value, as UTF-8.
pub open spec fn spec_payload_message(timestamp: u64, value: Seq<char>) -> Seq<u8> {
    spec_decimal(timestamp as nat).push(0x3a) + encode_utf8(value)
}

/// The first check that fails, given what the outside primitives found: the
/// decoded key (`None` where the text is not hexadecimal), whether it is a
/// public key, the decoded signature, and whether the signature was
/// accepted.
pub open spec fn spec_verdict(
    key: Option<Seq<u8>>,
    key_parses: bool,
    signature: Option<Seq<u8>>,
    accepted: bool,
) -> Option<PayloadError> {
    if key is None {
        Some(PayloadError::InvalidSourceHex)
    } else if key->Some_0.len() != 32 {
        Some(PayloadError::InvalidPublicKeyLength)
    } else if !key_parses {
        Some(PayloadError::InvalidPublicKeyBytes)
    } else if signature is None {
        Some(PayloadError::InvalidSignatureHex)
    } else if signature->Some_0.len() != 64 {
        Some(PayloadError::InvalidSignatureLength)
    } else if !accepted {
        Some(PayloadError::SignatureVerificationFailed)
    } else {
        None
    }
}

/// What a hexadecimal text decodes to, `None` where it is not hexadecimal.
pub open spec fn spec_decoded(text: Seq<char>) -> Option<Seq<u8>> {
    if spec_is_hex(encode_utf8(text)) {
        Some(spec_hex_decoded(encode_utf8(text)))
    } else {
        None
    }
}

/// Why a payload is invalid, if it is.
pub open spec fn spec_payload_error(payload: OraclePayload) -> Option<PayloadError> {
    let key = spec_decoded(payload.public_key@);
    let signature = spec_decoded(payload.signature@);
    spec_verdict(
        key,
        key is Some && spec_ed25519_key(key->Some_0),
        signature,
        key is Some && signature is Some && spec_ed25519_accepts(
            key->Some_0,
            spec_payload_message(payload.timestamp, payload.value@),
            signature->Some_0,
        ),
    )
}

/// Whether a payload's timestamp is fresh at the time `now`: at most 60
/// seconds ahead, and at most `window` seconds behind.
pub open spec fn spec_timestamp_fresh(timestamp: u64, now: u64, window: u64) -> bool {
    now - window <= timestamp <= now + FUTURE_DRIFT_SECONDS
}

/// The bytes of an optional byte string.
pub open spec fn views_of(bytes: Option<Vec<u8>>) -> Option<Seq<u8>> {
    match bytes {
        Some(b) => Some(b@),
        None => None,
    }
}

/// The decimal digits of a number as ASCII bytes.
pub fn decimal(n: u64) -> (res: Vec<u8>)
    ensures
        res@ == spec_decimal(n as nat),
    decreases n,
{
    if n < 10 {
        let mut out: Vec<u8> = Vec::new();
        out.push(0x30 + n as u8);
        proof {
            assert(out@ =~= spec_decimal(n as nat));
        }
        out
    } else {
        let mut out = decimal(n / 10);
        out.push(0x30 + (n % 10) as u8);
        out
    }
}

/// Builds the message an oracle signs for a payload.
pub fn payload_message(timestamp: u64, value: &str) -> (res: Vec<u8>)
    ensures
        res@ == spec_payload_message(timestamp, value@),
{
    let mut out = decimal(timestamp);
    out.push(0x3a);
    let ghost head = out@;
    let bytes = value.as_bytes();
    let mut i: usize = 0;
    while i < bytes.len()
        invariant
            i <= bytes@.len(),
            bytes@ == value.spec_bytes(),
            out@ == head + bytes@.take(i as int),
        decreases bytes@.len() - i,
    {
        out.push(bytes[i]);
        proof {
            assert(out@ =~= head + bytes@.take(i + 1));
        }
        i += 1;
    }
    proof {
        assert(bytes@.take(bytes@.len() as int) =~= bytes@);
    }
    out
}

/// What happens next to a submitted payload.
#[derive(Clone, Copy, Debug, PartialEq, Eq)]
pub enum ConfirmStep {
    /// Refused: the timestamp is too old or too far ahead.
    TimestampOutOfBounds,
    /// Refused: the payload is not signed as it should be.
    Invalid(PayloadError),
    /// Refused: the validation ended without error and without approval.
    ValidationFailed,
    /// Accepted and kept until more oracles have signed.
    AwaitingSignatures,
    /// Refused: another payload for the same time says otherwise.
    Disputed,
    /// To be submitted to the ledger.
    Submit,
}

/// What happens next to a submitted payload, given whether its timestamp is
/// fresh, how its validation ended, whether enough oracles have signed and
/// whether it is disputed. The first of these that stands in the way
/// decides, in this order.
pub open spec fn spec_confirm_step(
    fresh: bool,
    validation: Result<bool, PayloadError>,
    aggregated: bool,
    disputed: bool,
) -> ConfirmStep {
    if !fresh {
        ConfirmStep::TimestampOutOfBounds
    } else {
        match validation {
            Err(e) => ConfirmStep::Invalid(e),
            Ok(approved) => if !approved {
                ConfirmStep::ValidationFailed
            } else if !aggregated {
                ConfirmStep::AwaitingSignatures
            } else if disputed {
                ConfirmStep::Disputed
            } else {
                ConfirmStep::Submit
            },
        }
    }
}

/// What happens next to a payload submitted at the time `now`, with
/// `window` seconds of tolerance for old timestamps.
pub open spec fn spec_confirm(payload: OraclePayload, now: u64, window: u64) -> ConfirmStep {
    spec_confirm_step(
        spec_timestamp_fresh(payload.timestamp, now, window),
        match spec_payload_error(payload) {
            Some(e) => Err(e),
            None => Ok(true),
        },
        true,
        false,
    )
}

/// The checks the service runs on a submitted payload.
#[derive(Clone, Copy, Debug)]
pub struct OracleService;

impl OracleService {
    /// Names the first check that fails, given what the outside primitives
    /// found: the decoded key (`None` where the text is not hexadecimal),
    /// whether it is a public key, the decoded signature, and whether the
    /// signature was accepted. The order: key text, key length (32), key,
    /// signature text, signature length (64), signature.
    pub fn payload_verdict(
        key: &Option<Vec<u8>>,
        key_parses: bool,
        signature: &Option<Vec<u8>>,
        accepted: bool,
    ) -> (res: Result<bool, PayloadError>)
        ensures
            match spec_verdict(views_of(*key), key_parses, views_of(*signature), accepted) {
                Some(e) => res == Err::<bool, PayloadError>(e),
                None => res == Ok::<bool, PayloadError>(true),
            },
    {
        let key_bytes = match key {
            Some(bytes) => bytes,
            None => {
                return Err(PayloadError::InvalidSourceHex);
            },
        };
        if key_bytes.len() != 32 {
            return Err(PayloadError::InvalidPublicKeyLength);
        }
        if !key_parses {
            return Err(PayloadError::InvalidPublicKeyBytes);
        }
        let signature_bytes = match signature {
            Some(bytes) => bytes,
            None => {
                return Err(PayloadError::InvalidSignatureHex);
            },
        };
        if signature_bytes.len() != 64 {
            return Err(PayloadError::InvalidSignatureLength);
        }
        if !accepted {
            return Err(PayloadError::SignatureVerificationFailed);
        }
        Ok(true)
    }

    /// Checks that a payload is signed by the key it names: the key and the
    /// signature must be hexadecimal, of 32 and 64 bytes, and the signature
    /// must be an Ed25519 signature of `timestamp:value` under the key.
    /// Returns `Ok(true)` for a valid payload and the first failed check
    /// otherwise; it never returns `Ok(false)`.
    pub fn validate_payload(payload: &OraclePayload) -> (res: Result<bool, PayloadError>)
        ensures
            match spec_payload_error(*payload) {
                Some(e) => res == Err::<bool, PayloadError>(e),
                None => res == Ok::<bool, PayloadError>(true),
            },
    {
        let message = payload_message(payload.timestamp, payload.value.as_str());
        let key = hex_decode(payload.public_key.as_str().as_bytes());
        let signature = hex_decode(payload.signature.as_str().as_bytes());
        let key_parses = match &key {
            Some(bytes) => ed25519_key_parses(bytes.as_slice()),
            None => false,
        };
        let accepted = match (&key, &signature) {
            (Some(k), Some(s)) => ed25519_accepts(k.as_slice(), message.as_slice(), s.as_slice()),
            _ => false,
        };
        Self::payload_verdict(&key, key_parses, &signature, accepted)
    }

    /// Prepares the submission of a payload to the ledger under the given
    /// secret key and contract id. Nothing is sent: a payload that can be
    /// submitted yields a confirmation in the status `ready_to_sign`, in
    /// block 0, whose hash is `real_xdr_built_` followed by the payload's
    /// timestamp.
    pub fn submit_confirmation(payload: &OraclePayload, secret: &str, contract_id: &str) -> (res:
        Result<OracleConfirmation, SubmitError>)
        ensures
            match spec_submit_error(*payload, secret@, contract_id@) {
                Some(e) => res == Err::<OracleConfirmation, SubmitError>(e),
                None => {
                    &&& res is Ok
                    &&& res->Ok_0.initial_tx_hash@ == "real_xdr_built_"@ + spec_decimal_text(
                        payload.timestamp as nat,
                    )
                    &&& res->Ok_0.status@ == "ready_to_sign"@
                    &&& res->Ok_0.block == 0
                },
            },
    {
        let key = trimmed(secret).as_bytes();
        if key.len() != 64 {
            return Err(SubmitError::SecretKeyLength);
        }
        if hex_decode(key).is_none() {
            return Err(SubmitError::InvalidHexKey);
        }
        if payload.data_type.as_str().as_bytes().len() > MAX_SYMBOL_BYTES {
            return Err(SubmitError::InvalidDataType);
        }
        match hex_decode(payload.signature.as_str().as_bytes()) {
            None => {
                return Err(SubmitError::InvalidSignatureHex);
            },
            Some(signature) => {
                if signature.len() > 0xffff_ffff {
                    return Err(SubmitError::SignatureTooLong);
                }
            },
        }
        match hex_decode(contract_id.as_bytes()) {
            None => {
                return Err(SubmitError::InvalidContractIdHex);
            },
            Some(contract) => {
                if contract.len() != 32 {
                    return Err(SubmitError::ContractIdLength);
                }
            },
        }
        let mut hash: String = "real_xdr_built_".to_owned();
        push_decimal(&mut hash, payload.timestamp);
        Ok(OracleConfirmation { initial_tx_hash: hash, status: "ready_to_sign".to_owned(), block: 0 })
    }

    /// Whether a payload's timestamp is fresh at the time `now`: at most 60
    /// seconds ahead, and at most `window` seconds behind.
    pub fn timestamp_is_fresh(timestamp: u64, now: u64, window: u64) -> (res: bool)
        ensures
            res == spec_timestamp_fresh(timestamp, now, window),
    {
        let latest: u64 = if now > u64::MAX - FUTURE_DRIFT_SECONDS {
            u64::MAX
        } else {
            now + FUTURE_DRIFT_SECONDS
        };
        let earliest: u64 = if now < window {
            0
        } else {
            now - window
        };
        !(timestamp > latest || timestamp < earliest)
    }

    /// Decides what happens next to a submitted payload, given whether its
    /// timestamp is fresh, how its validation ended, whether enough oracles
    /// have signed and whether it is disputed.
    pub fn confirm_step(
        fresh: bool,
        validation: Result<bool, PayloadError>,
        aggregated: bool,
        disputed: bool,
    ) -> (res: ConfirmStep)
        ensures
            res == spec_confirm_step(fresh, validation, aggregated, disputed),
    {
        if !fresh {
            return ConfirmStep::TimestampOutOfBounds;
        }
        match validation {
            Err(e) => ConfirmStep::Invalid(e),
            Ok(approved) => {
                if !approved {
                    ConfirmStep::ValidationFailed
                } else if !aggregated {
                    ConfirmStep::AwaitingSignatures
                } else if disputed {
                    ConfirmStep::Disputed
                } else {
                    ConfirmStep::Submit
                }
            },
        }
    }

    /// Decides what happens next to a payload submitted at the time `now`:
    /// its timestamp must be fresh within `window` seconds and its signature
    /// valid; then it goes on to submission, since one signature is enough
    /// and nothing is disputed.
    pub fn confirm(payload: &OraclePayload, now: u64, window: u64) -> (res: ConfirmStep)
        ensures
            res == spec_confirm(*payload, now, window),
    {
        let fresh = Self::timestamp_is_fresh(payload.timestamp, now, window);
        if !fresh {
            return ConfirmStep::TimestampOutOfBounds;
        }
        let validation = Self::validate_payload(payload);
        let aggregated = Self::check_aggregation(payload);
        let disputed = Self::check_dispute(payload);
        Self::confirm_step(fresh, validation, aggregated, disputed)
    }

    /// Whether enough oracles have signed the payload's data point. One
    /// valid payload is enough: the answer is always yes.
    pub fn check_aggregation(_payload: &OraclePayload) -> (res: bool)
        ensures
            res,
    {
        true
    }

    /// Whether the payload conflicts with another one for the same time. No
    /// other payload is consulted: the answer is always no.
    pub fn check_dispute(_payload: &OraclePayload) -> (res: bool)
        ensures
            !res,
    {
        false
    }
}

} // verus!
