//! The outside primitives the library relies on: SHA-256, Ed25519
//! verification (as the ledger runs it, and as the off-chain service does)
//! and hexadecimal decoding. All are computed by outside code; what is
//! stated of them here is taken on trust.

use vstd::prelude::*;

verus! {

/// The SHA-256 digest of a byte string.
pub uninterp spec fn spec_sha256(data: Seq<u8>) -> Seq<u8>;

/// Whether the bytes are the encoding of an Ed25519 public key.
pub uninterp spec fn spec_ed25519_key(key: Seq<u8>) -> bool;

/// Whether `signature` is accepted as an Ed25519 signature of `message`
/// under the public key `key`.
pub uninterp spec fn spec_ed25519_accepts(key: Seq<u8>, message: Seq<u8>, signature: Seq<u8>) -> bool;

/// Whether `signature` is accepted as an Ed25519 signature of `message`
/// under the public key `key` by the strict rule of the ledger, which also
/// refuses keys and signature points of small order.
pub uninterp spec fn spec_ed25519_accepts_strict(key: Seq<u8>, message: Seq<u8>, signature: Seq<u8>) -> bool;

/// The value of a hexadecimal digit, in either case.
pub open spec fn spec_hex_value(c: u8) -> Option<u8> {
    if 0x30 <= c <= 0x39 {
        Some((c - 0x30) as u8)
    } else if 0x61 <= c <= 0x66 {
        Some((c - 0x61 + 10) as u8)
    } else if 0x41 <= c <= 0x46 {
        Some((c - 0x41 + 10) as u8)
    } else {
        None
    }
}

/// Whether a text is an even number of hexadecimal digits.
pub open spec fn spec_is_hex(text: Seq<u8>) -> bool {
    text.len() % 2 == 0 && forall|i: int| 0 <= i < text.len() ==> spec_hex_value(text[i]) is Some
}

/// The bytes that a hexadecimal text stands for, two digits to the byte.
pub open spec fn spec_hex_decoded(text: Seq<u8>) -> Seq<u8> {
    Seq::new(
        text.len() / 2,
        |i: int|
            (spec_hex_value(text[2 * i])->Some_0 * 16 + spec_hex_value(
                text[2 * i + 1],
            )->Some_0) as u8,
    )
}

/// Calls `soroban_sdk::crypto::Crypto::sha256` on a host of its own, made
/// without snapshot capture and with an unlimited budget. Trusted: the result
/// is the SHA-256 digest of `data`, a function of the bytes alone. Host byte
/// strings hold at most `u32::MAX` bytes, hence the bound.
#[verifier::external_body]
pub(crate) fn sha256(data: &Vec<u8>) -> (digest: [u8; 32])
    requires
        data@.len() <= u32::MAX,
    ensures
        digest@ == spec_sha256(data@),
{
    let env = soroban_sdk::Env::new_with_config(
        soroban_sdk::testutils::EnvTestConfig { capture_snapshot_at_drop: false },
    );
    let mut budget = env.cost_estimate().budget();
    budget.reset_unlimited();
    env.crypto().sha256(&soroban_sdk::Bytes::from_slice(&env, data.as_slice())).to_array()
}

/// Calls `ed25519_dalek::VerifyingKey::from_bytes`. Trusted: whether the
/// bytes parse as a public key is a function of the bytes alone, and only 32
/// bytes can.
#[verifier::external_body]
pub(crate) fn ed25519_key_parses(key: &[u8]) -> (res: bool)
    ensures
        res == spec_ed25519_key(key@),
        key@.len() != 32 ==> !res,
{
    match <[u8; 32]>::try_from(key) {
        Ok(bytes) => ed25519_dalek::VerifyingKey::from_bytes(&bytes).is_ok(),
        Err(_) => false,
    }
}

/// Calls `ed25519_dalek::VerifyingKey::verify` with the key parsed by
/// `VerifyingKey::from_bytes` and the signature parsed by
/// `ed25519_dalek::Signature::from_slice`. Trusted: the answer is a function
/// of the three byte strings alone; a key that does not parse accepts
/// nothing; a signature that is not 64 bytes long is never accepted.
#[verifier::external_body]
pub(crate) fn ed25519_accepts(key: &[u8], message: &[u8], signature: &[u8]) -> (res: bool)
    ensures
        res == spec_ed25519_accepts(key@, message@, signature@),
        res ==> spec_ed25519_key(key@),
        signature@.len() != 64 ==> !res,
{
    match (<[u8; 32]>::try_from(key), ed25519_dalek::Signature::from_slice(signature)) {
        (Ok(bytes), Ok(parsed)) => match ed25519_dalek::VerifyingKey::from_bytes(&bytes) {
            Ok(k) => ed25519_dalek::Verifier::verify(&k, message, &parsed).is_ok(),
            Err(_) => false,
        },
        _ => false,
    }
}

/// Calls `ed25519_dalek::VerifyingKey::verify_strict`, the check that the
/// ledger runs, with the key parsed by `VerifyingKey::from_bytes` and the
/// signature parsed by `ed25519_dalek::Signature::from_slice`. Trusted: the
/// answer is a function of the three byte strings alone; a key that does
/// not parse accepts nothing; a signature that is not 64 bytes long is
/// never accepted.
#[verifier::external_body]
pub(crate) fn ed25519_accepts_strict(key: &[u8], message: &[u8], signature: &[u8]) -> (res: bool)
    ensures
        res == spec_ed25519_accepts_strict(key@, message@, signature@),
        res ==> spec_ed25519_key(key@),
        signature@.len() != 64 ==> !res,
{
    match (<[u8; 32]>::try_from(key), ed25519_dalek::Signature::from_slice(signature)) {
        (Ok(bytes), Ok(parsed)) => match ed25519_dalek::VerifyingKey::from_bytes(&bytes) {
            Ok(k) => k.verify_strict(message, &parsed).is_ok(),
            Err(_) => false,
        },
        _ => false,
    }
}

/// Calls `hex::decode`. Trusted: a text of an even number of hexadecimal
/// digits, upper or lower case, decodes to the bytes it stands for, and
/// every other text is refused.
#[verifier::external_body]
pub(crate) fn hex_decode(text: &[u8]) -> (res: Option<Vec<u8>>)
    ensures
        spec_is_hex(text@) ==> res is Some && res->Some_0@ == spec_hex_decoded(text@),
        !spec_is_hex(text@) ==> res is None,
{
    hex::decode(text).ok()
}

} // verus!
