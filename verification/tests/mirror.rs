use stellovault::config::{is_blank, ContractsConfig};
use stellovault::models::{AggregationState, OracleEventType, OraclePayload};
use stellovault::oracle_service::{
    decimal, payload_message, ConfirmStep, OracleService, PayloadError, SubmitError,
};
use stellovault::webhook::{webhook_access, WebhookAccess};

fn payload() -> OraclePayload {
    OraclePayload {
        public_key: String::from("00"),
        timestamp: 1_700_000_000,
        data_type: String::from("shipping"),
        value: String::from("delivered"),
        signature: String::from("00"),
    }
}

#[test]
fn monitored_ids_skip_blank_and_unset() {
    let cfg = ContractsConfig {
        collateral_contract_id: String::from("CCOLL"),
        escrow_contract_id: String::from("   "),
        loan_contract_id: String::from(" CLOAN "),
        governance_contract_id: None,
    };
    assert_eq!(cfg.monitored_contract_ids(), vec![String::from("CCOLL"), String::from(" CLOAN ")]);

    let cfg = ContractsConfig {
        collateral_contract_id: String::new(),
        escrow_contract_id: String::from("CESC"),
        loan_contract_id: String::from("\t\n"),
        governance_contract_id: Some(String::from("CGOV")),
    };
    assert_eq!(cfg.monitored_contract_ids(), vec![String::from("CESC"), String::from("CGOV")]);

    let cfg = ContractsConfig {
        collateral_contract_id: String::new(),
        escrow_contract_id: String::new(),
        loan_contract_id: String::new(),
        governance_contract_id: Some(String::from(" ")),
    };
    assert!(cfg.monitored_contract_ids().is_empty());
}

#[test]
fn blank_means_empty_after_trimming() {
    assert!(is_blank(&String::new()));
    assert!(is_blank(&String::from(" \t\r\n")));
    assert!(!is_blank(&String::from(" x ")));
    assert!(is_blank(&String::from("\u{b}\u{c}\u{85}\u{a0}\u{1680}\u{2000}\u{200a}")));
    assert!(is_blank(&String::from("\u{2028}\u{2029}\u{202f}\u{205f}\u{3000}")));
    // A zero-width space is no whitespace, nor are these neighbours.
    assert!(!is_blank(&String::from("\u{200b}")));
    assert!(!is_blank(&String::from("\u{8}")));
    assert!(!is_blank(&String::from("\u{e}")));
    assert!(!is_blank(&String::from("\u{1f}")));
    assert!(!is_blank(&String::from("\u{feff}")));
}

#[test]
fn aggregation_and_dispute_answers_are_fixed() {
    assert!(OracleService::check_aggregation(&payload()));
    assert!(!OracleService::check_dispute(&payload()));
}

#[test]
fn aggregation_state_default_requires_two_signatures() {
    let state = AggregationState::default();
    assert_eq!(state.required_signatures, 2);
    assert!(state.received_signatures.is_empty());
    assert_eq!(OracleEventType::Quality.code(), 3);
}

fn signed_payload(seed: u8, timestamp: u64, value: &str) -> OraclePayload {
    let key = ed25519_dalek::SigningKey::from_bytes(&[seed; 32]);
    let message = format!("{}:{}", timestamp, value);
    let signature = ed25519_dalek::Signer::sign(&key, message.as_bytes());
    OraclePayload {
        public_key: hex::encode(key.verifying_key().to_bytes()),
        timestamp,
        data_type: String::from("shipping"),
        value: String::from(value),
        signature: hex::encode_upper(signature.to_bytes()),
    }
}

#[test]
fn valid_payload_is_accepted() {
    let p = signed_payload(3, 1_700_000_000, "delivered");
    assert_eq!(OracleService::validate_payload(&p), Ok(true));
    let p = signed_payload(4, 0, "données: 42 \u{2713}");
    assert_eq!(OracleService::validate_payload(&p), Ok(true));
}

#[test]
fn payload_checks_fail_in_order() {
    let good = signed_payload(3, 1_700_000_000, "delivered");

    let mut p = good.clone();
    p.public_key = String::from("zz");
    p.signature = String::from("zz");
    assert_eq!(OracleService::validate_payload(&p), Err(PayloadError::InvalidSourceHex));

    let mut p = good.clone();
    p.public_key = String::from("abc");
    assert_eq!(OracleService::validate_payload(&p), Err(PayloadError::InvalidSourceHex));

    let mut p = good.clone();
    p.public_key = String::from("00ff");
    p.signature = String::from("zz");
    assert_eq!(OracleService::validate_payload(&p), Err(PayloadError::InvalidPublicKeyLength));

    let mut p = good.clone();
    // y = 2 is not the y-coordinate of a point of the curve.
    p.public_key = format!("02{}", "00".repeat(31));
    assert_eq!(OracleService::validate_payload(&p), Err(PayloadError::InvalidPublicKeyBytes));

    let mut p = good.clone();
    p.signature = String::from("0g");
    assert_eq!(OracleService::validate_payload(&p), Err(PayloadError::InvalidSignatureHex));

    let mut p = good.clone();
    p.signature = String::from("00");
    assert_eq!(OracleService::validate_payload(&p), Err(PayloadError::InvalidSignatureLength));

    let mut p = good.clone();
    p.value = String::from("lost");
    assert_eq!(
        OracleService::validate_payload(&p),
        Err(PayloadError::SignatureVerificationFailed)
    );

    let mut p = good.clone();
    p.timestamp += 1;
    assert_eq!(
        OracleService::validate_payload(&p),
        Err(PayloadError::SignatureVerificationFailed)
    );

    let mut p = good.clone();
    p.public_key = signed_payload(5, 1, "x").public_key;
    assert_eq!(
        OracleService::validate_payload(&p),
        Err(PayloadError::SignatureVerificationFailed)
    );
}

#[test]
fn payload_message_is_timestamp_colon_value() {
    assert_eq!(payload_message(0, ""), b"0:".to_vec());
    assert_eq!(payload_message(1_700_000_000, "delivered"), b"1700000000:delivered".to_vec());
    assert_eq!(payload_message(u64::MAX, "é"), "18446744073709551615:é".as_bytes().to_vec());
    assert_eq!(decimal(10), b"10".to_vec());
    assert_eq!(decimal(9), b"9".to_vec());
    assert_eq!(decimal(1234567890), b"1234567890".to_vec());
}

#[test]
fn timestamp_window_allows_a_minute_ahead() {
    assert!(OracleService::timestamp_is_fresh(1000, 1000, 300));
    assert!(OracleService::timestamp_is_fresh(1060, 1000, 300));
    assert!(!OracleService::timestamp_is_fresh(1061, 1000, 300));
    assert!(OracleService::timestamp_is_fresh(700, 1000, 300));
    assert!(!OracleService::timestamp_is_fresh(699, 1000, 300));
    assert!(OracleService::timestamp_is_fresh(0, 100, 300));
    assert!(OracleService::timestamp_is_fresh(u64::MAX, u64::MAX - 10, 300));
    assert!(!OracleService::timestamp_is_fresh(5, 1000, 0));
}

#[test]
fn submission_is_prepared_for_a_well_formed_payload() {
    let p = signed_payload(3, 1_700_000_000, "delivered");
    let secret = format!("  {}\n", "ab".repeat(32));
    let contract = "0F".repeat(32);
    let confirmation = OracleService::submit_confirmation(&p, &secret, &contract).unwrap();
    assert_eq!(confirmation.initial_tx_hash, "real_xdr_built_1700000000");
    assert_eq!(confirmation.status, "ready_to_sign");
    assert_eq!(confirmation.block, 0);
}

#[test]
fn submission_checks_fail_in_order() {
    let good = signed_payload(3, 7, "delivered");
    let secret = "ab".repeat(32);
    let contract = "0f".repeat(32);
    let submit = |p: &OraclePayload, s: &str, c: &str| {
        OracleService::submit_confirmation(p, s, c).map(|c| c.initial_tx_hash)
    };
    assert_eq!(submit(&good, &secret, &contract), Ok("real_xdr_built_7".to_string()));
    assert_eq!(submit(&good, "abcd", "zz"), Err(SubmitError::SecretKeyLength));
    assert_eq!(submit(&good, &"zz".repeat(32), "zz"), Err(SubmitError::InvalidHexKey));

    let mut p = good.clone();
    p.data_type = "x".repeat(33);
    p.signature = String::from("zz");
    assert_eq!(submit(&p, &secret, "zz"), Err(SubmitError::InvalidDataType));
    p.data_type = "x".repeat(32);
    assert_eq!(submit(&p, &secret, "zz"), Err(SubmitError::InvalidSignatureHex));
    p.signature = String::from("00");
    assert_eq!(submit(&p, &secret, "zz"), Err(SubmitError::InvalidContractIdHex));
    assert_eq!(submit(&p, &secret, "00ff"), Err(SubmitError::ContractIdLength));
    assert_eq!(submit(&p, &secret, &contract), Ok("real_xdr_built_7".to_string()));
}

#[test]
fn webhook_is_closed_without_a_secret() {
    let secret = Some(String::from("s3cret"));
    assert_eq!(webhook_access(&secret, "s3cret"), WebhookAccess::Granted);
    assert_eq!(webhook_access(&secret, "s3cre"), WebhookAccess::Unauthorized);
    assert_eq!(webhook_access(&secret, ""), WebhookAccess::Unauthorized);
    assert_eq!(webhook_access(&Some(String::new()), ""), WebhookAccess::NotConfigured);
    assert_eq!(webhook_access(&None, "s3cret"), WebhookAccess::NotConfigured);
}

#[test]
fn confirm_steps_come_in_order() {
    let bad = Err(PayloadError::InvalidSourceHex);
    assert_eq!(
        OracleService::confirm_step(false, bad, false, true),
        ConfirmStep::TimestampOutOfBounds
    );
    assert_eq!(
        OracleService::confirm_step(true, bad, false, true),
        ConfirmStep::Invalid(PayloadError::InvalidSourceHex)
    );
    assert_eq!(
        OracleService::confirm_step(true, Ok(false), false, true),
        ConfirmStep::ValidationFailed
    );
    assert_eq!(
        OracleService::confirm_step(true, Ok(true), false, true),
        ConfirmStep::AwaitingSignatures
    );
    assert_eq!(OracleService::confirm_step(true, Ok(true), true, true), ConfirmStep::Disputed);
    assert_eq!(OracleService::confirm_step(true, Ok(true), true, false), ConfirmStep::Submit);
}

#[test]
fn fresh_and_signed_payload_goes_to_submission() {
    let good = signed_payload(3, 1_700_000_000, "delivered");
    assert_eq!(OracleService::confirm(&good, 1_700_000_100, 300), ConfirmStep::Submit);
    assert_eq!(
        OracleService::confirm(&good, 1_700_000_301, 300),
        ConfirmStep::TimestampOutOfBounds
    );
    let mut forged = good.clone();
    forged.value = String::from("lost");
    assert_eq!(
        OracleService::confirm(&forged, 1_700_000_100, 300),
        ConfirmStep::Invalid(PayloadError::SignatureVerificationFailed)
    );
    // A stale payload is turned away before its signature is looked at.
    assert_eq!(
        OracleService::confirm(&forged, 1_700_000_301, 300),
        ConfirmStep::TimestampOutOfBounds
    );
}

#[test]
fn off_chain_check_accepts_what_a_key_of_small_order_signs() {
    // The neutral point as key and as signature point, and zero as scalar.
    let neutral = format!("01{}", "00".repeat(31));
    let payload = OraclePayload {
        public_key: neutral.clone(),
        timestamp: 5,
        data_type: String::from("iot"),
        value: String::from("anything"),
        signature: format!("{}{}", neutral, "00".repeat(32)),
    };
    assert_eq!(OracleService::validate_payload(&payload), Ok(true));
}
