//! The records the off-chain mirror keeps of what happened on the ledger.

use vstd::prelude::*;

verus! {

/// What a user of the platform acts as.
#[derive(Clone, Copy, Debug, PartialEq, Eq, Structural)]
pub enum UserRole {
    Buyer,
    Seller,
    Oracle,
    Admin,
}

/// Where a mirrored trade escrow stands.
#[derive(Clone, Copy, Debug, PartialEq, Eq, Structural)]
pub enum EscrowStatus {
    Pending,
    Active,
    Released,
    Cancelled,
}

/// The kind of asset behind a collateral token.
#[derive(Clone, Copy, Debug, PartialEq, Eq, Structural)]
pub enum AssetType {
    Invoice,
    Commodity,
    Receivable,
}

/// Where a collateral token stands. `Locked` means locked in an escrow.
#[derive(Clone, Copy, Debug, PartialEq, Eq, Structural)]
pub enum TokenStatus {
    Active,
    Locked,
    Burned,
}

/// Where a registered collateral stands.
#[derive(Clone, Copy, Debug, PartialEq, Eq, Structural)]
pub enum CollateralStatus {
    Active,
    Locked,
    Expired,
    Burned,
}

/// What a mirrored transaction did.
#[derive(Clone, Copy, Debug, PartialEq, Eq, Structural)]
pub enum TransactionType {
    Tokenize,
    EscrowCreate,
    EscrowRelease,
    Transfer,
}

/// Where a mirrored transaction stands.
#[derive(Clone, Copy, Debug, PartialEq, Eq, Structural)]
pub enum TransactionStatus {
    Pending,
    Confirmed,
    Failed,
}

/// The kinds of event an oracle can attest, as the mirror names them.
#[derive(Clone, Copy, Debug, PartialEq, Eq, Structural)]
pub enum OracleEventType {
    Shipment,
    Delivery,
    Quality,
    Custom,
}

impl OracleEventType {
    /// The number that stands for the event type in a confirmation.
    pub open spec fn spec_code(self) -> i32 {
        match self {
            OracleEventType::Shipment => 1,
            OracleEventType::Delivery => 2,
            OracleEventType::Quality => 3,
            OracleEventType::Custom => 4,
        }
    }

    /// The number that stands for the event type in a confirmation.
    pub fn code(&self) -> (res: i32)
        ensures
            res == self.spec_code(),
    {
        match self {
            OracleEventType::Shipment => 1,
            OracleEventType::Delivery => 2,
            OracleEventType::Quality => 3,
            OracleEventType::Custom => 4,
        }
    }
}

/// Whether a mirrored confirmation was verified yet, and with what outcome.
#[derive(Clone, Copy, Debug, PartialEq, Eq, Structural)]
pub enum VerificationStatus {
    Pending,
    Verified,
    Failed,
}

/// The envelope of every answer of the API.
#[derive(Debug)]
pub struct ApiResponse<T> {
    pub success: bool,
    pub data: Option<T>,
    pub error: Option<String>,
}

/// Which page of a listing is asked for.
#[derive(Clone, Copy, Debug, PartialEq, Eq)]
pub struct PaginationParams {
    pub page: Option<i32>,
    pub limit: Option<i32>,
}

/// One page of a listing.
#[derive(Debug)]
pub struct PaginatedResponse<T> {
    pub data: Vec<T>,
    pub total: i64,
    pub page: i32,
    pub limit: i32,
}

/// What is sent to register an oracle with the mirror.
#[derive(Clone, Debug, PartialEq, Eq)]
pub struct OracleRegistrationRequest {
    pub address: String,
    pub name: Option<String>,
    pub endpoint_url: Option<String>,
    pub public_key: Option<String>,
}

/// A signed data point that an oracle submits.
#[derive(Clone, Debug, PartialEq, Eq)]
pub struct OraclePayload {
    /// The oracle's Ed25519 public key, hex-encoded.
    pub public_key: String,
    pub timestamp: u64,
    /// What the data is about, such as "shipping" or "iot".
    pub data_type: String,
    pub value: String,
    /// The signature, hex-encoded.
    pub signature: String,
}

/// What submitting a payload to the ledger came to.
#[derive(Clone, Debug, PartialEq, Eq)]
pub struct OracleConfirmation {
    pub initial_tx_hash: String,
    pub status: String,
    pub block: u64,
}

/// A payload together with when, and as what, it was processed.
#[derive(Clone, Debug, PartialEq, Eq)]
pub struct OracleEvent {
    pub event_type: String,
    pub payload: OraclePayload,
    pub processed_at: i64,
}

/// How far the collection of signatures for one data point has come.
#[derive(Clone, Debug, PartialEq, Eq)]
pub struct AggregationState {
    pub required_signatures: usize,
    /// The sources that have signed so far.
    pub received_signatures: Vec<String>,
}

impl Default for AggregationState {
    /// Two signatures are required, none has been received.
    fn default() -> (res: AggregationState)
        ensures
            res.required_signatures == 2,
            res.received_signatures@.len() == 0,
    {
        AggregationState { required_signatures: 2, received_signatures: Vec::new() }
    }
}

/// An event of a contract as the ledger's API reports it.
#[derive(Clone, Debug, PartialEq, Eq)]
pub struct SorobanEvent {
    pub _id: String,
    pub _event_type: String,
    pub _contract_id: String,
    pub topic: Vec<String>,
    pub _value: String,
    pub _ledger: u64,
}

/// Why the event monitor did not start.
#[derive(Clone, Copy, Debug, PartialEq, Eq, Structural)]
pub enum StartError {
    NoContractsConfigured,
}

} // verus!
