//! Reading the events that the ledger's API reports.

use vstd::prelude::*;
use crate::config::ContractsConfig;

verus! {

/// `String::push_str` appends the text to the string.
pub assume_specification[ String::push_str ](s: &mut String, text: &str)
    ensures
        final(s)@ == old(s)@ + text@,
;

/// A JSON document, as far as the event reader looks into it.
#[derive(Debug)]
pub enum Json {
    Null,
    Bool(bool),
    /// A number; the field holds it where it is a non-negative integer that
    /// fits in 64 bits.
    Number(Option<u64>),
    Text(String),
    Array(Vec<Json>),
    /// An object as its members in order; a key occurs once.
    Object(Vec<(String, Json)>),
}

/// Whether a string is the given text.
pub fn text_is(a: &String, b: &str) -> (res: bool)
    ensures
        res == (a@ == b@),
{
    let owned = b.to_owned();
    *a == owned
}

impl Json {
    /// The index of the first member with the given key, if the document is
    /// an object that has one.
    pub open spec fn spec_member_index(self, key: Seq<char>) -> Option<int> {
        match self {
            Json::Object(members) => {
                if exists|i: int| 0 <= i < members@.len() && (#[trigger] members@[i]).0@ == key {
                    Some(
                        choose|i: int|
                            0 <= i < members@.len() && (#[trigger] members@[i]).0@ == key && forall|
                                j: int,
                            |
                                0 <= j < i ==> (#[trigger] members@[j]).0@ != key,
                    )
                } else {
                    None
                }
            },
            _ => None,
        }
    }

    /// The member with the given key, if the document is an object that has
    /// one.
    pub open spec fn spec_member(self, key: Seq<char>) -> Option<Json> {
        match self.spec_member_index(key) {
            Some(i) => Some(self->Object_0@[i].1),
            None => None,
        }
    }

    /// The member with the given key, if the document is an object that has
    /// one.
    pub fn member(&self, key: &str) -> (res: Option<&Json>)
        ensures
            held(res) == self.spec_member(key@),
    {
        match self {
            Json::Object(members) => {
                let mut i: usize = 0;
                while i < members.len()
                    invariant
                        i <= members@.len(),
                        *self == Json::Object(*members),
                        forall|j: int| 0 <= j < i ==> (#[trigger] members@[j]).0@ != key@,
                    decreases members@.len() - i,
                {
                    if text_is(&members[i].0, key) {
                        proof {
                            let k = key@;
                            let first = |c: int|
                                0 <= c < members@.len() && (#[trigger] members@[c]).0@ == k
                                    && forall|j: int|
                                    0 <= j < c ==> (#[trigger] members@[j]).0@ != k;
                            assert(first(i as int));
                            let c = choose|c: int|
                                0 <= c < members@.len() && (#[trigger] members@[c]).0@ == k
                                    && forall|j: int|
                                    0 <= j < c ==> (#[trigger] members@[j]).0@ != k;
                            assert(first(c));
                            if c < i {
                                assert(members@[c].0@ != k);
                            }
                            if i < c {
                                assert(members@[i as int].0@ != k);
                            }
                        }
                        return Some(&members[i].1);
                    }
                    i += 1;
                }
                None
            },
            _ => None,
        }
    }
}

/// The document behind an optional reference.
pub open spec fn held(node: Option<&Json>) -> Option<Json> {
    match node {
        Some(found) => Some(*found),
        None => None,
    }
}

/// The first of two optional documents that is there.
pub open spec fn spec_or(first: Option<Json>, second: Option<Json>) -> Option<Json> {
    if first is Some {
        first
    } else {
        second
    }
}

/// The member `inner` of the member `outer`.
pub open spec fn spec_nested(node: Json, outer: Seq<char>, inner: Seq<char>) -> Option<Json> {
    match node.spec_member(outer) {
        Some(found) => found.spec_member(inner),
        None => None,
    }
}

/// The text of a document that is a text.
pub open spec fn spec_text(node: Option<Json>) -> Option<Seq<char>> {
    match node {
        Some(Json::Text(text)) => Some(text@),
        _ => None,
    }
}

/// The number of a document that is a non-negative integer of 64 bits.
pub open spec fn spec_number(node: Option<Json>) -> Option<u64> {
    match node {
        Some(Json::Number(Some(n))) => Some(n),
        _ => None,
    }
}

/// The first element of a document that is a non-empty array.
pub open spec fn spec_first(node: Option<Json>) -> Option<Json> {
    match node {
        Some(Json::Array(items)) => if items@.len() > 0 {
            Some(items@[0])
        } else {
            None
        },
        _ => None,
    }
}

/// The name of an event: the text found first under `symbol`, under
/// `value.symbol`, under `value` or under `scvSymbol` of the first topic.
/// The place found first counts even where it holds no text.
pub open spec fn spec_topic_symbol(topics: Option<Json>) -> Option<Seq<char>> {
    match spec_first(topics) {
        None => None,
        Some(topic) => spec_text(
            spec_or(
                spec_or(
                    spec_or(
                        topic.spec_member("symbol"@),
                        spec_nested(topic, "value"@, "symbol"@),
                    ),
                    topic.spec_member("value"@),
                ),
                topic.spec_member("scvSymbol"@),
            ),
        ),
    }
}

/// The ledger of a raw event: the number under `ledger`, `ledgerSequence`
/// or `ledger_sequence`, whichever is there first; zero when that is no
/// number.
pub open spec fn spec_event_ledger(event: Json) -> u64 {
    match spec_number(
        spec_or(
            spec_or(event.spec_member("ledger"@), event.spec_member("ledgerSequence"@)),
            event.spec_member("ledger_sequence"@),
        ),
    ) {
        Some(n) => n,
        None => 0,
    }
}

/// An event as the indexer files it.
#[derive(Clone, Debug, PartialEq, Eq)]
pub struct ParsedEvent {
    pub ledger: u64,
    pub contract_id: String,
    pub event_id: String,
    pub event_name: String,
    pub tx_hash: Option<String>,
}

/// A parsed event as plain data.
pub struct ParsedEventView {
    pub ledger: u64,
    pub contract_id: Seq<char>,
    pub event_id: Seq<char>,
    pub event_name: Seq<char>,
    pub tx_hash: Option<Seq<char>>,
}

impl View for ParsedEvent {
    type V = ParsedEventView;

    open spec fn view(&self) -> ParsedEventView {
        ParsedEventView {
            ledger: self.ledger,
            contract_id: self.contract_id@,
            event_id: self.event_id@,
            event_name: self.event_name@,
            tx_hash: match self.tx_hash {
                Some(hash) => Some(hash@),
                None => None,
            },
        }
    }
}

/// The contract id of a raw event: the text under `contractId`,
/// `contract_id` or `contract.id`, whichever is there first.
pub open spec fn spec_contract_id(raw: Json) -> Option<Seq<char>> {
    spec_text(
        spec_or(
            spec_or(raw.spec_member("contractId"@), raw.spec_member("contract_id"@)),
            spec_nested(raw, "contract"@, "id"@),
        ),
    )
}

/// What a raw event parses to. An event without a contract id, or with an
/// empty one, is dropped. The name comes from the first topic and is
/// `UnknownEvent` without one; the ledger is zero and the event id empty
/// where they are missing.
pub open spec fn spec_parse_event(raw: Json) -> Option<ParsedEventView> {
    match spec_contract_id(raw) {
        None => None,
        Some(contract_id) => if contract_id.len() == 0 {
            None
        } else {
            Some(
                ParsedEventView {
                    ledger: match spec_number(
                        spec_or(raw.spec_member("ledger"@), raw.spec_member("ledgerSequence"@)),
                    ) {
                        Some(n) => n,
                        None => 0,
                    },
                    contract_id,
                    event_id: match spec_text(
                        spec_or(raw.spec_member("id"@), raw.spec_member("pagingToken"@)),
                    ) {
                        Some(id) => id,
                        None => Seq::empty(),
                    },
                    event_name: match spec_topic_symbol(
                        spec_or(raw.spec_member("topic"@), raw.spec_member("topics"@)),
                    ) {
                        Some(name) => name,
                        None => "UnknownEvent"@,
                    },
                    tx_hash: spec_text(
                        spec_or(raw.spec_member("txHash"@), raw.spec_member("tx_hash"@)),
                    ),
                },
            )
        },
    }
}

/// The payload of a raw event: what is under `value`, else under `data`.
pub open spec fn spec_event_payload(raw: Json) -> Option<Json> {
    spec_or(raw.spec_member("value"@), raw.spec_member("data"@))
}

/// The first of two optional documents that is there.
fn either<'a>(first: Option<&'a Json>, second: Option<&'a Json>) -> (res: Option<&'a Json>)
    ensures
        held(res) == spec_or(held(first), held(second)),
{
    match first {
        Some(_) => first,
        None => second,
    }
}

/// The member `inner` of the member `outer`.
fn nested<'a>(node: &'a Json, outer: &str, inner: &str) -> (res: Option<&'a Json>)
    ensures
        held(res) == spec_nested(*node, outer@, inner@),
{
    match node.member(outer) {
        Some(found) => found.member(inner),
        None => None,
    }
}

/// A copy of the text of a document that is a text.
fn text_of(node: Option<&Json>) -> (res: Option<String>)
    ensures
        match res {
            Some(text) => spec_text(held(node)) == Some(text@),
            None => spec_text(held(node)) is None,
        },
{
    match node {
        Some(Json::Text(text)) => Some(text.clone()),
        _ => None,
    }
}

/// The number of a document that is a non-negative integer of 64 bits.
fn number_of(node: Option<&Json>) -> (res: Option<u64>)
    ensures
        res == spec_number(held(node)),
{
    match node {
        Some(Json::Number(Some(n))) => Some(*n),
        _ => None,
    }
}

/// The name of an event, from its topics.
pub fn extract_topic_symbol(value: Option<&Json>) -> (res: Option<String>)
    ensures
        match res {
            Some(name) => spec_topic_symbol(held(value)) == Some(name@),
            None => spec_topic_symbol(held(value)) is None,
        },
{
    let topic: &Json = match value {
        Some(Json::Array(items)) => {
            if items.len() == 0 {
                return None;
            }
            &items[0]
        },
        _ => {
            return None;
        },
    };
    let place = either(
        either(
            either(topic.member("symbol"), nested(topic, "value", "symbol")),
            topic.member("value"),
        ),
        topic.member("scvSymbol"),
    );
    text_of(place)
}

/// The ledger of a raw event, zero where it names none.
pub fn extract_event_ledger(event: &Json) -> (res: u64)
    ensures
        res == spec_event_ledger(*event),
{
    let place = either(
        either(event.member("ledger"), event.member("ledgerSequence")),
        event.member("ledger_sequence"),
    );
    match number_of(place) {
        Some(n) => n,
        None => 0,
    }
}

/// The payload of a raw event: what is under `value`, else under `data`.
pub fn event_payload(raw: &Json) -> (res: Option<&Json>)
    ensures
        held(res) == spec_event_payload(*raw),
{
    either(raw.member("value"), raw.member("data"))
}

/// Parses a raw event. An event that names no contract is dropped.
pub fn parse_event(raw: &Json) -> (res: Option<ParsedEvent>)
    ensures
        match res {
            Some(event) => spec_parse_event(*raw) == Some(event@),
            None => spec_parse_event(*raw) is None,
        },
{
    let contract_id: String = match text_of(
        either(either(raw.member("contractId"), raw.member("contract_id")), nested(raw, "contract", "id")),
    ) {
        Some(id) => id,
        None => {
            return None;
        },
    };
    if contract_id.as_str().is_empty() {
        return None;
    }
    let event_name: String = match extract_topic_symbol(
        either(raw.member("topic"), raw.member("topics")),
    ) {
        Some(name) => name,
        None => "UnknownEvent".to_owned(),
    };
    let ledger: u64 = match number_of(either(raw.member("ledger"), raw.member("ledgerSequence"))) {
        Some(n) => n,
        None => 0,
    };
    let tx_hash = text_of(either(raw.member("txHash"), raw.member("tx_hash")));
    let event_id: String = match text_of(either(raw.member("id"), raw.member("pagingToken"))) {
        Some(id) => id,
        None => String::new(),
    };
    let event = ParsedEvent { ledger, contract_id, event_id, event_name, tx_hash };
    proof {
        let expected = spec_parse_event(*raw)->Some_0;
        assert(event@.event_id =~= expected.event_id);
        assert(event@.tx_hash == expected.tx_hash);
    }
    Some(event)
}

/// The text of a decimal digit.
pub open spec fn spec_digit_text(d: nat) -> Seq<char> {
    if d == 0 {
        "0"@
    } else if d == 1 {
        "1"@
    } else if d == 2 {
        "2"@
    } else if d == 3 {
        "3"@
    } else if d == 4 {
        "4"@
    } else if d == 5 {
        "5"@
    } else if d == 6 {
        "6"@
    } else if d == 7 {
        "7"@
    } else if d == 8 {
        "8"@
    } else {
        "9"@
    }
}

/// A number in decimal.
pub open spec fn spec_decimal_text(n: nat) -> Seq<char>
    decreases n,
{
    if n < 10 {
        spec_digit_text(n)
    } else {
        spec_decimal_text(n / 10) + spec_digit_text(n % 10)
    }
}

fn digit_text(d: u64) -> (res: &'static str)
    requires
        d < 10,
    ensures
        res@ == spec_digit_text(d as nat),
{
    if d == 0 {
        "0"
    } else if d == 1 {
        "1"
    } else if d == 2 {
        "2"
    } else if d == 3 {
        "3"
    } else if d == 4 {
        "4"
    } else if d == 5 {
        "5"
    } else if d == 6 {
        "6"
    } else if d == 7 {
        "7"
    } else if d == 8 {
        "8"
    } else {
        "9"
    }
}

/// Appends a number in decimal to a text.
pub(crate) fn push_decimal(text: &mut String, n: u64)
    ensures
        final(text)@ == old(text)@ + spec_decimal_text(n as nat),
    decreases n,
{
    if n < 10 {
        text.push_str(digit_text(n));
    } else {
        push_decimal(text, n / 10);
        text.push_str(digit_text(n % 10));
        proof {
            assert(final(text)@ =~= old(text)@ + (spec_decimal_text((n / 10) as nat)
                + spec_digit_text((n % 10) as nat)));
        }
    }
}

/// The key under which an event of the given kind is filed: the kind and
/// the event id, or, for an event without id, the kind, the transaction
/// hash (`unknown-tx` without one), the ledger and the event name; the
/// parts are joined by colons.
pub open spec fn spec_entity_key(event: ParsedEventView, kind: Seq<char>) -> Seq<char> {
    if event.event_id.len() > 0 {
        kind + ":"@ + event.event_id
    } else {
        kind + ":"@ + (match event.tx_hash {
            Some(hash) => hash,
            None => "unknown-tx"@,
        }) + ":"@ + spec_decimal_text(event.ledger as nat) + ":"@ + event.event_name
    }
}

/// The key under which an event of the given kind is filed.
pub fn entity_key(event: &ParsedEvent, kind: &str) -> (res: String)
    ensures
        res@ == spec_entity_key(event@, kind@),
{
    let mut key: String = kind.to_owned();
    key.push_str(":");
    if !event.event_id.as_str().is_empty() {
        key.push_str(event.event_id.as_str());
        return key;
    }
    match &event.tx_hash {
        Some(hash) => {
            key.push_str(hash.as_str());
        },
        None => {
            key.push_str("unknown-tx");
        },
    }
    key.push_str(":");
    push_decimal(&mut key, event.ledger);
    key.push_str(":");
    key.push_str(event.event_name.as_str());
    key
}

/// Whether two events are the same for the broadcast log: the same
/// transaction, ledger and event name.
pub open spec fn spec_same_record(a: ParsedEventView, b: ParsedEventView) -> bool {
    a.tx_hash == b.tx_hash && a.ledger == b.ledger && a.event_name == b.event_name
}

fn same_record(a: &ParsedEvent, b: &ParsedEvent) -> (res: bool)
    ensures
        res == spec_same_record(a@, b@),
{
    let same_hash = match (&a.tx_hash, &b.tx_hash) {
        (Some(x), Some(y)) => *x == *y,
        (None, None) => true,
        _ => false,
    };
    same_hash && a.ledger == b.ledger && a.event_name == b.event_name
}

/// Whether the log already holds an event with the candidate's
/// transaction, ledger and event name.
pub fn record_exists(records: &Vec<ParsedEvent>, candidate: &ParsedEvent) -> (res: bool)
    ensures
        res == exists|i: int|
            0 <= i < records@.len() && spec_same_record((#[trigger] records@[i])@, candidate@),
{
    let mut i: usize = 0;
    while i < records.len()
        invariant
            i <= records@.len(),
            forall|j: int|
                0 <= j < i ==> !spec_same_record((#[trigger] records@[j])@, candidate@),
        decreases records@.len() - i,
    {
        if same_record(&records[i], candidate) {
            return true;
        }
        i += 1;
    }
    false
}

/// The four ledgers of the mirror.
#[derive(Clone, Copy, Debug, PartialEq, Eq, Structural)]
pub enum EventKind {
    Collateral,
    Escrow,
    Loan,
    Governance,
}

/// Whether the mirror files the event under the given kind: the event must
/// come from the contract configured for the kind and, but for governance,
/// bear one of the kind's names.
pub open spec fn spec_belongs_to(event: ParsedEventView, contracts: ContractsConfig, kind: EventKind)
    -> bool {
    let name = event.event_name;
    match kind {
        EventKind::Collateral => event.contract_id == contracts.collateral_contract_id@ && (name
            == "CollateralDeposited"@ || name == "CollateralReleased"@),
        EventKind::Escrow => event.contract_id == contracts.escrow_contract_id@ && (name
            == "EscrowCreated"@ || name == "EscrowSettled"@ || name == "EscrowExpired"@),
        EventKind::Loan => event.contract_id == contracts.loan_contract_id@ && (name
            == "LoanIssued"@ || name == "LoanRepaid"@ || name == "LoanDefaulted"@),
        EventKind::Governance => match contracts.governance_contract_id {
            Some(id) => event.contract_id == id@,
            None => false,
        },
    }
}

/// Whether the mirror files the event under the given kind.
pub fn belongs_to(event: &ParsedEvent, contracts: &ContractsConfig, kind: EventKind) -> (res: bool)
    ensures
        res == spec_belongs_to(event@, *contracts, kind),
{
    let name = &event.event_name;
    match kind {
        EventKind::Collateral => event.contract_id == contracts.collateral_contract_id && (text_is(
            name,
            "CollateralDeposited",
        ) || text_is(name, "CollateralReleased")),
        EventKind::Escrow => event.contract_id == contracts.escrow_contract_id && (text_is(
            name,
            "EscrowCreated",
        ) || text_is(name, "EscrowSettled") || text_is(name, "EscrowExpired")),
        EventKind::Loan => event.contract_id == contracts.loan_contract_id && (text_is(
            name,
            "LoanIssued",
        ) || text_is(name, "LoanRepaid") || text_is(name, "LoanDefaulted")),
        EventKind::Governance => match &contracts.governance_contract_id {
            Some(id) => event.contract_id == *id,
            None => false,
        },
    }
}

} // verus!
