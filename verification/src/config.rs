//! Which contracts the off-chain monitor watches.

use vstd::prelude::*;

verus! {

/// Whether a character is whitespace: whether it has the Unicode property
/// White_Space. These are the tab, the line and page breaks, the space, and
/// the spaces and separators beyond ASCII.
pub open spec fn spec_is_whitespace(c: char) -> bool {
    let n = c as u32;
    ||| 0x09 <= n <= 0x0d
    ||| n == 0x20
    ||| n == 0x85
    ||| n == 0xa0
    ||| n == 0x1680
    ||| 0x2000 <= n <= 0x200a
    ||| n == 0x2028
    ||| n == 0x2029
    ||| n == 0x202f
    ||| n == 0x205f
    ||| n == 0x3000
}

/// The text without its leading whitespace.
pub open spec fn spec_trim_start(text: Seq<char>) -> Seq<char>
    decreases text.len(),
{
    if text.len() > 0 && spec_is_whitespace(text[0]) {
        spec_trim_start(text.skip(1))
    } else {
        text
    }
}

/// The text without its trailing whitespace.
pub open spec fn spec_trim_end(text: Seq<char>) -> Seq<char>
    decreases text.len(),
{
    if text.len() > 0 && spec_is_whitespace(text.last()) {
        spec_trim_end(text.drop_last())
    } else {
        text
    }
}

/// The text without its leading and trailing whitespace.
pub open spec fn spec_trimmed(text: Seq<char>) -> Seq<char> {
    spec_trim_end(spec_trim_start(text))
}

/// Calls `str::trim`. Trusted: the result is the text without its leading
/// and trailing whitespace, where whitespace is what has the Unicode
/// property White_Space.
#[verifier::external_body]
pub(crate) fn trimmed(text: &str) -> (res: &str)
    ensures
        res@ == spec_trimmed(text@),
{
    text.trim()
}

/// Whether a text is empty or all whitespace.
pub open spec fn spec_blank(text: Seq<char>) -> bool {
    spec_trimmed(text).len() == 0
}

/// A text that starts with a character that is no whitespace keeps it when
/// its end is trimmed.
proof fn trim_end_keeps_a_solid_start(text: Seq<char>)
    requires
        text.len() > 0,
        !spec_is_whitespace(text[0]),
    ensures
        spec_trim_end(text).len() > 0,
    decreases text.len(),
{
    if spec_is_whitespace(text.last()) {
        assert(text.len() > 1);
        assert(text.drop_last()[0] == text[0]);
        trim_end_keeps_a_solid_start(text.drop_last());
    }
}

/// Trimming the start leaves nothing exactly when every character is
/// whitespace, and what it leaves does not start with whitespace.
proof fn trim_start_facts(text: Seq<char>)
    ensures
        spec_trim_start(text).len() == 0 <==> forall|i: int|
            0 <= i < text.len() ==> spec_is_whitespace(#[trigger] text[i]),
        spec_trim_start(text).len() > 0 ==> !spec_is_whitespace(spec_trim_start(text)[0]),
    decreases text.len(),
{
    if text.len() > 0 && spec_is_whitespace(text[0]) {
        let rest = text.skip(1);
        trim_start_facts(rest);
        if forall|i: int| 0 <= i < rest.len() ==> spec_is_whitespace(#[trigger] rest[i]) {
            assert forall|i: int| 0 <= i < text.len() implies spec_is_whitespace(
                #[trigger] text[i],
            ) by {
                if i > 0 {
                    assert(rest[i - 1] == text[i]);
                }
            }
        }
        if forall|i: int| 0 <= i < text.len() ==> spec_is_whitespace(#[trigger] text[i]) {
            assert forall|i: int| 0 <= i < rest.len() implies spec_is_whitespace(
                #[trigger] rest[i],
            ) by {
                assert(rest[i] == text[i + 1]);
            }
        }
    } else if text.len() > 0 {
        assert(!spec_is_whitespace(text[0]));
    }
}

/// A text is blank exactly when each of its characters is whitespace; the
/// empty text is blank.
pub proof fn blank_is_all_whitespace(text: Seq<char>)
    ensures
        spec_blank(text) <==> forall|i: int|
            0 <= i < text.len() ==> spec_is_whitespace(#[trigger] text[i]),
{
    trim_start_facts(text);
    let kept = spec_trim_start(text);
    if kept.len() > 0 {
        trim_end_keeps_a_solid_start(kept);
    }
}

/// The ids of the deployed contracts. An id that was not configured is
/// empty.
#[derive(Clone, Debug)]
pub struct ContractsConfig {
    pub collateral_contract_id: String,
    pub escrow_contract_id: String,
    pub loan_contract_id: String,
    pub governance_contract_id: Option<String>,
}

/// The texts of a list of strings.
pub open spec fn texts(ids: Seq<String>) -> Seq<Seq<char>> {
    ids.map_values(|id: String| id@)
}

/// `ids` with `id` added at the end unless it is blank.
pub open spec fn with_configured(ids: Seq<Seq<char>>, id: Seq<char>) -> Seq<Seq<char>> {
    if spec_blank(id) {
        ids
    } else {
        ids.push(id)
    }
}

impl ContractsConfig {
    /// The ids to watch: collateral, escrow, loan and governance, in this
    /// order, without those that are blank or not set.
    pub open spec fn spec_monitored(self) -> Seq<Seq<char>> {
        let required = with_configured(
            with_configured(
                with_configured(Seq::empty(), self.collateral_contract_id@),
                self.escrow_contract_id@,
            ),
            self.loan_contract_id@,
        );
        match self.governance_contract_id {
            Some(id) => with_configured(required, id@),
            None => required,
        }
    }

    /// The ids of the contracts to watch: collateral, escrow, loan and
    /// governance, in this order, without those that are blank or not set.
    pub fn monitored_contract_ids(&self) -> (res: Vec<String>)
        ensures
            texts(res@) == self.spec_monitored(),
    {
        let mut ids: Vec<String> = Vec::new();
        proof {
            assert(texts(ids@) =~= Seq::<Seq<char>>::empty());
        }
        add_configured(&mut ids, &self.collateral_contract_id);
        add_configured(&mut ids, &self.escrow_contract_id);
        add_configured(&mut ids, &self.loan_contract_id);
        match &self.governance_contract_id {
            Some(id) => {
                add_configured(&mut ids, id);
            },
            None => {},
        }
        ids
    }
}

/// Whether a text is empty or all whitespace.
pub fn is_blank(text: &String) -> (res: bool)
    ensures
        res == spec_blank(text@),
{
    trimmed(text.as_str()).is_empty()
}

/// Adds a copy of `id` at the end of `ids` unless it is blank.
fn add_configured(ids: &mut Vec<String>, id: &String)
    ensures
        texts(final(ids)@) == with_configured(texts(old(ids)@), id@),
{
    if !is_blank(id) {
        let ghost before = ids@;
        let copy = id.clone();
        ids.push(copy);
        proof {
            assert(texts(ids@) =~= texts(before).push(id@));
        }
    }
}

} // verus!
