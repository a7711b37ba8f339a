//! Which state of the ledger a request reads, chosen from its block tag.

use vstd::prelude::*;
use crate::numeric_text::text_eq;
#[allow(deprecated)]
use solana_sdk::commitment_config::CommitmentLevel as Outside;

verus! {

/// How settled the ledger state is that a request reads.
#[derive(Clone, Copy, Debug, PartialEq, Eq, Structural)]
pub enum CommitmentLevel {
    Max,
    Recent,
    Root,
    Single,
    SingleGossip,
    Processed,
    Confirmed,
    Finalized,
}

/// The commitment that a request asks for.
#[derive(Clone, Copy, Debug, PartialEq, Eq, Structural)]
pub struct CommitmentConfig {
    pub commitment: CommitmentLevel,
}

impl CommitmentConfig {
    /// The commitment of the most recent slot.
    pub fn recent() -> (res: CommitmentConfig)
        ensures
            res.commitment == CommitmentLevel::Recent,
    {
        CommitmentConfig { commitment: CommitmentLevel::Recent }
    }
}

/// The commitment used when a call does not choose one: the most recent slot.
pub fn default_commitment() -> (res: Option<CommitmentConfig>)
    ensures
        res == Some(CommitmentConfig { commitment: CommitmentLevel::Recent }),
{
    Some(CommitmentConfig::recent())
}

/// The camel-case name under which a commitment level is written in JSON.
pub open spec fn level_name(level: CommitmentLevel) -> Seq<char> {
    match level {
        CommitmentLevel::Max => seq!['m', 'a', 'x'],
        CommitmentLevel::Recent => seq!['r', 'e', 'c', 'e', 'n', 't'],
        CommitmentLevel::Root => seq!['r', 'o', 'o', 't'],
        CommitmentLevel::Single => seq!['s', 'i', 'n', 'g', 'l', 'e'],
        CommitmentLevel::SingleGossip => seq![
            's',
            'i',
            'n',
            'g',
            'l',
            'e',
            'G',
            'o',
            's',
            's',
            'i',
            'p',
        ],
        CommitmentLevel::Processed => seq!['p', 'r', 'o', 'c', 'e', 's', 's', 'e', 'd'],
        CommitmentLevel::Confirmed => seq!['c', 'o', 'n', 'f', 'i', 'r', 'm', 'e', 'd'],
        CommitmentLevel::Finalized => seq!['f', 'i', 'n', 'a', 'l', 'i', 'z', 'e', 'd'],
    }
}

/// A text in double quotes, as a JSON string without escapes.
pub open spec fn json_string(text: Seq<char>) -> Seq<char> {
    seq!['"'] + text + seq!['"']
}

/// What `serde_json::from_str` gives when it reads a text as a
/// `solana_sdk::commitment_config::CommitmentLevel`: the level, or `None` where it fails.
pub uninterp spec fn json_commitment_level(text: Seq<char>) -> Option<CommitmentLevel>;

/// Whether a character can begin the JSON of an enum value as `serde_json` reads it:
/// JSON whitespace, the quote of a string, or the brace of an object.
pub open spec fn may_begin_json_enum(c: char) -> bool {
    c == ' ' || c == '\n' || c == '\t' || c == '\r' || c == '"' || c == '{'
}

/// Reads a commitment level written in JSON, by `serde_json::from_str` into
/// `solana_sdk::commitment_config::CommitmentLevel`. Claimed: the result is a function of
/// the text alone; a JSON string that holds exactly a level's camel-case name (the
/// names that type's `serde(rename_all = "camelCase")` gives) reads as that level; and
/// an empty text, or one whose first character is neither JSON whitespace, a quote nor
/// a brace, reads as no level (serde_json reads an enum only from a string or an
/// object). Which other texts are accepted (whitespace, escapes, objects) is left to
/// the name.
#[verifier::external_body]
#[allow(deprecated)]
fn commitment_level_from_json(text: &str) -> (res: Option<CommitmentLevel>)
    ensures
        res == json_commitment_level(text@),
        forall|level: CommitmentLevel| text@ == json_string(level_name(level)) ==> res == Some(level),
        text@.len() == 0 || !may_begin_json_enum(text@[0]) ==> res is None,
{
    match serde_json::from_str::<Outside>(text) {
        Ok(Outside::Max) => Some(CommitmentLevel::Max),
        Ok(Outside::Recent) => Some(CommitmentLevel::Recent),
        Ok(Outside::Root) => Some(CommitmentLevel::Root),
        Ok(Outside::Single) => Some(CommitmentLevel::Single),
        Ok(Outside::SingleGossip) => Some(CommitmentLevel::SingleGossip),
        Ok(Outside::Processed) => Some(CommitmentLevel::Processed),
        Ok(Outside::Confirmed) => Some(CommitmentLevel::Confirmed),
        Ok(Outside::Finalized) => Some(CommitmentLevel::Finalized),
        Err(_) => None,
    }
}

/// Whether a block tag is one of the named tags `earliest`, `latest` or `pending`.
pub open spec fn is_named_tag(tag: Seq<char>) -> bool {
    tag == "earliest"@ || tag == "latest"@ || tag == "pending"@
}

/// The commitment a block tag selects, given what the tag reads as in JSON: `earliest`
/// reads the root, `latest` and `pending` a single confirmation; any other tag the
/// commitment level it names in JSON, and a tag that names none (such as a slot
/// number) selects no commitment.
pub open spec fn tag_commitment(tag: Seq<char>, json_level: Option<CommitmentLevel>) -> Option<
    CommitmentConfig,
> {
    if tag == "earliest"@ {
        Some(CommitmentConfig { commitment: CommitmentLevel::Root })
    } else if tag == "latest"@ || tag == "pending"@ {
        Some(CommitmentConfig { commitment: CommitmentLevel::Single })
    } else {
        match json_level {
            Some(level) => Some(CommitmentConfig { commitment: level }),
            None => None,
        }
    }
}

/// The commitment a block tag selects, where `json_level` is what the tag reads as in JSON.
pub fn commitment_for_tag(tag: &str, json_level: Option<CommitmentLevel>) -> (res: Option<
    CommitmentConfig,
>)
    ensures
        res == tag_commitment(tag@, json_level),
{
    if text_eq(tag, "earliest") {
        Some(CommitmentConfig { commitment: CommitmentLevel::Root })
    } else if text_eq(tag, "latest") || text_eq(tag, "pending") {
        Some(CommitmentConfig { commitment: CommitmentLevel::Single })
    } else {
        match json_level {
            Some(level) => Some(CommitmentConfig { commitment: level }),
            None => None,
        }
    }
}

/// The commitment of the bank that a request with an optional block tag reads: none
/// without a tag; otherwise as `tag_commitment`, the tag read as JSON where it is not
/// one of the named tags.
pub fn block_to_commitment(block: Option<String>) -> (res: Option<CommitmentConfig>)
    ensures
        block is None ==> res is None,
        block matches Some(tag) ==> res == tag_commitment(tag@, json_commitment_level(tag@)),
        block matches Some(tag) ==> forall|level: CommitmentLevel|
            #![trigger json_string(level_name(level))]
            tag@ == json_string(level_name(level)) ==> res == Some(
                CommitmentConfig { commitment: level },
            ),
        block matches Some(tag) ==> (!is_named_tag(tag@) && (tag@.len() == 0
            || !may_begin_json_enum(tag@[0])) ==> res is None),
{
    proof {
        assert forall|level: CommitmentLevel| !is_named_tag(#[trigger] json_string(level_name(level))) by {
            reveal_strlit("earliest");
            reveal_strlit("latest");
            reveal_strlit("pending");
            assert(json_string(level_name(level))[0] == '"');
        }
    }
    match block {
        None => None,
        Some(tag) => {
            let t = tag.as_str();
            if text_eq(t, "earliest") || text_eq(t, "latest") || text_eq(t, "pending") {
                commitment_for_tag(t, None)
            } else {
                let parsed = commitment_level_from_json(t);
                commitment_for_tag(t, parsed)
            }
        },
    }
}

/// Law: the tags `latest` and `pending` select the same commitment, whatever either
/// reads as in JSON.
pub proof fn law_latest_and_pending_agree(a: Option<CommitmentLevel>, b: Option<CommitmentLevel>)
    ensures
        tag_commitment("latest"@, a) == tag_commitment("pending"@, b),
        tag_commitment("latest"@, a) == Some(CommitmentConfig { commitment: CommitmentLevel::Single }),
{
    reveal_strlit("latest");
    reveal_strlit("earliest");
    reveal_strlit("pending");
    assert("latest"@ != "earliest"@) by {
        assert("latest"@[0] != "earliest"@[0]);
    }
    assert("pending"@ != "earliest"@) by {
        assert("pending"@[0] != "earliest"@[0]);
    }
}

} // verus!
