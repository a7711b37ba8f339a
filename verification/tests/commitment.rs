use evm_rpc_dashboard::commitment::{
    block_to_commitment, commitment_for_tag, default_commitment, CommitmentConfig, CommitmentLevel,
};

fn config(commitment: CommitmentLevel) -> Option<CommitmentConfig> {
    Some(CommitmentConfig { commitment })
}

#[test]
fn no_tag_no_commitment() {
    assert_eq!(block_to_commitment(None), None);
}

#[test]
fn named_tags() {
    assert_eq!(block_to_commitment(Some("earliest".to_string())), config(CommitmentLevel::Root));
    assert_eq!(block_to_commitment(Some("latest".to_string())), config(CommitmentLevel::Single));
    assert_eq!(block_to_commitment(Some("pending".to_string())), config(CommitmentLevel::Single));
}

#[test]
fn json_level_names() {
    let cases = [
        ("\"max\"", CommitmentLevel::Max),
        ("\"recent\"", CommitmentLevel::Recent),
        ("\"root\"", CommitmentLevel::Root),
        ("\"single\"", CommitmentLevel::Single),
        ("\"singleGossip\"", CommitmentLevel::SingleGossip),
        ("\"processed\"", CommitmentLevel::Processed),
        ("\"confirmed\"", CommitmentLevel::Confirmed),
        ("\"finalized\"", CommitmentLevel::Finalized),
    ];
    for (tag, level) in cases {
        assert_eq!(block_to_commitment(Some(tag.to_string())), config(level), "{}", tag);
    }
}

#[test]
fn slot_numbers_and_junk_select_no_commitment() {
    assert_eq!(block_to_commitment(Some("123".to_string())), None);
    assert_eq!(block_to_commitment(Some("0x10".to_string())), None);
    assert_eq!(block_to_commitment(Some("root".to_string())), None);
    assert_eq!(block_to_commitment(Some("\"Root\"".to_string())), None);
    assert_eq!(block_to_commitment(Some("".to_string())), None);
}

#[test]
fn tag_commitment_given_json_reading() {
    assert_eq!(commitment_for_tag("earliest", Some(CommitmentLevel::Processed)), config(CommitmentLevel::Root));
    assert_eq!(commitment_for_tag("pending", None), config(CommitmentLevel::Single));
    assert_eq!(commitment_for_tag("x", Some(CommitmentLevel::Confirmed)), config(CommitmentLevel::Confirmed));
    assert_eq!(commitment_for_tag("x", None), None);
}

#[test]
fn default_is_recent() {
    assert_eq!(default_commitment(), config(CommitmentLevel::Recent));
    assert_eq!(CommitmentConfig::recent().commitment, CommitmentLevel::Recent);
}

#[test]
fn json_level_after_whitespace() {
    assert_eq!(block_to_commitment(Some(" \"recent\"".to_string())), config(CommitmentLevel::Recent));
    assert_eq!(block_to_commitment(Some("\n\"root\"".to_string())), config(CommitmentLevel::Root));
}

#[test]
fn slot_tags_agree_with_no_tag_and_latest_with_pending() {
    assert_eq!(block_to_commitment(Some("0x10".to_string())), block_to_commitment(Some("5".to_string())));
    assert_eq!(block_to_commitment(Some("5".to_string())), block_to_commitment(None));
    assert_eq!(
        block_to_commitment(Some("latest".to_string())),
        block_to_commitment(Some("pending".to_string()))
    );
}
