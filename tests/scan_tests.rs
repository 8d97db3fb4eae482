use zkpop::{metadata_matches, note_expired};

#[test]
fn metadata_filter_is_substring() {
    assert!(metadata_matches("note1:payment", Some("payment")));
    assert!(metadata_matches("note1:payment", Some("e1:p")));
    assert!(!metadata_matches("note1:payment", Some("refund")));
    assert!(!metadata_matches("pay", Some("payment")));
    assert!(metadata_matches("anything", None));
    assert!(metadata_matches("anything", Some("")));
    assert!(metadata_matches("", Some("")));
}

#[test]
fn expiry_is_strictly_before_now() {
    assert!(note_expired(Some(90), 100));
    assert!(!note_expired(Some(100), 100));
    assert!(!note_expired(None, 100));
}
