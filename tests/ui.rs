use bank_statements::ui::{is_download_done, is_expanded, same_text};

#[test]
fn expanded_attribute() {
    assert!(is_expanded(Some("true")));
    assert!(!is_expanded(Some("false")));
    assert!(!is_expanded(Some("True")));
    assert!(!is_expanded(Some("")));
    assert!(!is_expanded(None));
}

#[test]
fn download_state_attribute() {
    assert!(is_download_done("1"));
    assert!(!is_download_done("0"));
    assert!(!is_download_done("11"));
    assert!(!is_download_done(""));
}

#[test]
fn text_comparison() {
    assert!(same_text("", ""));
    assert!(same_text("åbc", "åbc"));
    assert!(!same_text("abc", "abd"));
    assert!(!same_text("ab", "abc"));
}
