use slot::text::{find_from, same_text, starts_with};

#[test]
fn text_helpers_agree_with_std() {
    assert!(same_text("abc", "abc"));
    assert!(!same_text("abc", "abd"));
    assert!(starts_with("Connected to Home", "Connected"));
    assert!(!starts_with("Con", "Connected"));
    assert_eq!(find_from("a | IP b | IP c", " | IP ", 0), Some(1));
    assert_eq!(find_from("a | IP b | IP c", " | IP ", 2), Some(8));
    assert_eq!(find_from("abc", "z", 0), None);
}
