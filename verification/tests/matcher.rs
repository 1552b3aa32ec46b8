//! Blacklist matcher behaviour: exact, case-sensitive equality against the
//! window's class or title.

use romodoro::matcher::is_blacklisted;

fn list(entries: &[&str]) -> Vec<String> {
    entries.iter().map(|e| e.to_string()).collect()
}

#[test]
fn matching_is_case_sensitive() {
    let r = is_blacklisted(
        &"Discord".to_string(),
        &"".to_string(),
        &list(&["discord"]),
    );
    assert!(!r);
}

#[test]
fn exact_class_match_hits() {
    let r = is_blacklisted(
        &"Discord".to_string(),
        &"".to_string(),
        &list(&["Discord"]),
    );
    assert!(r);
}

#[test]
fn exact_title_match_hits() {
    let r = is_blacklisted(
        &"brave".to_string(),
        &"New Tab - Brave".to_string(),
        &list(&["New Tab - Brave"]),
    );
    assert!(r);
}

#[test]
fn substrings_do_not_match() {
    let r = is_blacklisted(
        &"Discord Canary".to_string(),
        &"Discordia".to_string(),
        &list(&["Discord"]),
    );
    assert!(!r);
}

#[test]
fn untrimmed_entries_do_not_match() {
    let r = is_blacklisted(
        &"Discord".to_string(),
        &"".to_string(),
        &list(&[" Discord", "Discord "]),
    );
    assert!(!r);
}

#[test]
fn empty_blacklist_matches_nothing() {
    let r = is_blacklisted(&"Discord".to_string(), &"Discord".to_string(), &Vec::new());
    assert!(!r);
}

#[test]
fn later_entries_are_searched_too() {
    let r = is_blacklisted(
        &"Signal".to_string(),
        &"".to_string(),
        &list(&["brave-browser", "telegram-desktop", "Signal"]),
    );
    assert!(r);
}
