use zitefy::services::tempfiles::{current_time, time_from, TempFile, TempFileService, TTL_SECS};

fn s(text: &str) -> String {
    text.to_string()
}

#[test]
fn token_is_readable_until_it_expires() {
    let mut registry = TempFileService::new();
    let token = registry.add_file(s("/tmp/x.png"));
    assert_eq!(registry.get_file(&token), Some(s("/tmp/x.png")));
    let later = current_time() + 121;
    assert_eq!(registry.get_file_at(&token, later), None);
}

#[test]
fn simulated_clock_scenario() {
    let mut registry = TempFileService::new();
    registry.add_file_with(s("T"), s("/tmp/x.png"), 1_000);
    assert_eq!(registry.get_file_at("T", 1_000), Some(s("/tmp/x.png")));
    assert_eq!(registry.get_file_at("T", 1_121), None);
}

#[test]
fn ttl_boundary_is_exact() {
    let mut registry = TempFileService::new();
    registry.add_file_with(s("T"), s("/tmp/a"), 500);
    assert_eq!(registry.get_file_at("T", 619), Some(s("/tmp/a")));
    assert_eq!(registry.get_file_at("T", 619), Some(s("/tmp/a")));
    assert_eq!(registry.len(), 1);
    assert_eq!(registry.get_file_at("T", 620), None);
    assert_eq!(registry.len(), 0);
}

#[test]
fn ttl_is_two_minutes() {
    assert_eq!(TTL_SECS, 120);
    let file = TempFile::starting_at(s("/tmp/a"), 7);
    assert_eq!(file.expiry(), 127);
    assert_eq!(file.path(), "/tmp/a");
    assert!(file.is_live_at(126));
    assert!(!file.is_live_at(127));
}

#[test]
fn expiry_never_overflows() {
    let file = TempFile::starting_at(s("/tmp/a"), u64::MAX);
    assert_eq!(file.expiry(), u64::MAX as u128 + 120);
    assert!(file.is_live_at(u64::MAX));
}

#[test]
fn new_entry_expires_two_minutes_from_now() {
    let before = current_time() as u128;
    let file = TempFile::new(s("/tmp/now.png"));
    let after = current_time() as u128;
    assert_eq!(file.path(), "/tmp/now.png");
    assert!(before + 120 <= file.expiry());
    assert!(file.expiry() <= after + 120);
}

#[test]
fn clock_before_the_epoch_reads_as_the_epoch() {
    assert_eq!(time_from(None), 0);
    assert_eq!(time_from(Some(0)), 0);
    assert_eq!(time_from(Some(1_700_000_000)), 1_700_000_000);
    assert_eq!(time_from(Some(u64::MAX)), u64::MAX);
}

#[test]
fn clock_is_past_the_epoch() {
    assert!(current_time() > 1_600_000_000);
}

#[test]
fn evicted_token_does_not_come_back() {
    let mut registry = TempFileService::new();
    registry.add_file_with(s("T"), s("/tmp/a"), 0);
    assert_eq!(registry.get_file_at("T", 120), None);
    assert_eq!(registry.get_file_at("T", 120), None);
    assert_eq!(registry.get_file_at("T", 5), None);
    assert_eq!(registry.len(), 0);
}

#[test]
fn unknown_token_is_absent() {
    let mut registry = TempFileService::new();
    registry.add_file_with(s("T"), s("/tmp/a"), 0);
    assert_eq!(registry.get_file_at("U", 1), None);
    assert_eq!(registry.get_file_at("", 1), None);
    assert_eq!(registry.len(), 1);
    assert_eq!(registry.get_file_at("T", 1), Some(s("/tmp/a")));
}

#[test]
fn consecutive_tokens_differ() {
    let mut registry = TempFileService::new();
    let first = registry.add_file(s("/tmp/same.png"));
    let second = registry.add_file(s("/tmp/same.png"));
    assert_ne!(first, second);
    assert_eq!(registry.len(), 2);
    assert_eq!(registry.get_file(&first), Some(s("/tmp/same.png")));
    assert_eq!(registry.get_file(&second), Some(s("/tmp/same.png")));
}

#[test]
fn token_has_hyphenated_lowercase_shape() {
    let mut registry = TempFileService::new();
    let token = registry.add_file(s("/tmp/a"));
    let chars: Vec<char> = token.chars().collect();
    assert_eq!(chars.len(), 36);
    for (i, c) in chars.iter().enumerate() {
        if i == 8 || i == 13 || i == 18 || i == 23 {
            assert_eq!(*c, '-');
        } else {
            assert!(c.is_ascii_digit() || ('a'..='f').contains(c));
        }
    }
    assert_eq!(chars[14], '4');
}

#[test]
fn unread_expired_entries_stay_until_read() {
    let mut registry = TempFileService::new();
    registry.add_file_with(s("A"), s("/tmp/a"), 0);
    registry.add_file_with(s("B"), s("/tmp/b"), 1_000);
    assert_eq!(registry.get_file_at("B", 1_050), Some(s("/tmp/b")));
    assert_eq!(registry.len(), 2);
    assert_eq!(registry.get_file_at("A", 1_050), None);
    assert_eq!(registry.len(), 1);
}

#[test]
fn reissued_token_replaces_its_entry() {
    let mut registry = TempFileService::new();
    registry.add_file_with(s("T"), s("/tmp/a"), 0);
    registry.add_file_with(s("T"), s("/tmp/b"), 100);
    assert_eq!(registry.len(), 1);
    assert_eq!(registry.get_file_at("T", 219), Some(s("/tmp/b")));
    assert_eq!(registry.get_file_at("T", 220), None);
}

#[test]
fn empty_registry_holds_nothing() {
    let mut registry = TempFileService::new();
    assert_eq!(registry.len(), 0);
    assert_eq!(registry.get_file("anything"), None);
}
