use sendme::bytes::{copy_bytes, same_id};
use sendme::clock::{epoch_ms, low_millis, now_ms};
use sendme::delivery::delivery_outcome;
use sendme::desktop::{
    app_state_initial, first_deep_link, is_orphaned_entry, opens_window, second_instance_call,
    text_starts_with, url_before_query, AppState, ClipboardWatcher, SecondInstance,
};
use sendme::error::{PhraseError, WireError};

#[test]
fn a_message_is_delivered_where_either_way_worked() {
    let down: Result<(), &str> = Err("topic");
    let cut: Result<(), &str> = Err("neighbours");
    assert_eq!(delivery_outcome::<&str>(Ok(()), Ok(())), Ok(()));
    assert_eq!(delivery_outcome(Ok(()), cut), Ok(()));
    assert_eq!(delivery_outcome(down, Ok(())), Ok(()));
    assert_eq!(delivery_outcome(down, cut), Err("topic"));
}

#[test]
fn milliseconds_are_cut_to_64_bits() {
    assert_eq!(low_millis(5), 5);
    assert_eq!(low_millis(u64::MAX as u128), u64::MAX);
    assert_eq!(low_millis(u64::MAX as u128 + 8), 7);
}

#[test]
fn a_clock_before_the_epoch_is_an_error() {
    assert_eq!(epoch_ms(None), Err(PhraseError::ClockBeforeEpoch));
    assert_eq!(epoch_ms(Some(1_700_000_000_123)), Ok(1_700_000_000_123));
    assert_eq!(epoch_ms(Some(u64::MAX as u128 + 1)), Ok(0));
}

#[test]
fn the_clock_shows_a_time_after_2020_and_does_not_stand_still() {
    let first = now_ms().unwrap();
    assert!(first > 1_577_836_800_000);
    assert!(now_ms().unwrap() >= first);
}

#[test]
fn working_directories_are_told_by_their_names() {
    assert!(is_orphaned_entry(".sendme-send-1a", true));
    assert!(is_orphaned_entry(".sendme-recv-", true));
    assert!(!is_orphaned_entry(".sendme-send-1a", false));
    assert!(is_orphaned_entry(".sendme-other", true));
    assert!(is_orphaned_entry(".sendme-sen", true));
    assert!(is_orphaned_entry(".sendme-blobs-1", true));
    assert!(is_orphaned_entry(".sendme-", true));
    assert!(!is_orphaned_entry(".sendme", true));
    assert!(!is_orphaned_entry("x.sendme-send-1", true));
}

#[test]
fn prefixes_go_by_characters() {
    assert!(text_starts_with("\u{e9}t\u{e9}", "\u{e9}"));
    assert!(text_starts_with("abc", ""));
    assert!(!text_starts_with("ab", "abc"));
    assert!(!text_starts_with("\u{e9}", "\u{e8}"));
}

#[test]
fn the_first_deep_link_is_found() {
    let args = vec![
        "sendme".to_string(),
        "--flag".to_string(),
        "sendme://receive?ticket=a".to_string(),
        "sendme://other".to_string(),
    ];
    assert_eq!(first_deep_link(&args), Some(2));
    assert_eq!(first_deep_link(&args[..2]), None);
    assert_eq!(first_deep_link(&[]), None);
}

#[test]
fn a_second_instance_is_for_its_first_link_where_links_are_arguments() {
    let args = vec!["sendme".to_string(), "/tmp/a".to_string(), "sendme://x".to_string()];
    assert_eq!(second_instance_call(&args, true), SecondInstance::Link(2));
    assert_eq!(second_instance_call(&args, false), SecondInstance::Path);
    assert_eq!(second_instance_call(&args[..2], true), SecondInstance::Path);
}

#[test]
fn every_white_space_is_trimmed_and_nothing_else() {
    let spaces = [
        '\u{9}', '\u{a}', '\u{b}', '\u{c}', '\u{d}', '\u{20}', '\u{85}', '\u{a0}', '\u{1680}',
        '\u{2000}', '\u{200a}', '\u{2028}', '\u{2029}', '\u{202f}', '\u{205f}', '\u{3000}',
    ];
    for space in spaces {
        let mut watcher = ClipboardWatcher::new();
        let text = format!("{}a b{}", space, space);
        assert_eq!(watcher.observe(&text), Some("a b".to_string()));
    }
    for other in ['\u{8}', '\u{e}', '\u{1f}', '\u{180e}', '\u{200b}', '\u{2060}', '\u{feff}'] {
        let mut watcher = ClipboardWatcher::new();
        let text = format!("{}a{}", other, other);
        assert_eq!(watcher.observe(&text), Some(text.clone()));
    }
}

#[test]
fn a_report_leaves_the_query_out() {
    assert_eq!(url_before_query("sendme://receive?ticket=a?b"), "sendme://receive");
    assert_eq!(url_before_query("sendme://receive"), "sendme://receive");
    assert_eq!(url_before_query("?x"), "");
    assert_eq!(url_before_query(""), "");
    assert_eq!(url_before_query("s\u{fc}\u{df}?x"), "s\u{fc}\u{df}");
}

#[test]
fn a_link_opens_the_window_only_where_nothing_is_shared() {
    assert!(opens_window(false, "receive", true));
    assert!(!opens_window(true, "receive", true));
    assert!(!opens_window(false, "receive", false));
    assert!(!opens_window(false, "send", true));
    assert!(!opens_window(false, "receiver", true));
    assert!(!opens_window(false, "receiv", true));
}

#[test]
fn a_share_that_starts_or_runs_is_a_share() {
    let mut state: AppState<u8> = app_state_initial();
    assert!(state.current_share.is_none());
    assert!(!state.is_sharing());
    state.is_share_starting = true;
    assert!(state.is_sharing());
    state.is_share_starting = false;
    state.current_share = Some(1);
    assert!(state.is_sharing());
}

#[test]
fn the_clipboard_is_news_once() {
    let mut watcher = ClipboardWatcher::new();
    assert_eq!(watcher.observe("  sendme://a \n"), Some("sendme://a".to_string()));
    assert_eq!(watcher.last, Some("sendme://a".to_string()));
    assert_eq!(watcher.observe("sendme://a"), None);
    assert_eq!(watcher.observe("sendme://b"), Some("sendme://b".to_string()));
    assert_eq!(watcher.observe("sendme://a\u{2003}"), Some("sendme://a".to_string()));
}

#[test]
fn an_empty_clipboard_is_forgotten() {
    let mut watcher = ClipboardWatcher::new();
    assert_eq!(watcher.observe("x"), Some("x".to_string()));
    assert_eq!(watcher.observe(" \t"), None);
    assert_eq!(watcher.last, None);
    assert_eq!(watcher.observe_trimmed("x"), Some("x".to_string()));
    assert_eq!(watcher.observe_trimmed("x"), None);
}

#[test]
fn errors_have_their_texts() {
    let texts = [
        (PhraseError::SenderFinish, "SPAKE2 sender finish failed"),
        (PhraseError::ReceiverFinish, "SPAKE2 receiver finish failed"),
        (PhraseError::KeyExpand, "hkdf expand failed"),
        (PhraseError::AckExpand, "ack hkdf expand failed"),
        (PhraseError::Encrypt, "encrypt envelope failed"),
        (PhraseError::Decrypt, "decrypt ticket envelope failed"),
        (PhraseError::Encode, "encode failed"),
        (
            PhraseError::Decode(WireError::UnexpectedEnd),
            "Hit the end of buffer, expected more data",
        ),
        (
            PhraseError::Decode(WireError::BadVarint),
            "Found a varint that didn't terminate. Is the usize too big for this platform?",
        ),
        (PhraseError::Decode(WireError::BadUtf8), "Tried to parse invalid utf-8"),
        (PhraseError::Decode(WireError::UnknownVariant), "Serde Deserialization Error"),
        (PhraseError::GossipClosed, "gossip receiver closed"),
        (PhraseError::HandoffTimeout, "phrase handoff timeout"),
        (PhraseError::ResolveTimeout, "phrase resolve timeout"),
        (PhraseError::ClockBeforeEpoch, "system time before unix epoch"),
    ];
    for (error, text) in texts {
        assert_eq!(error.message(), text);
    }
}

#[test]
fn identifiers_compare_by_all_their_bytes() {
    let a = [4u8; 32];
    let mut b = a;
    assert!(same_id(&a, &b));
    b[31] = 5;
    assert!(!same_id(&a, &b));
    assert_eq!(copy_bytes(&[1, 2]), vec![1, 2]);
}
