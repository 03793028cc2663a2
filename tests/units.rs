use illustrator::codes::{is_reply, ASErr, CANT_ACQUIRE_PLUGIN_ERROR, NO_ERR, SUITE_NOT_FOUND_ERROR};
use illustrator::cstr::{bounded_buffer, bytes_eq, copy_cstr_to_buffer, cstr_len, UnicodeString, MAX_STRING_LENGTH};
use illustrator::error_policy::{alert_label, decimal, AlertRoute, ErrorRecord};
use illustrator::plugin::{HostCall, HostReply, NotifierKind, Plugin};
use illustrator::suites::{next_mandatory, SuiteId, Suites};

const OK: HostReply = HostReply { status: NO_ERR, handle: 0 };

#[test]
fn lock_then_unlock_restores_count_and_access() {
    let mut p = Plugin::new(3, "Lock");
    assert_eq!(p.lock_request(true), Some(HostCall::AcquireAccess));
    assert_eq!(p.LockPlugin(true, HostReply { status: NO_ERR, handle: 40 }), NO_ERR);
    assert_eq!((p.lock_count, p.plugin_access), (1, 40));
    assert_eq!(p.lock_request(true), None);
    assert_eq!(p.LockPlugin(true, OK), NO_ERR);
    assert_eq!((p.lock_count, p.plugin_access), (2, 40));
    assert_eq!(p.LockPlugin(false, OK), NO_ERR);
    assert_eq!((p.lock_count, p.plugin_access), (1, 40));
    assert_eq!(p.lock_request(false), Some(HostCall::ReleaseAccess(40)));
    assert_eq!(p.LockPlugin(false, OK), NO_ERR);
    assert_eq!((p.lock_count, p.plugin_access), (0, 0));
}

#[test]
fn unbalanced_unlock_stays_at_zero() {
    let mut p = Plugin::new(3, "Lock");
    assert_eq!(p.lock_request(false), None);
    assert_eq!(p.LockPlugin(false, OK), NO_ERR);
    assert_eq!(p.LockPlugin(false, OK), NO_ERR);
    assert_eq!((p.lock_count, p.plugin_access), (0, 0));
}

#[test]
fn refused_pin_changes_nothing() {
    let mut p = Plugin::new(3, "Lock");
    let err: ASErr = 0x4241_4420;
    assert_eq!(p.LockPlugin(true, HostReply { status: err, handle: 9 }), err);
    assert_eq!((p.lock_count, p.plugin_access), (0, 0));
    assert_eq!(p.LockPlugin(true, HostReply { status: NO_ERR, handle: 0 }), CANT_ACQUIRE_PLUGIN_ERROR);
    assert_eq!((p.lock_count, p.plugin_access), (0, 0));
}

#[test]
fn long_name_is_truncated_and_terminated() {
    let long: String = "n".repeat(300);
    let p = Plugin::new(1, &long);
    assert_eq!(p.name.len(), MAX_STRING_LENGTH);
    assert_eq!(p.name[MAX_STRING_LENGTH - 1], 0);
    assert!(p.name[..MAX_STRING_LENGTH - 1].iter().all(|&b| b == b'n'));
    assert_eq!(p.get_plugin_name_str().len(), MAX_STRING_LENGTH - 1);
}

#[test]
fn short_name_and_notifier_names() {
    let p = Plugin::new(1, "Resizer");
    assert_eq!(p.get_plugin_name_str(), b"Resizer".to_vec());
    let started = p.notifier_name(NotifierKind::ApplicationStarted);
    let text = b"Resizer App Started Notifier";
    assert_eq!(&started[..text.len()], text);
    assert!(started[text.len()..].iter().all(|&b| b == 0));
    let shutdown = p.notifier_name(NotifierKind::ApplicationShutdown);
    let text = b"Resizer Application Shutdown Notifier";
    assert_eq!(&shutdown[..text.len()], text);
    assert_eq!(shutdown.len(), MAX_STRING_LENGTH);
}

#[test]
fn bounded_buffer_keeps_short_text() {
    let b = bounded_buffer(b"abc");
    assert_eq!(&b[..4], b"abc\0");
    assert_eq!(b.len(), MAX_STRING_LENGTH);
    assert_eq!(cstr_len(&b), 3);
    assert_eq!(cstr_len(b"no terminator"), 13);
}

#[test]
fn copy_into_small_buffer_cuts() {
    let mut dst = [7i8; 4];
    copy_cstr_to_buffer("hello\0", &mut dst);
    assert_eq!(dst, [b'h' as i8, b'e' as i8, b'l' as i8, b'l' as i8]);
    let mut big = [7i8; 8];
    copy_cstr_to_buffer("hi\0", &mut big);
    assert_eq!(big, [b'h' as i8, b'i' as i8, 0, 7, 7, 7, 7, 7]);
}

#[test]
fn bytes_compare_exactly() {
    assert!(bytes_eq(b"AI Tool", b"AI Tool"));
    assert!(!bytes_eq(b"AI Tool", b"AI Tools"));
    assert!(!bytes_eq(b"AI Tool", b"AI Toul"));
}

#[test]
fn unicode_string_keeps_text() {
    assert_eq!(UnicodeString::new("Error 42").text, "Error 42");
}

#[test]
fn labels_decimal_or_four_chars() {
    assert_eq!(alert_label(42), b"42".to_vec());
    assert_eq!(alert_label(-5), b"-5".to_vec());
    assert_eq!(alert_label(16384), b"16384".to_vec());
    assert_eq!(alert_label(16385), vec![0, 0, 0x40, 0x01]);
    assert_eq!(alert_label(0x4641_494c), b"FAIL".to_vec());
    assert_eq!(decimal(i32::MIN), b"-2147483648".to_vec());
    assert_eq!(decimal(0), b"0".to_vec());
}

#[test]
fn default_error_paths() {
    let bound = Plugin::DefaultError(42, true, false).unwrap();
    assert_eq!(bound.label, b"42".to_vec());
    assert_eq!(bound.route, AlertRoute::Bound);
    let borrowed = Plugin::DefaultError(0x4641_494c, false, true).unwrap();
    assert_eq!(borrowed.label, b"FAIL".to_vec());
    assert_eq!(borrowed.route, AlertRoute::Borrowed);
    assert!(Plugin::DefaultError(42, false, false).is_none());
    assert!(Plugin::DefaultError(0, true, true).is_none());
}

#[test]
fn reply_set_membership() {
    assert!(is_reply(361));
    assert!(is_reply(0));
    assert!(is_reply(SUITE_NOT_FOUND_ERROR));
    assert!(Plugin::FilterError(CANT_ACQUIRE_PLUGIN_ERROR));
    assert!(!is_reply(1));
    assert!(!is_reply(0x4641_494c));
}

#[test]
fn error_record_defaults_and_suppression() {
    let mut rec = ErrorRecord::new();
    assert_eq!(rec.error_timeout, 5);
    assert!(rec.suppress_duplicates);
    assert!(rec.report(9, 10));
    assert!(rec.should_suppress(9, 14));
    assert!(!rec.should_suppress(9, 15));
    assert!(!rec.should_suppress(8, 11));
    assert!(!rec.report(9, 14));
    rec.suppress_duplicates = false;
    assert!(rec.report(9, 14));
    assert_eq!(rec.last_error_time, 14);
}

#[test]
fn suite_table_from_replies() {
    let ok = [NO_ERR; 5];
    let t = Suites::new(&ok).unwrap();
    assert_eq!(t.Error(), NO_ERR);
    assert!(!t.optional_acquired);
    let fail: ASErr = 0x4641_494c;
    assert_eq!(Suites::new(&[NO_ERR, fail]).err(), Some(fail));
    assert_eq!(Suites::rollback(&[NO_ERR, fail]), vec![SuiteId::Basic]);
    assert_eq!(Suites::new(&[NO_ERR, NO_ERR]).err(), Some(SUITE_NOT_FOUND_ERROR));
    assert_eq!(Suites::rollback(&[NO_ERR, NO_ERR]), vec![SuiteId::User, SuiteId::Basic]);
    assert!(Suites::rollback(&ok).is_empty());
    assert_eq!(t.release_order(), vec![SuiteId::Access, SuiteId::Notifier, SuiteId::Plugins, SuiteId::User, SuiteId::Basic]);
}

#[test]
fn next_mandatory_stops_at_failure() {
    assert_eq!(next_mandatory(&[]), Some(SuiteId::Basic));
    assert_eq!(next_mandatory(&[NO_ERR, NO_ERR]), Some(SuiteId::Plugins));
    assert_eq!(next_mandatory(&[NO_ERR, 3]), None);
    assert_eq!(next_mandatory(&[NO_ERR; 5]), None);
}

#[test]
fn optional_suites_are_asked_for_once() {
    let mut t = Suites::new(&[NO_ERR; 5]).unwrap();
    t.InitializeRefCount();
    assert_eq!(t.ref_count, 1);
    assert!(t.acquire_Optional_Suites());
    assert!(!t.acquire_Optional_Suites());
    assert!(t.optional_acquired);
}

#[test]
fn instance_without_suites_asks_for_nothing_optional() {
    let mut p = Plugin::new(1, "X");
    assert!(!p.AcquireOptionalSuites());
    assert!(!p.SuitesAcquired());
    assert_eq!(p.SetGlobal(), NO_ERR);
}
