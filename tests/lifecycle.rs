use illustrator::codes::{
    ASErr, CACHES_FLUSH_RESPONSE, CANCELED_ERR, CANT_ACQUIRE_PLUGIN_ERROR, NO_ERR,
    SUITE_NOT_FOUND_ERROR, UNHANDLED_MSG_ERR,
};
use illustrator::dispatch::{classify, Classified, Event};
use illustrator::entry::{Adapter, Entry};
use illustrator::error_policy::AlertRoute;
use illustrator::plugin::{
    notify_follow_up, purge_reply, Dispatch, Hook, HostCall, HostReply, NotifierKind, Phase,
    Plugin, Routed,
};
use illustrator::suites::{next_mandatory, SuiteId};

const STARTED_TOKEN: u64 = 11;
const SHUTDOWN_TOKEN: u64 = 12;
const ACCESS: u64 = 77;

/// Answers a startup call: every call succeeds unless it is `fail_at`.
fn answer(call: HostCall, index: usize, fail_at: Option<(usize, ASErr)>) -> HostReply {
    if let Some((i, code)) = fail_at {
        if i == index {
            return HostReply { status: code, handle: 0 };
        }
    }
    let handle = match call {
        HostCall::AddNotifier(NotifierKind::ApplicationStarted) => STARTED_TOKEN,
        HostCall::AddNotifier(NotifierKind::ApplicationShutdown) => SHUTDOWN_TOKEN,
        HostCall::AcquireAccess => ACCESS,
        _ => 0,
    };
    HostReply { status: NO_ERR, handle }
}

fn run_startup(adapter: &mut Adapter, fail_at: Option<(usize, ASErr)>) -> (ASErr, Vec<SuiteId>, Vec<HostCall>) {
    let plugin = Plugin::new(5, "Resizer");
    let mut replies: Vec<HostReply> = Vec::new();
    let mut calls = Vec::new();
    while let Some(call) = plugin.startup_next(&replies) {
        calls.push(call);
        replies.push(answer(call, replies.len(), fail_at));
    }
    let (code, rollback) = adapter.install(plugin, &replies);
    (code, rollback, calls)
}

fn started_adapter() -> Adapter {
    let mut adapter = Adapter::new();
    let entry = adapter.begin(classify(b"SP Interface", b"Startup"), 0);
    assert_eq!(entry, Entry::Startup);
    let (code, rollback, _) = run_startup(&mut adapter, None);
    assert_eq!(code, NO_ERR);
    assert!(rollback.is_empty());
    adapter
}

#[test]
fn clean_startup_then_menu_click() {
    let mut adapter = started_adapter();
    let p = adapter.instance.as_ref().unwrap();
    assert_eq!(p.lock_count, 1);
    assert_eq!(p.plugin_access, ACCESS);
    assert!(p.SuitesAcquired());
    assert_eq!(p.phase, Phase::Running);
    assert_eq!(p.app_started_notifier, STARTED_TOKEN);
    assert_eq!(p.app_shutdown_notifier, SHUTDOWN_TOKEN);
    let entry = adapter.begin(classify(b"AI Menu", b"Go Menu Item"), 0);
    assert_eq!(
        entry,
        Entry::Route(Routed { dispatch: Dispatch::Handler(Event::GoMenuItem), acquire_optional: true })
    );
    // optional suites are asked for once only
    let again = adapter.begin(classify(b"AI Menu", b"Go Menu Item"), 0);
    assert_eq!(
        again,
        Entry::Route(Routed { dispatch: Dispatch::Handler(Event::GoMenuItem), acquire_optional: false })
    );
}

#[test]
fn startup_calls_in_order() {
    let mut adapter = Adapter::new();
    let (_, _, calls) = run_startup(&mut adapter, None);
    assert_eq!(
        calls,
        vec![
            HostCall::AcquireSuite(SuiteId::Basic),
            HostCall::AcquireSuite(SuiteId::User),
            HostCall::AcquireSuite(SuiteId::Plugins),
            HostCall::AcquireSuite(SuiteId::Notifier),
            HostCall::AcquireSuite(SuiteId::Access),
            HostCall::SetPluginName,
            HostCall::AddNotifier(NotifierKind::ApplicationStarted),
            HostCall::AddNotifier(NotifierKind::ApplicationShutdown),
            HostCall::AcquireAccess,
        ]
    );
}

#[test]
fn unknown_caller_is_success_without_alert() {
    let mut adapter = started_adapter();
    let entry = adapter.begin(classify(b"UNKNOWN", b"ANYTHING"), 0);
    assert_eq!(entry, Entry::Route(Routed { dispatch: Dispatch::Reply(UNHANDLED_MSG_ERR), acquire_optional: true }));
    let (code, alert) = adapter.finish(UNHANDLED_MSG_ERR, 100, true, true);
    assert_eq!(code, NO_ERR);
    assert!(alert.is_none());
    assert_eq!(adapter.instance.as_ref().unwrap().errors.last_error, NO_ERR);
}

#[test]
fn unknown_caller_before_startup_is_success() {
    let mut adapter = Adapter::new();
    assert_eq!(adapter.begin(classify(b"UNKNOWN", b"ANYTHING"), 0), Entry::Done(NO_ERR));
    assert_eq!(adapter.begin(classify(b"AI Menu", b"Go Menu Item"), 0), Entry::Done(NO_ERR));
    let (code, alert) = adapter.finish(UNHANDLED_MSG_ERR, 0, true, true);
    assert_eq!(code, NO_ERR);
    assert!(alert.is_none());
}

#[test]
fn duplicate_error_suppression() {
    let mut adapter = started_adapter();
    let e: ASErr = 0x4641_494c; // 'FAIL'
    let (c0, a0) = adapter.finish(e, 0, true, true);
    assert_eq!(c0, e);
    assert!(a0.is_some());
    assert_eq!(adapter.instance.as_ref().unwrap().errors.last_error_time, 0);
    let (_, a2) = adapter.finish(e, 2, true, true);
    assert!(a2.is_none());
    assert_eq!(adapter.instance.as_ref().unwrap().errors.last_error, e);
    assert_eq!(adapter.instance.as_ref().unwrap().errors.last_error_time, 0);
    let (_, a6) = adapter.finish(e, 6, true, true);
    assert!(a6.is_some());
    assert_eq!(adapter.instance.as_ref().unwrap().errors.last_error, e);
    assert_eq!(adapter.instance.as_ref().unwrap().errors.last_error_time, 6);
}

#[test]
fn a_different_error_is_not_suppressed() {
    let mut adapter = started_adapter();
    assert!(adapter.finish(7, 0, true, true).1.is_some());
    assert!(adapter.finish(8, 1, true, true).1.is_some());
    assert!(adapter.finish(7, 2, true, true).1.is_some());
}

#[test]
fn cache_purge_reply() {
    let mut adapter = started_adapter();
    let entry = adapter.begin(classify(b"SP Cache", b"Plug-in Purge"), 0);
    assert_eq!(entry, Entry::Route(Routed { dispatch: Dispatch::Purge, acquire_optional: true }));
    let code = purge_reply(true);
    assert_eq!(code, CACHES_FLUSH_RESPONSE);
    let (host, alert) = adapter.finish(code, 0, true, true);
    assert_eq!(host, CACHES_FLUSH_RESPONSE);
    assert!(alert.is_none());
    assert_eq!(purge_reply(false), NO_ERR);
}

#[test]
fn notifier_bound_to_startup_token() {
    let mut adapter = started_adapter();
    let entry = adapter.begin(classify(b"AI Notifier", b"Notify"), STARTED_TOKEN);
    assert_eq!(
        entry,
        Entry::Route(Routed {
            dispatch: Dispatch::Notify { hook: Some(Hook::PostStartup), generic: true },
            acquire_optional: true
        })
    );
    assert!(notify_follow_up(NO_ERR, true));
    assert!(notify_follow_up(UNHANDLED_MSG_ERR, true));
    assert!(!notify_follow_up(CANCELED_ERR, true));
    assert!(!notify_follow_up(NO_ERR, false));
    let shutdown = adapter.begin(classify(b"AI Notifier", b"Notify"), SHUTDOWN_TOKEN);
    assert_eq!(
        shutdown,
        Entry::Route(Routed {
            dispatch: Dispatch::Notify { hook: Some(Hook::PreShutdown), generic: true },
            acquire_optional: false
        })
    );
    let other = adapter.begin(classify(b"AI Notifier", b"Other"), 99);
    assert_eq!(
        other,
        Entry::Route(Routed { dispatch: Dispatch::Notify { hook: None, generic: false }, acquire_optional: false })
    );
}

#[test]
fn reload_after_relocation() {
    let mut adapter = started_adapter();
    assert_eq!(adapter.begin(classify(b"SP Access", b"Reload"), 0), Entry::Reload);
    assert!(!adapter.reload_needs_suites());
    let (code, release) = adapter.reload(&[]);
    assert_eq!(code, NO_ERR);
    assert!(release.is_empty());
    let p = adapter.instance.as_ref().unwrap();
    assert_eq!(p.suites.unwrap().ref_count, 1);
    let entry = adapter.begin(classify(b"AI Filter", b"Go Filter"), 0);
    assert_eq!(entry, Entry::Route(Routed { dispatch: Dispatch::Handler(Event::GoFilter), acquire_optional: true }));
}

#[test]
fn unload_then_reload_acquires_again() {
    let mut adapter = started_adapter();
    let entry = adapter.begin(classify(b"SP Access", b"Unload"), 0);
    assert_eq!(entry, Entry::Route(Routed { dispatch: Dispatch::Unload, acquire_optional: true }));
    let (code, release) = adapter.unload();
    assert_eq!(code, NO_ERR);
    assert_eq!(release, vec![SuiteId::Access, SuiteId::Notifier, SuiteId::Plugins, SuiteId::User, SuiteId::Basic]);
    assert_eq!(adapter.instance.as_ref().unwrap().phase, Phase::Unloaded);
    // no dispatch while unloaded
    assert_eq!(adapter.begin(classify(b"AI Menu", b"Go Menu Item"), 0), Entry::Done(NO_ERR));
    assert!(adapter.reload_needs_suites());
    let mut replies: Vec<ASErr> = Vec::new();
    while let Some(_) = next_mandatory(&replies) {
        replies.push(NO_ERR);
    }
    assert_eq!(replies.len(), 5);
    let (code, release) = adapter.reload(&replies);
    assert_eq!(code, NO_ERR);
    assert!(release.is_empty());
    assert_eq!(adapter.instance.as_ref().unwrap().phase, Phase::Running);
}

#[test]
fn failed_reload_rolls_back() {
    let mut adapter = started_adapter();
    adapter.unload();
    let (code, release) = adapter.reload(&[NO_ERR, NO_ERR, SUITE_NOT_FOUND_ERROR]);
    assert_eq!(code, SUITE_NOT_FOUND_ERROR);
    assert_eq!(release, vec![SuiteId::User, SuiteId::Basic]);
    assert!(!adapter.instance.as_ref().unwrap().SuitesAcquired());
}

#[test]
fn shutdown_is_terminal() {
    let mut adapter = started_adapter();
    assert_eq!(adapter.begin(classify(b"SP Interface", b"Shutdown"), 0), Entry::Shutdown);
    let (code, release) = adapter.shutdown();
    assert_eq!(code, NO_ERR);
    assert_eq!(release.len(), 5);
    assert!(adapter.instance.is_none());
    assert_eq!(adapter.begin(classify(b"AI Menu", b"Go Menu Item"), 0), Entry::Done(NO_ERR));
    assert_eq!(adapter.begin(classify(b"AI Notifier", b"Notify"), STARTED_TOKEN), Entry::Done(NO_ERR));
    assert_eq!(adapter.begin(classify(b"SP Interface", b"Shutdown"), 0), Entry::Done(NO_ERR));
}

#[test]
fn failed_startup_leaves_nothing_behind() {
    let mut adapter = Adapter::new();
    let fail: ASErr = 0x4e41_4d45;
    let (code, rollback, calls) = run_startup(&mut adapter, Some((5, fail)));
    assert_eq!(code, fail);
    assert_eq!(calls.len(), 6);
    assert_eq!(rollback, vec![SuiteId::Access, SuiteId::Notifier, SuiteId::Plugins, SuiteId::User, SuiteId::Basic]);
    assert!(adapter.instance.is_none());
    let (host, alert) = adapter.finish(code, 0, false, true);
    assert_eq!(host, fail);
    assert_eq!(alert.unwrap().route, AlertRoute::Borrowed);
}

#[test]
fn failed_suite_acquisition_releases_earlier_suites() {
    let mut adapter = Adapter::new();
    let (code, rollback, calls) = run_startup(&mut adapter, Some((2, SUITE_NOT_FOUND_ERROR)));
    assert_eq!(code, SUITE_NOT_FOUND_ERROR);
    assert_eq!(calls.len(), 3);
    assert_eq!(rollback, vec![SuiteId::User, SuiteId::Basic]);
    assert!(adapter.instance.is_none());
}

#[test]
fn refused_access_fails_startup() {
    let mut adapter = Adapter::new();
    let plugin = Plugin::new(5, "Resizer");
    let mut replies: Vec<HostReply> = Vec::new();
    while let Some(call) = plugin.startup_next(&replies) {
        let mut r = answer(call, replies.len(), None);
        if call == HostCall::AcquireAccess {
            r.handle = 0;
        }
        replies.push(r);
    }
    let (code, rollback) = adapter.install(plugin, &replies);
    assert_eq!(code, CANT_ACQUIRE_PLUGIN_ERROR);
    assert_eq!(rollback.len(), 5);
    assert!(adapter.instance.is_none());
}

#[test]
fn reply_codes_never_alert() {
    let mut adapter = started_adapter();
    let (code, alert) = adapter.finish(CANCELED_ERR, 0, true, true);
    assert_eq!(code, CANCELED_ERR);
    assert!(alert.is_none());
    assert_eq!(adapter.instance.as_ref().unwrap().errors.last_error, NO_ERR);
    assert!(Plugin::DefaultError(361, true, true).is_none());
    assert!(Plugin::DefaultError(CACHES_FLUSH_RESPONSE, true, true).is_none());
}

#[test]
fn every_event_is_classified_by_its_key() {
    let cases: Vec<(&[u8], &[u8], Event)> = vec![
        (b"SP Access", b"Unload", Event::Unload),
        (b"SP Interface", b"About", Event::About),
        (b"SP Properties", b"Acquire", Event::AcquireProperty),
        (b"SP Properties", b"Release", Event::ReleaseProperty),
        (b"Action Manager", b"Do Action", Event::GoAction),
        (b"AI Menu", b"Update Menu Item", Event::UpdateMenuItem),
        (b"AI Filter", b"Get Parameters", Event::GetFilterParameters),
        (b"AI Plugin Group", b"AI Notify Edits", Event::PluginGroupNotify),
        (b"AI Plugin Group", b"AI Update Art", Event::PluginGroupUpdate),
        (b"AI File Format", b"AI Go", Event::GoFileFormat),
        (b"AI File Format", b"Do Action", Event::SetFileFormatParameters),
        (b"AI Tool", b"AI Mouse Down", Event::ToolMouseDown),
        (b"AI Tool", b"AI Increase Diameter", Event::IncreaseDiameter),
        (b"AI Live Effect", b"AI Go Live Effect", Event::GoLiveEffect),
        (b"AI Live Effect", b"AI Handle Merge", Event::LiveEffectHandleMerge),
        (b"AI Timer", b"AI Go Timer", Event::GoTimer),
        (b"AI Clipboard", b"AI Can Copy", Event::CanCopyClipboard),
        (b"AIWorkspace", b"AIWSDefault", Event::WorkspaceDefault),
    ];
    for (caller, selector, event) in cases {
        assert_eq!(classify(caller, selector), Classified::Keyed(event));
    }
    assert_eq!(classify(b"AI Tool", b"Go Menu Item"), Classified::Unknown);
    assert_eq!(classify(b"AI Too", b"AI Mouse Down"), Classified::Unknown);
    assert_eq!(classify(b"AI Notifier", b"Anything"), Classified::Notifier { generic: false });
}

#[test]
fn shutdown_selector_inside_dispatch_is_unhandled() {
    let mut p = Plugin::new(1, "X");
    let routed = p.Message(classify(b"SP Interface", b"Shutdown"), 0);
    assert_eq!(routed.dispatch, Dispatch::Reply(UNHANDLED_MSG_ERR));
    assert!(!routed.acquire_optional);
    let about = p.Message(classify(b"SP Interface", b"About"), 0);
    assert_eq!(about.dispatch, Dispatch::Reply(NO_ERR));
}

#[test]
fn reload_message_is_recognised() {
    assert!(Plugin::IsReloadMsg(b"SP Access", b"Reload"));
    assert!(!Plugin::IsReloadMsg(b"SP Access", b"Unload"));
    assert!(!Plugin::IsReloadMsg(b"SP Interface", b"Reload"));
}

#[test]
fn reload_leaves_the_table_a_startup_leaves() {
    let fresh = started_adapter();
    let after_startup = fresh.instance.as_ref().unwrap().suites;
    let mut adapter = started_adapter();
    adapter.unload();
    let (code, _) = adapter.reload(&[NO_ERR; 5]);
    assert_eq!(code, NO_ERR);
    assert_eq!(adapter.instance.as_ref().unwrap().suites, after_startup);
    // and again after a message was routed by both
    let mut fresh = fresh;
    fresh.begin(classify(b"AI Timer", b"AI Go Timer"), 0);
    adapter.begin(classify(b"AI Timer", b"AI Go Timer"), 0);
    assert_eq!(adapter.instance.as_ref().unwrap().suites, fresh.instance.as_ref().unwrap().suites);
}
