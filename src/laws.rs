//! Properties that relate several operations of the adapter, proved.
use vstd::prelude::*;

use crate::codes::{is_reply_code, ASErr, NO_ERR};
use crate::cstr::{bounded_cstr, MAX_STRING_LENGTH};
use crate::dispatch::Classified;
use crate::entry::{after_routing, entry_decision, installed, Adapter, Entry};
use crate::error_policy::{after_report, alerts, ErrorRecord};
use crate::plugin::{
    calls_handler, lock_outcome, purge_code, reloaded, run_status, started, startup_plan,
    startup_rollback_suites, startup_suites_held, steps_done, HostReply, Phase, Plugin,
};
use crate::suites::mandatory_suites;

verus! {

/// With no live instance (before a startup succeeded, or after a failed
/// one, or after a shutdown, which always discards the instance) no message
/// is routed, so no handler method is called.
pub proof fn no_route_without_instance(msg: Classified, notifier: u64)
    ensures
        !(entry_decision(None, msg, notifier) is Route),
{
}

/// A message reaches the handler only through a live instance that runs
/// with a suite table; a live instance is one whose startup succeeded
/// (`Adapter::install` keeps no other).
pub proof fn handler_needs_running_instance(inst: Option<Plugin>, msg: Classified, notifier: u64)
    requires
        inst matches Some(p) ==> installed(p),
    ensures
        entry_decision(inst, msg, notifier) matches Entry::Route(rt) && calls_handler(rt.dispatch)
            ==> (inst matches Some(p) && p.phase == Phase::Running && p.suites is Some),
{
}

/// At every boundary between host calls the live instance holds an access
/// exactly while it is pinned.
pub proof fn access_held_iff_pinned(a: Adapter)
    requires
        a.wf(),
    ensures
        a.instance matches Some(p) ==> (p.plugin_access != 0 <==> p.lock_count > 0),
{
}

/// Once a failure alerted, the same failure within the window does not
/// alert again.
pub proof fn one_alert_per_window(rec: ErrorRecord, code: ASErr, t1: i64, t2: i64)
    requires
        rec.suppress_duplicates,
        alerts(rec, code, t1),
        t2 < t1 + rec.error_timeout,
    ensures
        !alerts(after_report(rec, code, t1), code, t2),
        after_report(after_report(rec, code, t1), code, t2) == after_report(rec, code, t1),
{
}

/// The record after reports of `code` at each of `times`, in order.
pub open spec fn record_after(rec: ErrorRecord, code: ASErr, times: Seq<i64>) -> ErrorRecord
    decreases times.len(),
{
    if times.len() == 0 {
        rec
    } else {
        after_report(record_after(rec, code, times.drop_last()), code, times.last())
    }
}

/// Whether the `i`-th of the reports of `code` at `times` alerts.
pub open spec fn alerted_at(rec: ErrorRecord, code: ASErr, times: Seq<i64>, i: int) -> bool {
    alerts(record_after(rec, code, times.take(i)), code, times[i])
}

/// After the `i`-th report alerted, the record keeps `code` with a time no
/// earlier than that report's.
proof fn record_keeps_alert(rec: ErrorRecord, code: ASErr, times: Seq<i64>, i: int, m: int)
    requires
        0 <= i < m <= times.len(),
        forall|a: int, b: int| 0 <= a <= b < times.len() ==> times[a] <= times[b],
        alerted_at(rec, code, times, i),
    ensures
        record_after(rec, code, times.take(m)).last_error == code,
        record_after(rec, code, times.take(m)).last_error_time >= times[i],
        record_after(rec, code, times.take(m)).error_timeout == rec.error_timeout,
        record_after(rec, code, times.take(m)).suppress_duplicates == rec.suppress_duplicates,
    decreases m - i,
{
    assert(times.take(m).drop_last() =~= times.take(m - 1));
    if m > i + 1 {
        record_keeps_alert(rec, code, times, i, m - 1);
    }
    if m == i + 1 {
        assert(times.take(m - 1) =~= times.take(i));
    }
    record_keeps_settings(rec, code, times.take(m - 1));
}

/// Reports never change the window or the suppression switch.
proof fn record_keeps_settings(rec: ErrorRecord, code: ASErr, times: Seq<i64>)
    ensures
        record_after(rec, code, times).error_timeout == rec.error_timeout,
        record_after(rec, code, times).suppress_duplicates == rec.suppress_duplicates,
    decreases times.len(),
{
    if times.len() > 0 {
        record_keeps_settings(rec, code, times.drop_last());
    }
}

/// Over reports of one failure in time order, with suppression on, any two
/// that alert are at least a window apart.
pub proof fn alerts_a_window_apart(rec: ErrorRecord, code: ASErr, times: Seq<i64>, i: int, j: int)
    requires
        rec.suppress_duplicates,
        0 <= i < j < times.len(),
        forall|a: int, b: int| 0 <= a <= b < times.len() ==> times[a] <= times[b],
        alerted_at(rec, code, times, i),
        alerted_at(rec, code, times, j),
    ensures
        times[j] >= times[i] + rec.error_timeout,
{
    record_keeps_alert(rec, code, times, i, j);
}

/// A reply never alerts and leaves the record as it was; both answers to a
/// cache purge are replies.
pub proof fn replies_never_alert(rec: ErrorRecord, code: ASErr, now: i64)
    requires
        is_reply_code(code),
    ensures
        !alerts(rec, code, now),
        after_report(rec, code, now) == rec,
        is_reply_code(purge_code(true)),
        is_reply_code(purge_code(false)),
{
    assert(crate::codes::reply_codes()[9] == purge_code(true));
    assert(crate::codes::reply_codes()[17] == purge_code(false));
}

/// A failed startup of a fresh instance never pinned the plug-in, and
/// gives back exactly the suites it acquired, the last first.
pub proof fn failed_startup_leaves_nothing(replies: Seq<HostReply>)
    requires
        run_status(startup_plan(0), replies) != NO_ERR,
    ensures
        steps_done(startup_plan(0), replies) < startup_plan(0).len(),
        startup_rollback_suites(startup_plan(0), replies).len() == startup_suites_held(
            startup_plan(0),
            replies,
        ),
        forall|i: int|
            0 <= i < startup_suites_held(startup_plan(0), replies) ==> startup_rollback_suites(
                startup_plan(0),
                replies,
            )[startup_suites_held(startup_plan(0), replies) - 1 - i] == mandatory_suites()[i],
{
}

/// A reload that acquired a fresh table, or one that found a table, leaves
/// the same suite table as a successful startup, also after any message
/// has been routed.
pub proof fn reload_matches_startup(p: Plugin, q: Plugin, replies: Seq<HostReply>)
    requires
        p.wf(),
    ensures
        reloaded(p).suites == started(q, replies).suites,
        after_routing(reloaded(p)).suites == after_routing(started(q, replies)).suites,
        p.suites is Some ==> after_routing(p).suites == after_routing(started(q, replies)).suites,
{
}

/// A pin followed by an unpin gives back the lock count and the access the
/// instance had.
pub proof fn lock_then_unlock_restores(p: Plugin, acquire: HostReply, release: HostReply)
    requires
        p.wf(),
        p.lock_count < u32::MAX,
    ensures
        lock_outcome(lock_outcome(p, true, acquire).0, false, release).0.lock_count == p.lock_count,
        lock_outcome(lock_outcome(p, true, acquire).0, false, release).0.plugin_access
            == p.plugin_access,
{
}

/// An unpin without a pin leaves the count at zero and changes nothing.
pub proof fn unbalanced_unlock_stays_at_zero(p: Plugin, reply: HostReply)
    requires
        p.lock_count == 0,
    ensures
        lock_outcome(p, false, reply) == (p, NO_ERR),
{
}

/// A text longer than a name buffer is cut to fit, and the buffer stays
/// terminated.
pub proof fn long_text_is_cut_and_terminated(text: Seq<u8>)
    requires
        text.len() >= MAX_STRING_LENGTH,
    ensures
        bounded_cstr(text).len() == MAX_STRING_LENGTH,
        bounded_cstr(text)[MAX_STRING_LENGTH - 1] == 0u8,
        bounded_cstr(text).take(MAX_STRING_LENGTH - 1) == text.take(MAX_STRING_LENGTH - 1),
{
    assert(bounded_cstr(text).take(MAX_STRING_LENGTH - 1) =~= text.take(MAX_STRING_LENGTH - 1));
}

/// Combining out-flags does not depend on order or grouping.
pub proof fn out_flags_union_laws(a: u32, b: u32, c: u32)
    ensures
        a | b == b | a,
        (a | b) | c == a | (b | c),
        a | a == a,
        a | 0 == a,
{
    assert(a | b == b | a) by (bit_vector);
    assert((a | b) | c == a | (b | c)) by (bit_vector);
    assert(a | a == a) by (bit_vector);
    assert(a | 0 == a) by (bit_vector);
}

} // verus!
