//! The plug-in instance: its state, its lifecycle, and the routing of host
//! messages to lifecycle steps or to the user's handler.
//!
//! Calls into the host are not made here. Each step either names the host
//! call to make next, or takes the host's replies to the calls it asked for.
use vstd::prelude::*;
use vstd::string::StringSliceAdditionalSpecFns;

use crate::codes::{
    is_reply, is_reply_code, ASErr, CACHES_FLUSH_RESPONSE, CANT_ACQUIRE_PLUGIN_ERROR,
    CANT_HAPPEN_ERR, COULDNT_FLUSH_RESPONSE, NO_ERR, UNHANDLED_MSG_ERR,
};
use crate::cstr::{
    bounded_buffer, bounded_cstr, bytes_eq, concat_bytes, cstr_len, cstr_text, prefix,
    MAX_STRING_LENGTH,
};
use crate::dispatch::{
    event_key, Classified, Event, RELOAD_SELECTOR, SP_ACCESS_CALLER,
};
use crate::error_policy::{after_report, alert_label, alerts, error_label, Alert, AlertRoute, ErrorRecord};
use crate::suites::{
    mandatory_list, mandatory_suites, ok_prefix, reversed, rollback_suites, SuiteId, Suites,
    MANDATORY_COUNT, acquisition_status, lemma_ok_prefix, lemma_ok_prefix_all,
};

verus! {

/// Suffix of the name under which the application-started notifier is registered.
pub const APP_STARTED_NOTIFIER_SUFFIX: &'static str = " App Started Notifier";

/// Suffix of the name under which the application-shutdown notifier is registered.
pub const APP_SHUTDOWN_NOTIFIER_SUFFIX: &'static str = " Application Shutdown Notifier";

/// The two host notifications the adapter subscribes to.
#[derive(Clone, Copy, Debug, PartialEq, Eq, Structural)]
pub enum NotifierKind {
    ApplicationStarted,
    ApplicationShutdown,
}

/// A call the adapter asks the host to make on its behalf.
#[derive(Clone, Copy, Debug, PartialEq, Eq, Structural)]
pub enum HostCall {
    /// Acquire a suite through the basic suite.
    AcquireSuite(SuiteId),
    /// Register the plug-in's name with the plug-ins suite.
    SetPluginName,
    /// Subscribe to a notification; the reply's handle is the token.
    AddNotifier(NotifierKind),
    /// Pin the plug-in through the access suite; the reply's handle is the access.
    AcquireAccess,
    /// Unpin the plug-in, giving back this access.
    ReleaseAccess(u64),
}

/// The host's answer to a `HostCall`: its status, and the handle it gave
/// back (0 for none).
#[derive(Clone, Copy, Debug, PartialEq, Eq, Structural)]
pub struct HostReply {
    pub status: ASErr,
    pub handle: u64,
}

/// Where an instance is in its life.
#[derive(Clone, Copy, Debug, PartialEq, Eq, Structural)]
pub enum Phase {
    /// Allocated, not started.
    Created,
    /// Started, suites held.
    Running,
    /// Code unloaded by the host; suites given back.
    Unloaded,
    /// Startup failed; to be discarded.
    Failed,
    /// Shut down; to be discarded.
    ShutDown,
}

/// A lifecycle hook of the handler that a notification triggers.
#[derive(Clone, Copy, Debug, PartialEq, Eq, Structural)]
pub enum Hook {
    PostStartup,
    PreShutdown,
}

/// What to do with a host message.
#[derive(Clone, Copy, Debug, PartialEq, Eq, Structural)]
pub enum Dispatch {
    /// Answer with this code; nothing else to do.
    Reply(ASErr),
    /// Unload the instance (see `Plugin::UnloadPlugin`).
    Unload,
    /// Reload the instance (see `Plugin::ReloadPlugin`).
    Reload,
    /// Ask the handler to purge its caches, and answer with `purge_reply`.
    Purge,
    /// Call the handler's method for this event.
    Handler(Event),
    /// A notification: call the hook, if any, then the handler's generic
    /// notification method when `notify_follow_up` says so.
    Notify { hook: Option<Hook>, generic: bool },
}

/// The routing of a message, and whether optional suites are to be asked for first.
#[derive(Clone, Copy, Debug, PartialEq, Eq, Structural)]
pub struct Routed {
    pub dispatch: Dispatch,
    pub acquire_optional: bool,
}

/// The error a reply to `call` stands for: its status, or "can't acquire
/// plug-in" when the host gave no access handle.
pub open spec fn reply_error(call: HostCall, reply: HostReply) -> ASErr {
    if reply.status != NO_ERR {
        reply.status
    } else if call == HostCall::AcquireAccess && reply.handle == 0 {
        CANT_ACQUIRE_PLUGIN_ERROR
    } else {
        NO_ERR
    }
}

/// The host calls of a startup, in order, for an instance whose lock count
/// is `lock_count`: the mandatory suites, the name, the two notifiers, and
/// the access when the lock count leaves zero.
pub open spec fn startup_plan(lock_count: u32) -> Seq<HostCall> {
    let base = mandatory_suites().map_values(|s: SuiteId| HostCall::AcquireSuite(s)) + seq![
        HostCall::SetPluginName,
        HostCall::AddNotifier(NotifierKind::ApplicationStarted),
        HostCall::AddNotifier(NotifierKind::ApplicationShutdown),
    ];
    if lock_count == 0 {
        base.push(HostCall::AcquireAccess)
    } else {
        base
    }
}

/// The error each reply stands for, as far as both the plan and the replies go.
pub open spec fn step_errors(plan: Seq<HostCall>, replies: Seq<HostReply>) -> Seq<ASErr> {
    let n = if plan.len() < replies.len() {
        plan.len()
    } else {
        replies.len()
    };
    Seq::new(n, |i: int| reply_error(plan[i], replies[i]))
}

/// How many steps of `plan` succeeded in a row.
pub open spec fn steps_done(plan: Seq<HostCall>, replies: Seq<HostReply>) -> nat {
    ok_prefix(step_errors(plan, replies))
}

/// The outcome of a run of replies to `plan`: success when every step
/// succeeded, else the first failure, or "can't happen" when the run stops
/// short without one.
pub open spec fn run_status(plan: Seq<HostCall>, replies: Seq<HostReply>) -> ASErr {
    let k = steps_done(plan, replies);
    if k >= plan.len() {
        NO_ERR
    } else if k < replies.len() {
        step_errors(plan, replies)[k as int]
    } else {
        CANT_HAPPEN_ERR
    }
}

/// How many mandatory suites a startup run acquired.
pub open spec fn startup_suites_held(plan: Seq<HostCall>, replies: Seq<HostReply>) -> nat {
    let k = steps_done(plan, replies);
    if k < MANDATORY_COUNT {
        k
    } else {
        MANDATORY_COUNT as nat
    }
}

/// The suites to release after a failed startup: those acquired, the last first.
pub open spec fn startup_rollback_suites(plan: Seq<HostCall>, replies: Seq<HostReply>) -> Seq<SuiteId> {
    if run_status(plan, replies) == NO_ERR {
        Seq::empty()
    } else {
        reversed(mandatory_suites().take(startup_suites_held(plan, replies) as int))
    }
}

/// The handler hook a notification with handle `notifier` triggers.
pub open spec fn hook_for(started: u64, shutdown: u64, notifier: u64) -> Option<Hook> {
    if notifier == started {
        Some(Hook::PostStartup)
    } else if notifier == shutdown {
        Some(Hook::PreShutdown)
    } else {
        None
    }
}

/// How an instance with these notifier tokens routes a classified message.
pub open spec fn route(started: u64, shutdown: u64, msg: Classified, notifier: u64) -> Dispatch {
    match msg {
        Classified::Notifier { generic } => Dispatch::Notify {
            hook: hook_for(started, shutdown, notifier),
            generic,
        },
        Classified::Keyed(e) => match e {
            Event::Unload => Dispatch::Unload,
            Event::Reload => Dispatch::Reload,
            Event::About => Dispatch::Reply(NO_ERR),
            Event::Startup => Dispatch::Reply(NO_ERR),
            Event::Shutdown => Dispatch::Reply(UNHANDLED_MSG_ERR),
            Event::PurgeCaches => Dispatch::Purge,
            _ => Dispatch::Handler(e),
        },
        Classified::Unknown => Dispatch::Reply(UNHANDLED_MSG_ERR),
    }
}

/// Whether a dispatch calls into the user's handler.
pub open spec fn calls_handler(d: Dispatch) -> bool {
    d is Handler || d is Notify || d is Purge
}

/// Whether the generic notification method is called after a hook answered
/// `hook_code` (`UNHANDLED_MSG_ERR` when there was no hook).
pub open spec fn follows_up(hook_code: ASErr, generic: bool) -> bool {
    generic && (hook_code == NO_ERR || hook_code == UNHANDLED_MSG_ERR)
}

/// The reply to a cache purge.
pub open spec fn purge_code(flushed: bool) -> ASErr {
    if flushed {
        CACHES_FLUSH_RESPONSE
    } else {
        COULDNT_FLUSH_RESPONSE
    }
}

/// Whether `call` is the access acquisition.
fn is_access_call(call: HostCall) -> (r: bool)
    ensures
        r == (call == HostCall::AcquireAccess),
{
    match call {
        HostCall::AcquireAccess => true,
        _ => false,
    }
}

/// The error a reply to `call` stands for.
pub fn reply_error_of(call: HostCall, reply: HostReply) -> (r: ASErr)
    ensures
        r == reply_error(call, reply),
{
    if reply.status != NO_ERR {
        reply.status
    } else if is_access_call(call) && reply.handle == 0 {
        CANT_ACQUIRE_PLUGIN_ERROR
    } else {
        NO_ERR
    }
}

/// The host calls of a startup, for an instance whose lock count is `lock_count`.
pub fn startup_calls(lock_count: u32) -> (r: Vec<HostCall>)
    ensures
        r@ == startup_plan(lock_count),
{
    let suites = mandatory_list();
    let mut r: Vec<HostCall> = Vec::new();
    let mut i: usize = 0;
    while i < suites.len()
        invariant
            suites@ == mandatory_suites(),
            i <= suites@.len(),
            r@ == mandatory_suites().take(i as int).map_values(|s: SuiteId| HostCall::AcquireSuite(s)),
        decreases suites@.len() - i,
    {
        r.push(HostCall::AcquireSuite(suites[i]));
        i += 1;
        assert(r@ =~= mandatory_suites().take(i as int).map_values(|s: SuiteId| HostCall::AcquireSuite(s)));
    }
    assert(mandatory_suites().take(5) =~= mandatory_suites());
    r.push(HostCall::SetPluginName);
    r.push(HostCall::AddNotifier(NotifierKind::ApplicationStarted));
    r.push(HostCall::AddNotifier(NotifierKind::ApplicationShutdown));
    if lock_count == 0 {
        r.push(HostCall::AcquireAccess);
    }
    assert(r@ =~= startup_plan(lock_count));
    r
}

/// How many steps of `plan` succeeded in a row.
fn count_steps(plan: &Vec<HostCall>, replies: &[HostReply]) -> (k: usize)
    ensures
        k == steps_done(plan@, replies@),
        k <= plan@.len(),
        k <= replies@.len(),
        k < plan@.len() && k < replies@.len() ==> reply_error(plan@[k as int], replies@[k as int])
            != NO_ERR,
{
    let ghost errs = step_errors(plan@, replies@);
    let mut k: usize = 0;
    while k < plan.len() && k < replies.len() && reply_error_of(plan[k], replies[k]) == NO_ERR
        invariant
            errs == step_errors(plan@, replies@),
            k <= plan@.len(),
            k <= replies@.len(),
            forall|i: int| 0 <= i < k ==> errs[i] == NO_ERR,
        decreases plan@.len() - k,
    {
        k += 1;
    }
    proof {
        lemma_ok_prefix(errs, k as int);
    }
    k
}

/// The status of a run of replies to `plan`.
fn status_of_run(plan: &Vec<HostCall>, replies: &[HostReply]) -> (r: ASErr)
    ensures
        r == run_status(plan@, replies@),
{
    let k = count_steps(plan, replies);
    if k >= plan.len() {
        NO_ERR
    } else if k < replies.len() {
        reply_error_of(plan[k], replies[k])
    } else {
        CANT_HAPPEN_ERR
    }
}

/// The reply code for a cache purge.
pub fn purge_reply(flushed: bool) -> (r: ASErr)
    ensures
        r == purge_code(flushed),
{
    if flushed {
        CACHES_FLUSH_RESPONSE
    } else {
        COULDNT_FLUSH_RESPONSE
    }
}

/// Whether the generic notification method is to be called after the hook
/// answered `hook_code`.
pub fn notify_follow_up(hook_code: ASErr, generic: bool) -> (r: bool)
    ensures
        r == follows_up(hook_code, generic),
{
    generic && (hook_code == NO_ERR || hook_code == UNHANDLED_MSG_ERR)
}

/// The suite table a successful startup or reload leaves.
pub open spec fn fresh_suites() -> Suites {
    Suites { status: NO_ERR, optional_acquired: false, ref_count: 1 }
}

/// The plug-in instance.
pub struct Plugin {
    /// The host's handle for the plug-in; never looked into.
    pub plugin_ref: u64,
    /// The suite table, while one is held.
    pub suites: Option<Suites>,
    /// The plug-in's name in a fixed NUL-terminated buffer.
    pub name: Vec<u8>,
    /// How many times the plug-in is pinned in memory.
    pub lock_count: u32,
    /// The access the host gave when the plug-in was pinned; 0 when unpinned.
    pub plugin_access: u64,
    /// The last failure shown, and the suppression policy.
    pub errors: ErrorRecord,
    /// Token of the application-started subscription.
    pub app_started_notifier: u64,
    /// Token of the application-shutdown subscription.
    pub app_shutdown_notifier: u64,
    /// Whether the handler's suite dispatch tables are filled.
    pub tables_filled: bool,
    pub phase: Phase,
}

impl Plugin {
    /// The instance's invariant: a terminated name, access held exactly while
    /// pinned, and a suite table exactly while running.
    pub open spec fn wf(&self) -> bool {
        &&& self.name@.len() == MAX_STRING_LENGTH
        &&& self.name@[MAX_STRING_LENGTH - 1] == 0u8
        &&& (self.plugin_access != 0 <==> self.lock_count > 0)
        &&& (self.suites is Some <==> self.phase == Phase::Running)
        &&& self.suites matches Some(s) ==> s.status == NO_ERR && s.ref_count == 1
    }

    /// The plug-in's name as text.
    pub open spec fn name_text(&self) -> Seq<u8> {
        cstr_text(self.name@)
    }

    /// A new instance for the host handle `plugin_ref`, named `plugin_name`
    /// (cut to fit the name buffer with its terminator).
    pub fn new(plugin_ref: u64, plugin_name: &str) -> (r: Plugin)
        ensures
            r.wf(),
            r.plugin_ref == plugin_ref,
            r.name@ == bounded_cstr(plugin_name.spec_bytes()),
            r.suites is None,
            r.lock_count == 0,
            r.plugin_access == 0,
            r.errors == (ErrorRecord {
                last_error: NO_ERR,
                last_error_time: 0,
                error_timeout: 5,
                suppress_duplicates: true,
            }),
            r.app_started_notifier == 0,
            r.app_shutdown_notifier == 0,
            !r.tables_filled,
            r.phase == Phase::Created,
    {
        let name = bounded_buffer(plugin_name.as_bytes());
        Plugin {
            plugin_ref,
            suites: None,
            name,
            lock_count: 0,
            plugin_access: 0,
            errors: ErrorRecord::new(),
            app_started_notifier: 0,
            app_shutdown_notifier: 0,
            tables_filled: false,
            phase: Phase::Created,
        }
    }

    /// Whether a suite table is held.
    pub fn SuitesAcquired(&self) -> (r: bool)
        ensures
            r == self.suites is Some,
    {
        self.suites.is_some()
    }

    /// The plug-in's name as text: the name buffer up to its terminator.
    pub fn get_plugin_name_str(&self) -> (r: Vec<u8>)
        ensures
            r@ == self.name_text(),
    {
        let n = cstr_len(self.name.as_slice());
        prefix(self.name.as_slice(), n)
    }

    /// The name under which a notifier is registered:
    /// `"{name} App Started Notifier"` or `"{name} Application Shutdown Notifier"`,
    /// in a fixed NUL-terminated buffer.
    pub fn notifier_name(&self, kind: NotifierKind) -> (r: Vec<u8>)
        ensures
            r@ == bounded_cstr(self.name_text() + match kind {
                NotifierKind::ApplicationStarted => APP_STARTED_NOTIFIER_SUFFIX.spec_bytes(),
                NotifierKind::ApplicationShutdown => APP_SHUTDOWN_NOTIFIER_SUFFIX.spec_bytes(),
            }),
    {
        let text = self.get_plugin_name_str();
        let suffix = match kind {
            NotifierKind::ApplicationStarted => APP_STARTED_NOTIFIER_SUFFIX,
            NotifierKind::ApplicationShutdown => APP_SHUTDOWN_NOTIFIER_SUFFIX,
        };
        let full = concat_bytes(text.as_slice(), suffix.as_bytes());
        bounded_buffer(full.as_slice())
    }

    /// Publishes the instance to the host; nothing to do here.
    pub fn SetGlobal(&self) -> (r: ASErr)
        ensures
            r == NO_ERR,
    {
        NO_ERR
    }

    /// Allocates the handler's suite dispatch tables.
    pub fn AllocateSuiteTables(&mut self) -> (r: ASErr)
        ensures
            r == NO_ERR,
            *final(self) == *old(self),
    {
        NO_ERR
    }

    /// Fills the handler's suite dispatch tables.
    pub fn FillSuiteTables(&mut self) -> (r: ASErr)
        ensures
            r == NO_ERR,
            *final(self) == (Plugin { tables_filled: true, ..*old(self) }),
    {
        self.tables_filled = true;
        NO_ERR
    }

    /// Empties the handler's suite dispatch tables.
    pub fn EmptySuiteTables(&mut self) -> (r: ASErr)
        ensures
            r == NO_ERR,
            *final(self) == (Plugin { tables_filled: false, ..*old(self) }),
    {
        self.tables_filled = false;
        NO_ERR
    }
}

/// The instance after `LockPlugin(lock, reply)`, and what that call answers.
pub open spec fn lock_outcome(p: Plugin, lock: bool, reply: HostReply) -> (Plugin, ASErr) {
    if lock {
        if p.lock_count == 0 {
            if reply_error(HostCall::AcquireAccess, reply) == NO_ERR {
                (Plugin { lock_count: 1, plugin_access: reply.handle, ..p }, NO_ERR)
            } else {
                (p, reply_error(HostCall::AcquireAccess, reply))
            }
        } else {
            (Plugin { lock_count: (p.lock_count + 1) as u32, ..p }, NO_ERR)
        }
    } else if p.lock_count == 0 {
        (p, NO_ERR)
    } else if p.lock_count == 1 {
        (Plugin { lock_count: 0, plugin_access: 0, ..p }, NO_ERR)
    } else {
        (Plugin { lock_count: (p.lock_count - 1) as u32, ..p }, NO_ERR)
    }
}

/// The instance after a reload that acquired a fresh suite table.
pub open spec fn reloaded(p: Plugin) -> Plugin {
    Plugin { suites: Some(fresh_suites()), tables_filled: true, phase: Phase::Running, ..p }
}

/// The instance after a startup whose replies all succeeded.
pub open spec fn started(p: Plugin, replies: Seq<HostReply>) -> Plugin {
    Plugin {
        suites: Some(fresh_suites()),
        app_started_notifier: replies[MANDATORY_COUNT + 1].handle,
        app_shutdown_notifier: replies[MANDATORY_COUNT + 2].handle,
        tables_filled: true,
        phase: Phase::Running,
        ..lock_outcome(p, true, replies[MANDATORY_COUNT + 3]).0
    }
}

impl Plugin {
    /// The host call a lock or an unlock needs first: acquiring the access
    /// when the count leaves zero, releasing it when the count returns to zero.
    pub fn lock_request(&self, lock: bool) -> (r: Option<HostCall>)
        ensures
            r == if lock && self.lock_count == 0 {
                Some(HostCall::AcquireAccess)
            } else if !lock && self.lock_count == 1 {
                Some(HostCall::ReleaseAccess(self.plugin_access))
            } else {
                None::<HostCall>
            },
    {
        if lock && self.lock_count == 0 {
            Some(HostCall::AcquireAccess)
        } else if !lock && self.lock_count == 1 {
            Some(HostCall::ReleaseAccess(self.plugin_access))
        } else {
            None
        }
    }

    /// Pins (`lock`) or unpins the plug-in. `reply` answers the host call that
    /// `lock_request` named, if any; it is not read otherwise. The count never
    /// goes below zero; a pin whose access was refused changes nothing.
    pub fn LockPlugin(&mut self, lock: bool, reply: HostReply) -> (r: ASErr)
        requires
            old(self).wf(),
            lock ==> old(self).lock_count < u32::MAX,
        ensures
            final(self).wf(),
            (*final(self), r) == lock_outcome(*old(self), lock, reply),
    {
        if lock {
            if self.lock_count == 0 {
                let err = reply_error_of(HostCall::AcquireAccess, reply);
                if err != NO_ERR {
                    return err;
                }
                self.lock_count = 1;
                self.plugin_access = reply.handle;
            } else {
                self.lock_count = self.lock_count + 1;
            }
        } else if self.lock_count == 1 {
            self.lock_count = 0;
            self.plugin_access = 0;
        } else if self.lock_count > 1 {
            self.lock_count = self.lock_count - 1;
        }
        NO_ERR
    }

    /// The next host call of a startup, given the replies so far; `None` once
    /// the run is over, by a failure or by its last step.
    pub fn startup_next(&self, replies: &[HostReply]) -> (r: Option<HostCall>)
        ensures
            r matches Some(c) ==> replies@.len() < startup_plan(self.lock_count).len()
                && steps_done(startup_plan(self.lock_count), replies@) == replies@.len() && c
                == startup_plan(self.lock_count)[replies@.len() as int],
            r is None ==> replies@.len() >= startup_plan(self.lock_count).len() || steps_done(
                startup_plan(self.lock_count),
                replies@,
            ) < replies@.len(),
    {
        let plan = startup_calls(self.lock_count);
        let k = count_steps(&plan, replies);
        if k == replies.len() && k < plan.len() {
            Some(plan[k])
        } else {
            None
        }
    }

    /// The suites to release after a startup run `replies` that failed.
    pub fn startup_rollback(&self, replies: &[HostReply]) -> (r: Vec<SuiteId>)
        ensures
            r@ == startup_rollback_suites(startup_plan(self.lock_count), replies@),
    {
        let plan = startup_calls(self.lock_count);
        let mut r: Vec<SuiteId> = Vec::new();
        if status_of_run(&plan, replies) == NO_ERR {
            assert(r@ =~= startup_rollback_suites(startup_plan(self.lock_count), replies@));
            return r;
        }
        let done = count_steps(&plan, replies);
        let k = if done < MANDATORY_COUNT {
            done
        } else {
            MANDATORY_COUNT
        };
        let all = mandatory_list();
        let mut i: usize = k;
        while i > 0
            invariant
                all@ == mandatory_suites(),
                k <= MANDATORY_COUNT,
                i <= k,
                r@ =~= reversed(mandatory_suites().take(k as int)).take(k - i),
            decreases i,
        {
            i -= 1;
            r.push(all[i]);
            assert(r@ =~= reversed(mandatory_suites().take(k as int)).take(k - i));
        }
        assert(r@ =~= startup_rollback_suites(startup_plan(self.lock_count), replies@));
        r
    }

    /// Starts the instance from the replies to the calls `startup_next` named,
    /// in order: the mandatory suites, the name, the two notifiers, and the
    /// pin. Answers the run's status (see `run_status`). On success the
    /// instance runs with a fresh suite table, its notifier tokens, filled
    /// tables and one more pin; on failure nothing but its phase changes, and
    /// `startup_rollback` names the suites to give back.
    pub fn StartupPlugin(&mut self, replies: &[HostReply]) -> (r: ASErr)
        requires
            old(self).wf(),
            old(self).phase == Phase::Created || old(self).phase == Phase::Unloaded,
            old(self).lock_count < u32::MAX,
        ensures
            final(self).wf(),
            r == run_status(startup_plan(old(self).lock_count), replies@),
            r == NO_ERR ==> *final(self) == started(*old(self), replies@),
            r != NO_ERR ==> *final(self) == (Plugin { phase: Phase::Failed, ..*old(self) }),
    {
        let ghost plan_s = startup_plan(self.lock_count);
        let _ = self.SetGlobal();
        let plan = startup_calls(self.lock_count);
        let status = status_of_run(&plan, replies);
        if status != NO_ERR {
            self.phase = Phase::Failed;
            return status;
        }
        let k = count_steps(&plan, replies);
        proof {
            assert(plan_s.len() == MANDATORY_COUNT + 3 + if self.lock_count == 0 { 1int } else { 0int });
            assert(k >= plan_s.len());
            lemma_ok_prefix_all(step_errors(plan_s, replies@), k as int);
            assert(step_errors(plan_s, replies@)[5] == NO_ERR);
            assert(reply_error(plan_s[5], replies@[5]) == NO_ERR);
            assert(step_errors(plan_s, replies@)[6] == NO_ERR);
            assert(reply_error(plan_s[6], replies@[6]) == NO_ERR);
            assert(step_errors(plan_s, replies@)[7] == NO_ERR);
            assert(reply_error(plan_s[7], replies@[7]) == NO_ERR);
            if self.lock_count == 0 {
                assert(step_errors(plan_s, replies@)[8] == NO_ERR);
                assert(reply_error(plan_s[8], replies@[8]) == NO_ERR);
            }
        }
        let mut suites = Suites { status: NO_ERR, optional_acquired: false, ref_count: 0 };
        suites.InitializeRefCount();
        self.app_started_notifier = replies[MANDATORY_COUNT + 1].handle;
        self.app_shutdown_notifier = replies[MANDATORY_COUNT + 2].handle;
        let _ = self.AllocateSuiteTables();
        let _ = self.FillSuiteTables();
        let access_reply = if self.lock_count == 0 {
            replies[MANDATORY_COUNT + 3]
        } else {
            HostReply { status: NO_ERR, handle: 0 }
        };
        let _ = self.LockPlugin(true, access_reply);
        self.suites = Some(suites);
        self.phase = Phase::Running;
        NO_ERR
    }

    /// Shuts the instance down, giving back its suite table. Answers success,
    /// with the suites to release.
    pub fn ShutdownPlugin(&mut self) -> (r: (ASErr, Vec<SuiteId>))
        requires
            old(self).wf(),
        ensures
            final(self).wf(),
            r.0 == NO_ERR,
            r.1@ == if old(self).suites is Some {
                reversed(mandatory_suites())
            } else {
                Seq::empty()
            },
            *final(self) == (Plugin { suites: None, phase: Phase::ShutDown, ..*old(self) }),
    {
        let released = match self.suites {
            Some(s) => s.release_order(),
            None => {
                let v: Vec<SuiteId> = Vec::new();
                assert(v@ =~= Seq::<SuiteId>::empty());
                v
            },
        };
        self.suites = None;
        self.phase = Phase::ShutDown;
        (NO_ERR, released)
    }

    /// The host unloads the instance's code: the dispatch tables are emptied
    /// and the suite table given back. Answers success, with the suites to
    /// release. A later reload brings the instance back.
    pub fn UnloadPlugin(&mut self) -> (r: (ASErr, Vec<SuiteId>))
        requires
            old(self).wf(),
        ensures
            final(self).wf(),
            r.0 == NO_ERR,
            r.1@ == if old(self).suites is Some {
                reversed(mandatory_suites())
            } else {
                Seq::empty()
            },
            *final(self) == (Plugin {
                suites: None,
                tables_filled: false,
                phase: Phase::Unloaded,
                ..*old(self)
            }),
    {
        let _ = self.EmptySuiteTables();
        let released = match self.suites {
            Some(s) => s.release_order(),
            None => {
                let v: Vec<SuiteId> = Vec::new();
                assert(v@ =~= Seq::<SuiteId>::empty());
                v
            },
        };
        self.suites = None;
        self.phase = Phase::Unloaded;
        (NO_ERR, released)
    }

    /// Whether a reload has to acquire the mandatory suites again.
    pub fn reload_needs_suites(&self) -> (r: bool)
        ensures
            r == self.suites is None,
    {
        self.suites.is_none()
    }

    /// Reloads the instance after the host moved its code. Without a suite
    /// table, `replies` answer the acquisition of each mandatory suite (see
    /// `suites::next_mandatory`) and decide the outcome as `Suites::new`
    /// does; with one, they are not read. On success the tables are filled
    /// and the instance runs; on failure it is left as it was, and the
    /// suites to release come back.
    pub fn ReloadPlugin(&mut self, replies: &[ASErr]) -> (r: (ASErr, Vec<SuiteId>))
        requires
            old(self).wf(),
        ensures
            final(self).wf(),
            old(self).suites is Some ==> r.0 == NO_ERR && r.1@.len() == 0 && *final(self) == (
            Plugin { tables_filled: true, ..*old(self) }),
            old(self).suites is None ==> r.0 == acquisition_status(replies@) && r.1@
                == rollback_suites(replies@),
            old(self).suites is None && r.0 == NO_ERR ==> *final(self) == reloaded(*old(self)),
            old(self).suites is None && r.0 != NO_ERR ==> *final(self) == *old(self),
    {
        let _ = self.SetGlobal();
        if self.suites.is_none() {
            match Suites::new(replies) {
                Ok(s) => {
                    let mut s = s;
                    s.InitializeRefCount();
                    self.suites = Some(s);
                    self.phase = Phase::Running;
                },
                Err(e) => {
                    return (e, Suites::rollback(replies));
                },
            }
        }
        let _ = self.FillSuiteTables();
        let v: Vec<SuiteId> = Vec::new();
        (NO_ERR, v)
    }
}

/// Whether an alert for `code` is made when the alert suite is bound
/// (`user_bound`) or can be borrowed (`basic_available`), and how.
pub open spec fn alert_made(
    code: ASErr,
    user_bound: bool,
    basic_available: bool,
    r: Option<Alert>,
) -> bool {
    &&& (r is Some <==> !is_reply_code(code) && (user_bound || basic_available))
    &&& r matches Some(a) ==> a.label@ == error_label(code) && a.route == if user_bound {
        AlertRoute::Bound
    } else {
        AlertRoute::Borrowed
    }
}

impl Plugin {
    /// Marks the optional suites as asked for, if a table is held; `true`
    /// when the host must be asked now.
    pub fn AcquireOptionalSuites(&mut self) -> (r: bool)
        requires
            old(self).wf(),
        ensures
            final(self).wf(),
            r == (old(self).suites matches Some(s) && !s.optional_acquired),
            *final(self) == (Plugin {
                suites: match old(self).suites {
                    Some(s) => Some(Suites { optional_acquired: true, ..s }),
                    None => None,
                },
                ..*old(self)
            }),
    {
        match self.suites {
            Some(s) => {
                let mut s = s;
                let first = s.acquire_Optional_Suites();
                self.suites = Some(s);
                first
            },
            None => false,
        }
    }

    /// Whether `(caller, selector)` is the reload message.
    pub fn IsReloadMsg(caller: &[u8], selector: &[u8]) -> (r: bool)
        ensures
            r == ((caller@, selector@) == event_key(Event::Reload)),
    {
        bytes_eq(caller, SP_ACCESS_CALLER.as_bytes()) && bytes_eq(selector, RELOAD_SELECTOR.as_bytes())
    }

    /// Routes a classified host message; a notifier message carries the
    /// handle `notifier`. Asks for the optional suites first, so that
    /// handlers may rely on them.
    pub fn Message(&mut self, msg: Classified, notifier: u64) -> (r: Routed)
        requires
            old(self).wf(),
        ensures
            final(self).wf(),
            r.dispatch == route(old(self).app_started_notifier, old(self).app_shutdown_notifier, msg, notifier),
            r.acquire_optional == (old(self).suites matches Some(s) && !s.optional_acquired),
            *final(self) == (Plugin {
                suites: match old(self).suites {
                    Some(s) => Some(Suites { optional_acquired: true, ..s }),
                    None => None,
                },
                ..*old(self)
            }),
    {
        let acquire_optional = self.AcquireOptionalSuites();
        let dispatch = match msg {
            Classified::Notifier { generic } => {
                let hook = if notifier == self.app_started_notifier {
                    Some(Hook::PostStartup)
                } else if notifier == self.app_shutdown_notifier {
                    Some(Hook::PreShutdown)
                } else {
                    None
                };
                Dispatch::Notify { hook, generic }
            },
            Classified::Keyed(e) => match e {
                Event::Unload => Dispatch::Unload,
                Event::Reload => Dispatch::Reload,
                Event::About => Dispatch::Reply(NO_ERR),
                Event::Startup => Dispatch::Reply(NO_ERR),
                Event::Shutdown => Dispatch::Reply(UNHANDLED_MSG_ERR),
                Event::PurgeCaches => Dispatch::Purge,
                _ => Dispatch::Handler(e),
            },
            Classified::Unknown => Dispatch::Reply(UNHANDLED_MSG_ERR),
        };
        Routed { dispatch, acquire_optional }
    }

    /// Whether `error` is a reply rather than a failure.
    pub fn FilterError(error: ASErr) -> (r: bool)
        ensures
            r == is_reply_code(error),
    {
        is_reply(error)
    }

    /// The alert for a failure `error` outside any instance's record: none
    /// for a reply, none when neither the alert suite is bound nor the basic
    /// suite at hand to borrow it; else the synthetic label.
    pub fn DefaultError(error: ASErr, user_bound: bool, basic_available: bool) -> (r: Option<Alert>)
        ensures
            alert_made(error, user_bound, basic_available, r),
    {
        if Self::FilterError(error) {
            return None;
        }
        if user_bound {
            Some(Alert { label: alert_label(error), route: AlertRoute::Bound })
        } else if basic_available {
            Some(Alert { label: alert_label(error), route: AlertRoute::Borrowed })
        } else {
            None
        }
    }

    /// Reports a failure `error` seen at `now` (seconds): replies and repeats
    /// within the window are dropped; otherwise the record takes the failure
    /// and the alert comes back as `DefaultError` makes it.
    pub fn ReportError(&mut self, error: ASErr, now: i64, user_bound: bool, basic_available: bool) -> (r: Option<Alert>)
        requires
            old(self).wf(),
        ensures
            final(self).wf(),
            *final(self) == (Plugin { errors: after_report(old(self).errors, error, now), ..*old(self) }),
            alerts(old(self).errors, error, now) ==> alert_made(error, user_bound, basic_available, r),
            !alerts(old(self).errors, error, now) ==> r is None,
    {
        if self.errors.report(error, now) {
            Self::DefaultError(error, user_bound, basic_available)
        } else {
            None
        }
    }
}

} // verus!
