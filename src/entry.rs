//! The entry shim's decisions: the one live instance, what each host message
//! does to it, and what is answered and reported at the end of a call.
//!
//! A host call runs as: classify the pair, `Adapter::begin`, then the step
//! it names (`install` after a startup run, `shutdown`, `reload`, or the
//! handler call a route names, with `unload` for an unload route), then
//! `Adapter::finish` with the resulting code.
use vstd::prelude::*;

use crate::codes::{ASErr, NO_ERR, UNHANDLED_MSG_ERR};
use crate::dispatch::{Classified, Event};
use crate::error_policy::{after_report, alerts, Alert};
use crate::plugin::{
    alert_made, reloaded, route, run_status, started, startup_plan, startup_rollback_suites, HostReply,
    Phase, Plugin, Routed,
};
use crate::suites::{acquisition_status, mandatory_suites, reversed, rollback_suites, SuiteId, Suites};

verus! {

/// What a host message asks of the shim.
#[derive(Clone, Copy, Debug, PartialEq, Eq, Structural)]
pub enum Entry {
    /// Allocate an instance, run its startup, and `install` it.
    Startup,
    /// Shut the live instance down (`shutdown`).
    Shutdown,
    /// Reload the live instance (`reload`).
    Reload,
    /// A message routed by the live instance.
    Route(Routed),
    /// Nothing to do; answer this code.
    Done(ASErr),
}

/// An instance that may be live: well formed, and started.
pub open spec fn installed(p: Plugin) -> bool {
    p.wf() && (p.phase == Phase::Running || p.phase == Phase::Unloaded)
}

/// The instance after it routed a message: optional suites marked as asked for.
pub open spec fn after_routing(p: Plugin) -> Plugin {
    Plugin {
        suites: match p.suites {
            Some(s) => Some(Suites { optional_acquired: true, ..s }),
            None => None,
        },
        ..p
    }
}

/// What the shim does with message `msg` (notifier handle `notifier`) when
/// `inst` is live: a startup always starts anew; a shutdown needs an
/// instance; anything else needs an instance, and, but for a reload, a
/// suite table; otherwise it is answered with success.
pub open spec fn entry_decision(inst: Option<Plugin>, msg: Classified, notifier: u64) -> Entry {
    if msg == Classified::Keyed(Event::Startup) {
        Entry::Startup
    } else if msg == Classified::Keyed(Event::Shutdown) {
        if inst is Some {
            Entry::Shutdown
        } else {
            Entry::Done(NO_ERR)
        }
    } else {
        match inst {
            None => Entry::Done(NO_ERR),
            Some(p) => if msg == Classified::Keyed(Event::Reload) {
                Entry::Reload
            } else if p.suites is None {
                Entry::Done(NO_ERR)
            } else {
                Entry::Route(
                    Routed {
                        dispatch: route(
                            p.app_started_notifier,
                            p.app_shutdown_notifier,
                            msg,
                            notifier,
                        ),
                        acquire_optional: p.suites matches Some(s) && !s.optional_acquired,
                    },
                )
            },
        }
    }
}

/// The code the host sees for a call that ended with `code`.
pub open spec fn host_code(code: ASErr) -> ASErr {
    if code == UNHANDLED_MSG_ERR {
        NO_ERR
    } else {
        code
    }
}

/// The one live plug-in instance of a loaded library, if any.
pub struct Adapter {
    pub instance: Option<Plugin>,
}

impl Adapter {
    /// The live instance, if any, is well formed and started.
    pub open spec fn wf(&self) -> bool {
        self.instance matches Some(p) ==> installed(p)
    }

    /// No live instance yet.
    pub fn new() -> (r: Adapter)
        ensures
            r.wf(),
            r.instance is None,
    {
        Adapter { instance: None }
    }

    /// Decides what message `msg` asks (see `entry_decision`); a routed
    /// message has been routed by the live instance.
    pub fn begin(&mut self, msg: Classified, notifier: u64) -> (r: Entry)
        requires
            old(self).wf(),
        ensures
            final(self).wf(),
            r == entry_decision(old(self).instance, msg, notifier),
            r is Route ==> final(self).instance == Some(after_routing(old(self).instance->Some_0)),
            !(r is Route) ==> *final(self) == *old(self),
    {
        if msg == Classified::Keyed(Event::Startup) {
            return Entry::Startup;
        }
        if msg == Classified::Keyed(Event::Shutdown) {
            return if self.instance.is_some() {
                Entry::Shutdown
            } else {
                Entry::Done(NO_ERR)
            };
        }
        let mut inst = self.instance.take();
        let r = match inst {
            None => Entry::Done(NO_ERR),
            Some(ref mut p) => if msg == Classified::Keyed(Event::Reload) {
                Entry::Reload
            } else if !p.SuitesAcquired() {
                Entry::Done(NO_ERR)
            } else {
                Entry::Route(p.Message(msg, notifier))
            },
        };
        self.instance = inst;
        r
    }

    /// Starts `plugin`, fresh from `Plugin::new`, from the replies of its
    /// startup run, and makes it the live instance if that succeeded. A
    /// failed instance is discarded: no instance is live afterwards, and the
    /// suites to release come back.
    pub fn install(&mut self, plugin: Plugin, replies: &[HostReply]) -> (r: (ASErr, Vec<SuiteId>))
        requires
            old(self).wf(),
            plugin.wf(),
            plugin.phase == Phase::Created,
            plugin.lock_count == 0,
        ensures
            final(self).wf(),
            r.0 == run_status(startup_plan(0), replies@),
            r.0 == NO_ERR ==> final(self).instance == Some(started(plugin, replies@)) && r.1@.len()
                == 0,
            r.0 != NO_ERR ==> final(self).instance is None && r.1@ == startup_rollback_suites(
                startup_plan(0),
                replies@,
            ),
    {
        let mut p = plugin;
        let rollback = p.startup_rollback(replies);
        let code = p.StartupPlugin(replies);
        if code == NO_ERR {
            self.instance = Some(p);
            let v: Vec<SuiteId> = Vec::new();
            (code, v)
        } else {
            self.instance = None;
            (code, rollback)
        }
    }

    /// Shuts the live instance down and discards it; the suites to release
    /// come back.
    pub fn shutdown(&mut self) -> (r: (ASErr, Vec<SuiteId>))
        requires
            old(self).wf(),
        ensures
            final(self).wf(),
            final(self).instance is None,
            r.0 == NO_ERR,
            r.1@ == if old(self).instance matches Some(p) && p.suites is Some {
                reversed(mandatory_suites())
            } else {
                Seq::empty()
            },
    {
        let inst = self.instance.take();
        match inst {
            Some(p) => {
                let mut p = p;
                p.ShutdownPlugin()
            },
            None => {
                let v: Vec<SuiteId> = Vec::new();
                assert(v@ =~= Seq::<SuiteId>::empty());
                (NO_ERR, v)
            },
        }
    }

    /// Unloads the live instance (see `Plugin::UnloadPlugin`).
    pub fn unload(&mut self) -> (r: (ASErr, Vec<SuiteId>))
        requires
            old(self).wf(),
        ensures
            final(self).wf(),
            r.0 == NO_ERR,
            final(self).instance == match old(self).instance {
                Some(p) => Some(Plugin { suites: None, tables_filled: false, phase: Phase::Unloaded, ..p }),
                None => None,
            },
            r.1@ == if old(self).instance matches Some(p) && p.suites is Some {
                reversed(mandatory_suites())
            } else {
                Seq::empty()
            },
    {
        let mut inst = self.instance.take();
        let r = match inst {
            Some(ref mut p) => p.UnloadPlugin(),
            None => {
                let v: Vec<SuiteId> = Vec::new();
                assert(v@ =~= Seq::<SuiteId>::empty());
                (NO_ERR, v)
            },
        };
        self.instance = inst;
        r
    }

    /// Whether a reload has to acquire the mandatory suites again.
    pub fn reload_needs_suites(&self) -> (r: bool)
        ensures
            r == (self.instance matches Some(p) && p.suites is None),
    {
        match &self.instance {
            Some(p) => p.reload_needs_suites(),
            None => false,
        }
    }

    /// Reloads the live instance (see `Plugin::ReloadPlugin`).
    pub fn reload(&mut self, replies: &[ASErr]) -> (r: (ASErr, Vec<SuiteId>))
        requires
            old(self).wf(),
        ensures
            final(self).wf(),
            old(self).instance is None ==> r.0 == NO_ERR && r.1@.len() == 0 && *final(self)
                == *old(self),
            old(self).instance is Some ==> {
                let p = old(self).instance->Some_0;
                &&& p.suites is Some ==> r.0 == NO_ERR && r.1@.len() == 0 && final(self).instance
                    == Some(Plugin { tables_filled: true, ..p })
                &&& p.suites is None ==> r.0 == acquisition_status(replies@) && r.1@
                    == rollback_suites(replies@)
                &&& p.suites is None && r.0 == NO_ERR ==> final(self).instance == Some(reloaded(p))
                &&& p.suites is None && r.0 != NO_ERR ==> *final(self) == *old(self)
            },
    {
        let mut inst = self.instance.take();
        let r = match inst {
            Some(ref mut p) => p.ReloadPlugin(replies),
            None => {
                let v: Vec<SuiteId> = Vec::new();
                (NO_ERR, v)
            },
        };
        self.instance = inst;
        r
    }

    /// Ends a host call that produced `code` at time `now` (seconds): an
    /// unhandled message becomes success; any other failure is reported,
    /// through the live instance's record, or without one when none is live.
    /// Answers the code for the host and the alert to show, if any.
    pub fn finish(&mut self, code: ASErr, now: i64, user_bound: bool, basic_available: bool) -> (r: (
        ASErr,
        Option<Alert>,
    ))
        requires
            old(self).wf(),
        ensures
            final(self).wf(),
            r.0 == host_code(code),
            r.0 == NO_ERR ==> *final(self) == *old(self) && r.1 is None,
            r.0 != NO_ERR && old(self).instance is None ==> *final(self) == *old(self)
                && alert_made(r.0, user_bound, basic_available, r.1),
            r.0 != NO_ERR && old(self).instance is Some ==> {
                let p = old(self).instance->Some_0;
                &&& final(self).instance == Some(
                    Plugin { errors: after_report(p.errors, r.0, now), ..p },
                )
                &&& alerts(p.errors, r.0, now) ==> alert_made(r.0, user_bound, basic_available, r.1)
                &&& !alerts(p.errors, r.0, now) ==> r.1 is None
            },
    {
        let c = if code == UNHANDLED_MSG_ERR {
            NO_ERR
        } else {
            code
        };
        if c == NO_ERR {
            return (c, None);
        }
        let mut inst = self.instance.take();
        let alert = match inst {
            Some(ref mut p) => p.ReportError(c, now, user_bound, basic_available),
            None => Plugin::DefaultError(c, user_bound, basic_available),
        };
        self.instance = inst;
        (c, alert)
    }
}

} // verus!
