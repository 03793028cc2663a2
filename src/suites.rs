//! The suite table: which host suites the adapter holds, and how a run of
//! acquisitions turns into a usable table or a failure to roll back.
use vstd::prelude::*;

use crate::codes::{ASErr, NO_ERR, SUITE_NOT_FOUND_ERROR};

verus! {

/// The suites that the adapter itself needs.
#[derive(Clone, Copy, Debug, PartialEq, Eq, Structural)]
pub enum SuiteId {
    Basic,
    User,
    Plugins,
    Notifier,
    Access,
}

/// Number of mandatory suites.
pub const MANDATORY_COUNT: usize = 5;

/// The mandatory suites, in the order they are acquired.
pub open spec fn mandatory_suites() -> Seq<SuiteId> {
    seq![SuiteId::Basic, SuiteId::User, SuiteId::Plugins, SuiteId::Notifier, SuiteId::Access]
}

/// The mandatory suites, in the order they are acquired.
pub fn mandatory_list() -> (r: Vec<SuiteId>)
    ensures
        r@ == mandatory_suites(),
{
    let r = vec![SuiteId::Basic, SuiteId::User, SuiteId::Plugins, SuiteId::Notifier, SuiteId::Access];
    assert(r@ =~= mandatory_suites());
    r
}

/// Number of leading successes in a run of host replies.
pub open spec fn ok_prefix(replies: Seq<ASErr>) -> nat
    decreases replies.len(),
{
    if replies.len() == 0 || replies[0] != NO_ERR {
        0
    } else {
        1 + ok_prefix(replies.drop_first())
    }
}

/// How many mandatory suites a run of acquisition replies acquired.
pub open spec fn acquired_count(replies: Seq<ASErr>) -> nat {
    if ok_prefix(replies) < MANDATORY_COUNT {
        ok_prefix(replies)
    } else {
        MANDATORY_COUNT as nat
    }
}

/// The outcome of a run of acquisition replies, the `i`-th for the `i`-th
/// mandatory suite: success when every mandatory suite was acquired, else
/// the first failing reply, or "suite not found" for a suite never asked for.
pub open spec fn acquisition_status(replies: Seq<ASErr>) -> ASErr {
    let k = acquired_count(replies);
    if k == MANDATORY_COUNT {
        NO_ERR
    } else if k < replies.len() {
        replies[k as int]
    } else {
        SUITE_NOT_FOUND_ERROR
    }
}

/// `s` in reverse order.
pub open spec fn reversed<T>(s: Seq<T>) -> Seq<T> {
    Seq::new(s.len(), |i: int| s[s.len() - 1 - i])
}

/// The suites to release after a run of replies that failed: those acquired,
/// the last first.
pub open spec fn rollback_suites(replies: Seq<ASErr>) -> Seq<SuiteId> {
    if acquisition_status(replies) == NO_ERR {
        Seq::empty()
    } else {
        reversed(mandatory_suites().take(acquired_count(replies) as int))
    }
}

/// `ok_prefix` is the first index of a failure, or the length.
pub proof fn lemma_ok_prefix(replies: Seq<ASErr>, k: int)
    requires
        0 <= k <= replies.len(),
        forall|i: int| 0 <= i < k ==> replies[i] == NO_ERR,
        k < replies.len() ==> replies[k] != NO_ERR,
    ensures
        ok_prefix(replies) == k,
    decreases k,
{
    if k > 0 {
        lemma_ok_prefix(replies.drop_first(), k - 1);
    }
}

/// Every reply within the leading successes is a success.
pub proof fn lemma_ok_prefix_all(replies: Seq<ASErr>, k: int)
    requires
        0 <= k <= ok_prefix(replies),
    ensures
        k <= replies.len(),
        forall|i: int| 0 <= i < k ==> replies[i] == NO_ERR,
    decreases k,
{
    if k > 0 {
        lemma_ok_prefix_all(replies.drop_first(), k - 1);
        assert forall|i: int| 0 <= i < k implies replies[i] == NO_ERR by {
            if i > 0 {
                assert(replies[i] == replies.drop_first()[i - 1]);
            }
        }
    }
}

/// The number of mandatory suites that `replies` acquired.
pub fn count_acquired(replies: &[ASErr]) -> (k: usize)
    ensures
        k == acquired_count(replies@),
        k <= replies@.len(),
        k <= MANDATORY_COUNT,
        forall|i: int| 0 <= i < k ==> replies@[i] == NO_ERR,
        k < MANDATORY_COUNT && k < replies@.len() ==> replies@[k as int] != NO_ERR,
{
    let mut k: usize = 0;
    while k < replies.len() && k < MANDATORY_COUNT && replies[k] == NO_ERR
        invariant
            k <= replies@.len(),
            k <= MANDATORY_COUNT,
            forall|i: int| 0 <= i < k ==> replies@[i] == NO_ERR,
        decreases MANDATORY_COUNT - k,
    {
        k += 1;
    }
    if k < MANDATORY_COUNT {
        proof {
            lemma_ok_prefix(replies@, k as int);
        }
    } else {
        proof {
            let j = ok_prefix_bound(replies@, k as int);
        }
    }
    k
}

/// `ok_prefix` is at least any prefix of successes.
proof fn ok_prefix_bound(replies: Seq<ASErr>, k: int) -> (u: ())
    requires
        0 <= k <= replies.len(),
        forall|i: int| 0 <= i < k ==> replies[i] == NO_ERR,
    ensures
        ok_prefix(replies) >= k,
    decreases k,
{
    if k > 0 {
        ok_prefix_bound(replies.drop_first(), k - 1);
    }
}

/// The next mandatory suite to ask the host for, given the replies so far;
/// `None` once all are held or one has failed.
pub fn next_mandatory(replies: &[ASErr]) -> (r: Option<SuiteId>)
    ensures
        r matches Some(s) ==> replies@.len() < MANDATORY_COUNT && acquired_count(replies@)
            == replies@.len() && s == mandatory_suites()[replies@.len() as int],
        r is None ==> replies@.len() >= MANDATORY_COUNT || acquired_count(replies@)
            < replies@.len(),
{
    let k = count_acquired(replies);
    if k == replies.len() && k < MANDATORY_COUNT {
        let all = mandatory_list();
        Some(all[k])
    } else {
        None
    }
}

/// The table of suites the adapter holds. While a table exists, every
/// mandatory suite is held.
#[derive(Clone, Copy, Debug, PartialEq, Eq, Structural)]
pub struct Suites {
    /// Aggregate acquisition status.
    pub status: ASErr,
    /// Whether the optional suites have been asked for.
    pub optional_acquired: bool,
    /// Number of owners that will release the table.
    pub ref_count: u32,
}

impl Suites {
    /// A table from the replies to acquiring each mandatory suite in order:
    /// a table when all succeeded, else the failure (see
    /// `acquisition_status`). Nothing optional is asked for here.
    pub fn new(replies: &[ASErr]) -> (r: Result<Suites, ASErr>)
        ensures
            acquisition_status(replies@) == NO_ERR ==> r == Ok::<Suites, ASErr>(
                Suites { status: NO_ERR, optional_acquired: false, ref_count: 0 },
            ),
            acquisition_status(replies@) != NO_ERR ==> r == Err::<Suites, ASErr>(
                acquisition_status(replies@),
            ),
    {
        let k = count_acquired(replies);
        if k == MANDATORY_COUNT {
            Ok(Suites { status: NO_ERR, optional_acquired: false, ref_count: 0 })
        } else if k < replies.len() {
            Err(replies[k])
        } else {
            Err(SUITE_NOT_FOUND_ERROR)
        }
    }

    /// The suites to release after `replies` failed to give a table.
    pub fn rollback(replies: &[ASErr]) -> (r: Vec<SuiteId>)
        ensures
            r@ == rollback_suites(replies@),
    {
        let k = count_acquired(replies);
        let mut r: Vec<SuiteId> = Vec::new();
        if k == MANDATORY_COUNT {
            assert(r@ =~= rollback_suites(replies@));
            return r;
        }
        let all = mandatory_list();
        let mut i: usize = k;
        while i > 0
            invariant
                all@ == mandatory_suites(),
                k < MANDATORY_COUNT,
                i <= k,
                r@ =~= reversed(mandatory_suites().take(k as int)).take(k - i),
            decreases i,
        {
            i -= 1;
            r.push(all[i]);
            assert(r@ =~= reversed(mandatory_suites().take(k as int)).take(k - i));
        }
        assert(r@ =~= rollback_suites(replies@));
        r
    }

    /// The suites to release when a table is given up: every mandatory
    /// suite once, the last acquired first.
    pub fn release_order(&self) -> (r: Vec<SuiteId>)
        ensures
            r@ == reversed(mandatory_suites()),
    {
        let r = vec![SuiteId::Access, SuiteId::Notifier, SuiteId::Plugins, SuiteId::User, SuiteId::Basic];
        assert(r@ =~= reversed(mandatory_suites()));
        r
    }

    /// The aggregate acquisition status.
    pub fn Error(&self) -> (r: ASErr)
        ensures
            r == self.status,
    {
        self.status
    }

    /// Resets the reference count: the table has one owner again.
    pub fn InitializeRefCount(&mut self)
        ensures
            *final(self) == (Suites { ref_count: 1, ..*old(self) }),
    {
        self.ref_count = 1;
    }

    /// Marks the optional suites as asked for; `true` only on the first call,
    /// when the host must be asked. Failures of optional suites fail nothing.
    pub fn acquire_Optional_Suites(&mut self) -> (r: bool)
        ensures
            r == !old(self).optional_acquired,
            *final(self) == (Suites { optional_acquired: true, ..*old(self) }),
    {
        let first = !self.optional_acquired;
        self.optional_acquired = true;
        first
    }
}

} // verus!
