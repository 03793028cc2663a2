//! Which failures reach the user, how often, and under which label.
use vstd::prelude::*;

use crate::codes::{is_reply, is_reply_code, ASErr, NO_ERR};

verus! {

/// Codes below this are shown as decimal numbers; the others as four
/// characters.
pub const FIRST_FOUR_CHAR_CODE: ASErr = 16385;

/// Default width of the duplicate-suppression window, in seconds.
pub const DEFAULT_ERROR_TIMEOUT: i64 = 5;

/// The last failure shown to the user, and the suppression policy.
#[derive(Clone, Copy, Debug, PartialEq, Eq, Structural)]
pub struct ErrorRecord {
    pub last_error: ASErr,
    pub last_error_time: i64,
    pub error_timeout: i64,
    pub suppress_duplicates: bool,
}

/// Whether a report of `code` at `now` repeats the last one within its window.
pub open spec fn suppressed(rec: ErrorRecord, code: ASErr, now: i64) -> bool {
    rec.suppress_duplicates && code == rec.last_error && now < rec.last_error_time
        + rec.error_timeout
}

/// Whether a report of `code` at `now` reaches the user.
pub open spec fn alerts(rec: ErrorRecord, code: ASErr, now: i64) -> bool {
    !is_reply_code(code) && !suppressed(rec, code, now)
}

/// The record after a report of `code` at `now`.
pub open spec fn after_report(rec: ErrorRecord, code: ASErr, now: i64) -> ErrorRecord {
    if alerts(rec, code, now) {
        ErrorRecord { last_error: code, last_error_time: now, ..rec }
    } else {
        rec
    }
}

impl ErrorRecord {
    /// A record with no failure yet, a five-second window, and suppression on.
    pub fn new() -> (r: ErrorRecord)
        ensures
            r == (ErrorRecord {
                last_error: NO_ERR,
                last_error_time: 0,
                error_timeout: DEFAULT_ERROR_TIMEOUT,
                suppress_duplicates: true,
            }),
    {
        ErrorRecord {
            last_error: NO_ERR,
            last_error_time: 0,
            error_timeout: DEFAULT_ERROR_TIMEOUT,
            suppress_duplicates: true,
        }
    }

    /// Whether `code` at `now` repeats the last failure within the window.
    pub fn should_suppress(&self, code: ASErr, now: i64) -> (r: bool)
        ensures
            r == suppressed(*self, code, now),
    {
        self.suppress_duplicates && code == self.last_error && (now as i128) < (
        self.last_error_time as i128) + (self.error_timeout as i128)
    }

    /// Records a failure `code` seen at `now`; `true` when it is to be shown
    /// to the user. Replies and repeats within the window are dropped and
    /// leave the record as it was.
    pub fn report(&mut self, code: ASErr, now: i64) -> (r: bool)
        ensures
            r == alerts(*old(self), code, now),
            *final(self) == after_report(*old(self), code, now),
    {
        if is_reply(code) {
            return false;
        }
        if self.should_suppress(code, now) {
            return false;
        }
        self.last_error = code;
        self.last_error_time = now;
        true
    }
}

/// The decimal digits of `n`.
pub open spec fn decimal_digits(n: nat) -> Seq<u8>
    decreases n,
{
    if n < 10 {
        seq![(48 + n) as u8]
    } else {
        decimal_digits(n / 10).push((48 + n % 10) as u8)
    }
}

/// `n` written in decimal, with a leading minus sign when negative.
pub open spec fn decimal_text(n: int) -> Seq<u8> {
    if n < 0 {
        seq![45u8] + decimal_digits((-n) as nat)
    } else {
        decimal_digits(n as nat)
    }
}

/// The four bytes of `code`, most significant first.
pub open spec fn four_char_text(code: ASErr) -> Seq<u8> {
    let c = code as int;
    seq![
        (c / 0x100_0000 % 256) as u8,
        (c / 0x1_0000 % 256) as u8,
        (c / 0x100 % 256) as u8,
        (c % 256) as u8,
    ]
}

/// The label shown for a failure with no message of its own.
pub open spec fn error_label(code: ASErr) -> Seq<u8> {
    if code < FIRST_FOUR_CHAR_CODE {
        decimal_text(code as int)
    } else {
        four_char_text(code)
    }
}

fn digits(n: u32) -> (r: Vec<u8>)
    ensures
        r@ == decimal_digits(n as nat),
    decreases n,
{
    if n < 10 {
        vec![48u8 + n as u8]
    } else {
        let mut r = digits(n / 10);
        r.push(48u8 + (n % 10) as u8);
        r
    }
}

/// `n` in decimal.
pub fn decimal(n: i32) -> (r: Vec<u8>)
    ensures
        r@ == decimal_text(n as int),
{
    if n < 0 {
        let magnitude: u32 = if n == i32::MIN {
            2147483648u32
        } else {
            (-n) as u32
        };
        let mut r: Vec<u8> = vec![45u8];
        let d = digits(magnitude);
        let mut i: usize = 0;
        while i < d.len()
            invariant
                i <= d@.len(),
                r@ == seq![45u8] + d@.take(i as int),
            decreases d@.len() - i,
        {
            r.push(d[i]);
            i += 1;
            assert(r@ =~= seq![45u8] + d@.take(i as int));
        }
        assert(d@.take(d@.len() as int) =~= d@);
        r
    } else {
        digits(n as u32)
    }
}

/// The label for `code`: decimal below `FIRST_FOUR_CHAR_CODE`, else its
/// four bytes, most significant first.
pub fn alert_label(code: ASErr) -> (r: Vec<u8>)
    ensures
        r@ == error_label(code),
{
    if code < FIRST_FOUR_CHAR_CODE {
        decimal(code)
    } else {
        let c = code as u32;
        let r = vec![(c / 0x100_0000 % 256) as u8, (c / 0x1_0000 % 256) as u8, (c / 0x100 % 256) as u8, (c % 256) as u8];
        assert(r@ =~= four_char_text(code));
        r
    }
}

/// How the alert suite is reached for an alert.
#[derive(Clone, Copy, Debug, PartialEq, Eq, Structural)]
pub enum AlertRoute {
    /// The alert suite is bound already.
    Bound,
    /// Acquire the alert suite through the basic suite, alert, then release it.
    Borrowed,
}

/// An alert to show the user.
pub struct Alert {
    pub label: Vec<u8>,
    pub route: AlertRoute,
}

} // verus!
