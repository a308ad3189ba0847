//! Dates of last activity: how long ago a timestamp lies, and how to say so.

use crate::text::{chars_of, find_char, position_of, string_of};
use vstd::prelude::*;
use vstd::string::StringExecFns;

verus! {

/// Nanoseconds in a second.
pub const NANOS_PER_SEC: u32 = 1_000_000_000;

/// A length of time: whole seconds and the nanoseconds past them, always
/// fewer than a second's worth.
#[derive(Clone, Copy, Debug, PartialEq, Eq)]
pub struct Lapse {
    secs: u64,
    nanos: u32,
}

/// A point in time, held as the time since 1970-01-01T00:00:00Z.
#[derive(Clone, Copy, Debug, PartialEq, Eq)]
pub struct Timestamp {
    since_epoch: Lapse,
}

impl Lapse {
    #[verifier::type_invariant]
    spec fn well_formed(self) -> bool {
        self.nanos < NANOS_PER_SEC
    }

    /// The whole seconds.
    pub closed spec fn spec_secs(self) -> u64 {
        self.secs
    }

    /// The nanoseconds past the whole seconds.
    pub closed spec fn spec_nanos(self) -> u32 {
        self.nanos
    }

    /// The length in nanoseconds.
    pub open spec fn total(self) -> int {
        self.spec_secs() * 1_000_000_000 + self.spec_nanos()
    }

    /// A length of time from its parts, where `nanos` is less than a second.
    pub fn new(secs: u64, nanos: u32) -> (made: Option<Lapse>)
        ensures
            made is Some <==> nanos < NANOS_PER_SEC,
            made matches Some(lapse) ==> lapse.spec_secs() == secs && lapse.spec_nanos() == nanos,
    {
        if nanos < NANOS_PER_SEC {
            Some(Lapse { secs, nanos })
        } else {
            None
        }
    }

    /// The whole seconds.
    pub fn secs(&self) -> (secs: u64)
        ensures
            secs == self.spec_secs(),
    {
        self.secs
    }

    /// The nanoseconds past the whole seconds.
    pub fn nanos(&self) -> (nanos: u32)
        ensures
            nanos == self.spec_nanos(),
            nanos < NANOS_PER_SEC,
    {
        proof {
            use_type_invariant(self);
        }
        self.nanos
    }

    /// Whether `self` is at least as long as `other`.
    pub fn covers(&self, other: &Lapse) -> (covers: bool)
        ensures
            covers == (self.total() >= other.total()),
    {
        proof {
            use_type_invariant(self);
            use_type_invariant(other);
        }
        self.secs > other.secs || (self.secs == other.secs && self.nanos >= other.nanos)
    }

    /// By how much `self` is longer than `shorter`.
    pub fn minus(&self, shorter: &Lapse) -> (rest: Lapse)
        requires
            self.total() >= shorter.total(),
        ensures
            rest.total() == self.total() - shorter.total(),
    {
        proof {
            use_type_invariant(self);
            use_type_invariant(shorter);
        }
        if self.nanos >= shorter.nanos {
            Lapse { secs: self.secs - shorter.secs, nanos: self.nanos - shorter.nanos }
        } else {
            Lapse {
                secs: self.secs - shorter.secs - 1,
                nanos: self.nanos + (NANOS_PER_SEC - shorter.nanos),
            }
        }
    }

    /// Two lengths of the same total are the same length.
    pub proof fn total_is_injective(self, other: Lapse)
        requires
            self.spec_nanos() < NANOS_PER_SEC,
            other.spec_nanos() < NANOS_PER_SEC,
            self.total() == other.total(),
        ensures
            self == other,
    {
    }
}

impl Timestamp {
    /// The time since 1970-01-01T00:00:00Z.
    pub closed spec fn spec_since_epoch(self) -> Lapse {
        self.since_epoch
    }

    /// The nanoseconds since 1970-01-01T00:00:00Z.
    pub open spec fn total(self) -> int {
        self.spec_since_epoch().total()
    }

    /// The point in time that lies `since_epoch` after 1970-01-01T00:00:00Z.
    pub fn new(since_epoch: Lapse) -> (made: Timestamp)
        ensures
            made.spec_since_epoch() == since_epoch,
    {
        Timestamp { since_epoch }
    }

    /// The time since 1970-01-01T00:00:00Z.
    pub fn since_epoch(&self) -> (lapse: Lapse)
        ensures
            lapse == self.spec_since_epoch(),
    {
        self.since_epoch
    }
}

/// Why the age of a date could not be told.
#[derive(Clone, Copy, Debug, PartialEq)]
pub enum Error {
    /// The date lies after now, by the length given.
    Computation(Lapse),
    /// The date is no timestamp.
    Formatting(humantime::TimestampError),
}

/// The seconds of a clock reading in milliseconds.
pub open spec fn tt_secs(millis: u64) -> u64 {
    millis / 1000
}

/// The nanoseconds of a clock reading in milliseconds: those of the
/// milliseconds past the whole seconds.
pub open spec fn tt_nanos(millis: u64) -> u32 {
    ((millis % 1000) * 1_000_000) as u32
}

/// The point in time of a clock reading in milliseconds since
/// 1970-01-01T00:00:00Z.
pub fn from_tt(millis: u64) -> (time: Timestamp)
    ensures
        time.spec_since_epoch().spec_secs() == tt_secs(millis),
        time.spec_since_epoch().spec_nanos() == tt_nanos(millis),
        time.total() == millis * 1_000_000,
{
    let secs: u64 = millis / 1000;
    let nanos: u32 = ((millis % 1000) as u32) * 1_000_000;
    Timestamp { since_epoch: Lapse { secs, nanos } }
}

/// The point in time that `text` writes in humantime's weak RFC 3339 form
/// (`2018-02-14 00:28:07`, with or without `T`, `Z`, `+00:00` and a
/// fraction), as seconds and nanoseconds since 1970-01-01T00:00:00Z; `None`
/// where `text` writes none.
pub uninterp spec fn rfc3339_weak(text: Seq<char>) -> Option<(u64, u32)>;

/// What humantime writes for a length of time, such as `2h 37m`.
pub uninterp spec fn duration_text(secs: u64, nanos: u32) -> Seq<char>;

/// Whether a time of this many seconds since 1970-01-01T00:00:00Z may be
/// refused as a timestamp: only where pointers have 32 bits, and only after
/// 2^31 - 1 seconds.
pub open spec fn may_be_refused(secs: u64) -> bool {
    usize::BITS == 32 && secs > 0x7fff_ffff
}

/// `humantime::TimestampError`: why a text is no timestamp. It is carried
/// through as it comes.
#[verifier::external_type_specification]
#[verifier::external_body]
pub struct ExTimestampError(humantime::TimestampError);

/// Calls `humantime::parse_rfc3339_weak`. Claimed of it: a time that it
/// returns is the one that `text` writes, a function of the text alone;
/// humantime builds that time as the epoch plus a length of time, whose
/// seconds and nanoseconds are handed on. Where it fails, `text` writes no
/// time; only where pointers have 32 bits does it also refuse times after
/// the 2^31 - 1 seconds that such a clock can hold.
#[verifier::external_body]
fn parse_rfc3339_weak(text: &str) -> (parsed: Result<Timestamp, humantime::TimestampError>)
    ensures
        parsed matches Ok(time) ==> rfc3339_weak(text@) == Some(
            (time.spec_since_epoch().spec_secs(), time.spec_since_epoch().spec_nanos()),
        ),
        parsed is Err ==> (rfc3339_weak(text@) matches Some(parts) ==> may_be_refused(parts.0)),
{
    let time = humantime::parse_rfc3339_weak(text)?;
    let since = time.duration_since(std::time::UNIX_EPOCH).unwrap_or_default();
    Ok(Timestamp { since_epoch: Lapse { secs: since.as_secs(), nanos: since.subsec_nanos() } })
}

/// Calls `humantime::format_duration` and collects what it displays.
/// Claimed of it: the text is a function of the seconds and nanoseconds
/// alone. A `Lapse` holds less than a second of nanoseconds, so the
/// `Duration` is made without a carry.
#[verifier::external_body]
fn format_duration(lapse: Lapse) -> (text: String)
    ensures
        text@ == duration_text(lapse.spec_secs(), lapse.spec_nanos()),
{
    humantime::format_duration(std::time::Duration::new(lapse.secs, lapse.nanos)).to_string()
}

/// The nanoseconds that seconds and nanoseconds come to.
pub open spec fn parts_total(parts: (u64, u32)) -> int {
    parts.0 * 1_000_000_000 + parts.1
}

/// Whether `outcome` is what the time from `then` to `now` comes to, both
/// in nanoseconds since 1970-01-01T00:00:00Z: the length between them where
/// `then` is not after `now`, else the failure that holds by how much `then`
/// lies ahead.
pub open spec fn is_elapsed(then: int, now: int, outcome: Result<Lapse, Error>) -> bool {
    match outcome {
        Ok(lapse) => then <= now && lapse.total() == now - then,
        Err(Error::Computation(ahead)) => then > now && ahead.total() == then - now,
        Err(Error::Formatting(_)) => false,
    }
}

/// The time that has passed from `then` to `now`.
pub fn elapsed(then: Timestamp, now: Timestamp) -> (outcome: Result<Lapse, Error>)
    ensures
        is_elapsed(then.total(), now.total(), outcome),
{
    let then = then.since_epoch();
    let now = now.since_epoch();
    if now.covers(&then) {
        Ok(now.minus(&then))
    } else {
        Err(Error::Computation(then.minus(&now)))
    }
}

/// How long before `now` the timestamp `date` lies.
///
/// Fails with `Formatting` where `date` writes no time, and with
/// `Computation` where the time that it writes lies after `now`. (Where
/// pointers have 32 bits, a time after 2^31 - 1 seconds may fail with
/// `Formatting` too.)
pub fn ago(date: &str, now: Timestamp) -> (outcome: Result<Lapse, Error>)
    ensures
        outcome matches Err(Error::Formatting(_)) ==> (rfc3339_weak(date@) matches Some(parts)
            ==> may_be_refused(parts.0)),
        !(outcome matches Err(Error::Formatting(_))) ==> (rfc3339_weak(date@) matches Some(parts)
            && is_elapsed(parts_total(parts), now.total(), outcome)),
{
    match parse_rfc3339_weak(date) {
        Ok(then) => elapsed(then, now),
        Err(e) => Err(Error::Formatting(e)),
    }
}

/// What stands before the first space of `s`: all of `s` where it holds none.
pub open spec fn first_word(s: Seq<char>) -> Seq<char> {
    s.subrange(0, position_of(s, ' ', 0))
}

/// The age that a written length of time comes to: its largest unit alone,
/// then `" ago"`; `"2months 5days"` gives `"2months ago"`.
pub fn age_label(written: &str) -> (label: String)
    ensures
        label@ == first_word(written@) + " ago"@,
{
    let chars = chars_of(written);
    let end = find_char(&chars, ' ', 0);
    let mut label = string_of(&chars, 0, end);
    label.append(" ago");
    label
}

/// What to show as the age of a record, from the outcome of `ago`.
pub open spec fn age_text(outcome: Result<Lapse, Error>) -> Seq<char> {
    match outcome {
        Ok(lapse) => first_word(duration_text(lapse.spec_secs(), lapse.spec_nanos())) + " ago"@,
        Err(Error::Computation(_)) => "computation error"@,
        Err(Error::Formatting(_)) => "formatting error"@,
    }
}

/// What to show as the age of a record: the largest unit of the time that
/// has passed, or a short word for the failure.
pub fn describe_age(outcome: &Result<Lapse, Error>) -> (text: String)
    ensures
        text@ == age_text(*outcome),
{
    match outcome {
        Ok(lapse) => {
            let written = format_duration(*lapse);
            age_label(written.as_str())
        },
        Err(Error::Computation(_)) => "computation error".to_string(),
        Err(Error::Formatting(_)) => "formatting error".to_string(),
    }
}

/// What to show as the age of the timestamp `date` at the time `now`, given
/// in nanoseconds since 1970-01-01T00:00:00Z.
pub open spec fn age_of(date: Seq<char>, now: int) -> Seq<char> {
    match rfc3339_weak(date) {
        None => "formatting error"@,
        Some(parts) => {
            let passed = now - parts_total(parts);
            if passed >= 0 {
                first_word(
                    duration_text((passed / 1_000_000_000) as u64, (passed % 1_000_000_000) as u32),
                ) + " ago"@
            } else {
                "computation error"@
            }
        },
    }
}

/// The age of the timestamp `date` at the time `now`, as it is shown:
/// `"3days ago"`, or `"formatting error"` where `date` writes no time, or
/// `"computation error"` where it lies after `now`.
pub fn age(date: &str, now: Timestamp) -> (text: String)
    ensures
        text@ == age_of(date@, now.total()) || (rfc3339_weak(date@) matches Some(parts)
            && may_be_refused(parts.0) && text@ == "formatting error"@),
{
    let outcome = ago(date, now);
    proof {
        if let Ok(lapse) = outcome {
            use_type_invariant(lapse);
            let passed = now.total() - parts_total(rfc3339_weak(date@).unwrap());
            assert(passed == lapse.spec_secs() * 1_000_000_000 + lapse.spec_nanos());
            assert(passed / 1_000_000_000 == lapse.spec_secs() && passed % 1_000_000_000
                == lapse.spec_nanos()) by (nonlinear_arith)
                requires
                    passed == lapse.spec_secs() * 1_000_000_000 + lapse.spec_nanos(),
                    0 <= lapse.spec_nanos() < 1_000_000_000,
            ;
        }
    }
    describe_age(&outcome)
}

} // verus!
