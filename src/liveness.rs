//! How alive a source looks, judged from the instant of its latest activity.
use crate::calendar::{Timestamp, SECS_PER_HOUR};
use vstd::prelude::*;

verus! {

/// Activity within this many seconds before now counts as buzzing.
pub const BUZZING_WITHIN: i64 = 24 * SECS_PER_HOUR;

/// Activity within this many seconds before now counts as okayish.
pub const OKAYISH_WITHIN: i64 = 168 * SECS_PER_HOUR;

/// The liveness state of a source.
#[derive(Debug, Clone, Copy, PartialEq, Eq, Structural)]
pub enum Happiness {
    Undecided,
    Sad,
    Okayish,
    Buzzing,
}

/// The latest activity lies after the instant it is judged against.
#[derive(Debug, Clone, Copy, PartialEq, Eq, Structural)]
pub struct ActivityFromTheFuture {
    pub now: Timestamp,
    pub last: Timestamp,
}

/// The state for activity `age` seconds old (`age >= 0`): each bound belongs
/// to the livelier band.
pub open spec fn happiness_for_age(age: int) -> Happiness {
    if age < BUZZING_WITHIN {
        Happiness::Buzzing
    } else if age < OKAYISH_WITHIN {
        Happiness::Okayish
    } else {
        Happiness::Sad
    }
}

/// What judging `last` at instant `now` gives.
pub open spec fn classify_spec(now: int, last: Option<Timestamp>) -> Result<
    Happiness,
    ActivityFromTheFuture,
> {
    match last {
        None => Ok(Happiness::Undecided),
        Some(t) => if t > now {
            Err(ActivityFromTheFuture { now: now as i64, last: t })
        } else {
            Ok(happiness_for_age(now - t))
        },
    }
}

/// Judges the latest activity `last` at instant `now`.
pub fn classify(now: Timestamp, last: Option<Timestamp>) -> (r: Result<
    Happiness,
    ActivityFromTheFuture,
>)
    ensures
        r == classify_spec(now as int, last),
{
    match last {
        None => Ok(Happiness::Undecided),
        Some(t) => {
            if t > now {
                Err(ActivityFromTheFuture { now, last: t })
            } else {
                let age: i128 = now as i128 - t as i128;
                if age < BUZZING_WITHIN as i128 {
                    Ok(Happiness::Buzzing)
                } else if age < OKAYISH_WITHIN as i128 {
                    Ok(Happiness::Okayish)
                } else {
                    Ok(Happiness::Sad)
                }
            }
        },
    }
}

/// Judging against the clock failed.
#[derive(Debug, Clone, Copy, PartialEq, Eq, Structural)]
pub enum JudgeError {
    /// The latest activity lies after the clock's reading.
    FromTheFuture(ActivityFromTheFuture),
    /// The clock reads before the epoch, or too far after it.
    ClockUnreadable,
}

/// What judging `last` at instant `now` gives, with a future activity as a
/// judging error.
pub open spec fn judged(now: int, last: Option<Timestamp>) -> Result<Happiness, JudgeError> {
    match classify_spec(now, last) {
        Ok(h) => Ok(h),
        Err(e) => Err(JudgeError::FromTheFuture(e)),
    }
}

/// Relies on std's `SystemTime::elapsed` on `UNIX_EPOCH`: the time since the
/// epoch, in whole seconds, or `None` where the clock reads before it.
/// Nothing is promised of the reading: it is the machine's clock.
#[verifier::external_body]
fn seconds_since_epoch() -> (r: Option<u64>) {
    std::time::UNIX_EPOCH.elapsed().ok().map(|d| d.as_secs())
}

/// The clock's reading as an instant, or `None` where it cannot be read as
/// one.
pub(crate) fn clock_now() -> (r: Option<Timestamp>)
    ensures
        r matches Some(t) ==> t >= 0,
{
    match seconds_since_epoch() {
        Some(s) => if s <= i64::MAX as u64 {
            Some(s as i64)
        } else {
            None
        },
        None => None,
    }
}

impl Happiness {
    /// Judges the latest activity `last` against the clock as it reads now;
    /// with no activity the clock is not read.
    pub fn from_last_activity(last: Option<Timestamp>) -> (r: Result<Happiness, JudgeError>)
        ensures
            last is None ==> r == Ok::<Happiness, JudgeError>(Happiness::Undecided),
            last is Some ==> r == Err::<Happiness, JudgeError>(JudgeError::ClockUnreadable) || exists|
                now: Timestamp,
            | r == judged(now as int, last),
    {
        if last.is_none() {
            return Ok(Happiness::Undecided);
        }
        match clock_now() {
            None => Err(JudgeError::ClockUnreadable),
            Some(now) => {
                let r = match classify(now, last) {
                    Ok(h) => Ok(h),
                    Err(e) => Err(JudgeError::FromTheFuture(e)),
                };
                assert(r == judged(now as int, last));
                r
            },
        }
    }

    /// The lower-case name of the state.
    pub fn name(&self) -> (r: String)
        ensures
            r@ == happiness_name(*self)@,
    {
        match self {
            Happiness::Undecided => String::from_str("undecided"),
            Happiness::Sad => String::from_str("sad"),
            Happiness::Okayish => String::from_str("okayish"),
            Happiness::Buzzing => String::from_str("buzzing"),
        }
    }
}

pub open spec fn happiness_name(h: Happiness) -> &'static str {
    match h {
        Happiness::Undecided => "undecided",
        Happiness::Sad => "sad",
        Happiness::Okayish => "okayish",
        Happiness::Buzzing => "buzzing",
    }
}

/// Activity `d >= 0` seconds before `now` is buzzing exactly when `d` is under
/// 24 hours, okayish exactly when it is at least 24 and under 168 hours, and
/// sad exactly from 168 hours on; no activity is undecided whatever `now`
/// is; activity after `now` is refused.
pub proof fn classify_bands(now: int, last: Timestamp, d: int)
    requires
        d >= 0,
        last == now - d,
    ensures
        (classify_spec(now, Some(last)) == Ok::<Happiness, ActivityFromTheFuture>(
            Happiness::Buzzing,
        )) <==> d < 24 * 3600,
        (classify_spec(now, Some(last)) == Ok::<Happiness, ActivityFromTheFuture>(
            Happiness::Okayish,
        )) <==> 24 * 3600 <= d < 168 * 3600,
        (classify_spec(now, Some(last)) == Ok::<Happiness, ActivityFromTheFuture>(
            Happiness::Sad,
        )) <==> d >= 168 * 3600,
        classify_spec(now, None) == Ok::<Happiness, ActivityFromTheFuture>(Happiness::Undecided),
{
}

/// Judging activity that lies after `now` always fails.
pub proof fn classify_refuses_future(now: int, last: Timestamp)
    requires
        last > now,
    ensures
        classify_spec(now, Some(last)) is Err,
{
}

} // verus!
