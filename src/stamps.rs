//! Finding the activity timestamps that a hosting provider writes into a
//! response body: every occurrence of `"<key>":"<date-time>"`, read as an
//! instant in UTC.
use crate::calendar::{
    civil_seconds, civil_to_timestamp, valid_date, valid_time, Timestamp, SECS_PER_HOUR,
    SECS_PER_MINUTE,
};
use vstd::prelude::*;

verus! {

/// How the date-time after the key is written. All begin with
/// `YYYY-MM-DDThh:mm:ss`; they differ in what follows.
#[derive(Debug, Clone, Copy, PartialEq, Eq, Structural)]
pub enum StampFormat {
    /// A literal `Z`.
    Zulu,
    /// One character other than a line break, three digits of fraction
    /// (ignored), then `Z`.
    ZuluMillis,
    /// A signed offset `+hh:mm` or `-hh:mm`.
    Offset,
    /// Either `Z` or a signed offset.
    ZuluOrOffset,
}

pub const QUOTE: u8 = 34;

pub const COLON: u8 = 58;

pub const DASH: u8 = 45;

pub const PLUS: u8 = 43;

pub const LETTER_T: u8 = 84;

pub const LETTER_Z: u8 = 90;

pub const LINE_FEED: u8 = 10;

/// Length of `YYYY-MM-DDThh:mm:ss`.
pub const DATE_TIME_LEN: usize = 19;

pub open spec fn is_digit(b: u8) -> bool {
    48 <= b <= 57
}

pub open spec fn all_digits(t: Seq<u8>, p: int, n: int) -> bool {
    0 <= p && p + n <= t.len() && forall|k: int| p <= k < p + n ==> is_digit(#[trigger] t[k])
}

/// The decimal value of the `n` digits at `p`.
pub open spec fn digits_value(t: Seq<u8>, p: int, n: nat) -> int
    decreases n,
{
    if n == 0 {
        0
    } else {
        digits_value(t, p, (n - 1) as nat) * 10 + (t[p + n - 1] - 48)
    }
}

pub open spec fn pow10(n: nat) -> int
    decreases n,
{
    if n == 0 {
        1
    } else {
        10 * pow10((n - 1) as nat)
    }
}

/// `YYYY-MM-DDThh:mm:ss` is written at `p`.
pub open spec fn date_time_shape_at(t: Seq<u8>, p: int) -> bool {
    &&& all_digits(t, p, 4)
    &&& all_digits(t, p + 5, 2)
    &&& all_digits(t, p + 8, 2)
    &&& all_digits(t, p + 11, 2)
    &&& all_digits(t, p + 14, 2)
    &&& all_digits(t, p + 17, 2)
    &&& t[p + 4] == DASH
    &&& t[p + 7] == DASH
    &&& t[p + 10] == LETTER_T
    &&& t[p + 13] == COLON
    &&& t[p + 16] == COLON
}

/// The instant of the date-time written at `p`, read as UTC, where one is
/// written there and names an existing date and time of day.
pub open spec fn date_time_at(t: Seq<u8>, p: int) -> Option<int> {
    let y = digits_value(t, p, 4);
    let mo = digits_value(t, p + 5, 2);
    let d = digits_value(t, p + 8, 2);
    let h = digits_value(t, p + 11, 2);
    let mi = digits_value(t, p + 14, 2);
    let s = digits_value(t, p + 17, 2);
    if date_time_shape_at(t, p) && valid_date(y, mo, d) && valid_time(h, mi, s) {
        Some(civil_seconds(y, mo, d, h, mi, s))
    } else {
        None
    }
}

/// A `Z` at `p`: one byte, no offset.
pub open spec fn zulu_at(t: Seq<u8>, p: int) -> Option<(int, int)> {
    if 0 <= p < t.len() && t[p] == LETTER_Z {
        Some((1, 0))
    } else {
        None
    }
}

/// A separator, three digits and `Z` at `p`: five bytes, no offset.
pub open spec fn millis_at(t: Seq<u8>, p: int) -> Option<(int, int)> {
    if 0 <= p && p + 5 <= t.len() && t[p] != LINE_FEED && all_digits(t, p + 1, 3) && t[p + 4]
        == LETTER_Z {
        Some((5, 0))
    } else {
        None
    }
}

/// A signed offset `+hh:mm` or `-hh:mm` at `p` of less than a day, with
/// minutes under sixty: six bytes, and the offset in seconds east of UTC.
pub open spec fn offset_at(t: Seq<u8>, p: int) -> Option<(int, int)> {
    let hh = digits_value(t, p + 1, 2);
    let mm = digits_value(t, p + 4, 2);
    if 0 <= p && p + 6 <= t.len() && (t[p] == PLUS || t[p] == DASH) && all_digits(t, p + 1, 2)
        && t[p + 3] == COLON && all_digits(t, p + 4, 2) && hh < 24 && mm < 60 {
        let east = hh * SECS_PER_HOUR + mm * SECS_PER_MINUTE;
        Some((6, if t[p] == PLUS { east } else { -east }))
    } else {
        None
    }
}

/// What follows the date-time at `p`: its length and the offset it gives.
pub open spec fn suffix_at(t: Seq<u8>, p: int, fmt: StampFormat) -> Option<(int, int)> {
    match fmt {
        StampFormat::Zulu => zulu_at(t, p),
        StampFormat::ZuluMillis => millis_at(t, p),
        StampFormat::Offset => offset_at(t, p),
        StampFormat::ZuluOrOffset => if zulu_at(t, p) is Some {
            zulu_at(t, p)
        } else {
            offset_at(t, p)
        },
    }
}

/// `"<key>":"`, the text that opens an occurrence.
pub open spec fn field_prefix(key: Seq<u8>) -> Seq<u8> {
    seq![QUOTE] + key + seq![QUOTE, COLON, QUOTE]
}

/// An occurrence of the field that starts at `i`: how many bytes it spans
/// and the instant it gives.
pub open spec fn occurrence_at(t: Seq<u8>, key: Seq<u8>, fmt: StampFormat, i: int) -> Option<
    (int, int),
> {
    let p = i + key.len() + 4;
    let q = p + DATE_TIME_LEN;
    if 0 <= i && p <= t.len() && t.subrange(i, p) == field_prefix(key) {
        match (date_time_at(t, p), suffix_at(t, q, fmt)) {
            (Some(local), Some((n, east))) => if q + n < t.len() && t[q + n] == QUOTE {
                Some((q + n + 1 - i, local - east))
            } else {
                None
            },
            _ => None,
        }
    } else {
        None
    }
}

/// The instants of the occurrences from `i` on, in the order they are
/// written; the search goes on after the end of each occurrence.
pub open spec fn instants_from(t: Seq<u8>, key: Seq<u8>, fmt: StampFormat, i: int) -> Seq<
    Timestamp,
>
    decreases t.len() - i,
{
    if i < 0 || i >= t.len() {
        Seq::empty()
    } else {
        match occurrence_at(t, key, fmt, i) {
            Some((n, v)) => if n > 0 {
                seq![v as Timestamp] + instants_from(t, key, fmt, i + n)
            } else {
                Seq::empty()
            },
            None => instants_from(t, key, fmt, i + 1),
        }
    }
}

/// The instants of all occurrences of the field in `t`.
pub open spec fn instants_in(t: Seq<u8>, key: Seq<u8>, fmt: StampFormat) -> Seq<Timestamp> {
    instants_from(t, key, fmt, 0)
}

/// Reads the `n` digits at `p`, or `None` where one of them is no digit.
fn read_digits(t: &[u8], p: usize, n: usize) -> (r: Option<u32>)
    requires
        n <= 4,
    ensures
        r is Some <==> all_digits(t@, p as int, n as int),
        r matches Some(v) ==> v as int == digits_value(t@, p as int, n as nat) && v < pow10(
            n as nat,
        ),
{
    if p > t.len() || n > t.len() - p {
        return None;
    }
    let mut v: u32 = 0;
    let mut j: usize = 0;
    while j < n
        invariant
            n <= 4,
            p + n <= t.len(),
            t.len() == t@.len(),
            j <= n,
            all_digits(t@, p as int, j as int),
            v as int == digits_value(t@, p as int, j as nat),
            0 <= v < pow10(j as nat),
            pow10(j as nat) <= 10000,
        decreases n - j,
    {
        let b = t[p + j];
        if b < 48 || b > 57 {
            return None;
        }
        proof {
            assert(pow10((j + 1) as nat) == 10 * pow10(j as nat));
            reveal_with_fuel(pow10, 5);
            lemma_pow10_monotone(j as nat + 1, 4);
        }
        v = v * 10 + (b - 48) as u32;
        j = j + 1;
    }
    Some(v)
}

proof fn lemma_pow10_monotone(a: nat, b: nat)
    requires
        a <= b,
    ensures
        pow10(a) <= pow10(b),
        pow10(a) >= 1,
    decreases b,
{
    reveal_with_fuel(pow10, 2);
    if a < b {
        lemma_pow10_monotone(a, (b - 1) as nat);
    } else if a > 0 {
        lemma_pow10_monotone((a - 1) as nat, (a - 1) as nat);
    }
}

/// Reads the date-time written at `p`, as `date_time_at` states.
fn read_date_time(t: &[u8], p: usize) -> (r: Option<i64>)
    ensures
        r is Some <==> date_time_at(t@, p as int) is Some,
        r matches Some(v) ==> v as int == date_time_at(t@, p as int)->0,
{
    if p > t.len() || t.len() - p < DATE_TIME_LEN {
        return None;
    }
    if t[p + 4] != DASH || t[p + 7] != DASH || t[p + 10] != LETTER_T || t[p + 13] != COLON
        || t[p + 16] != COLON {
        return None;
    }
    proof {
        reveal_with_fuel(pow10, 5);
    }
    let y = match read_digits(t, p, 4) {
        Some(v) => v,
        None => return None,
    };
    let mo = match read_digits(t, p + 5, 2) {
        Some(v) => v,
        None => return None,
    };
    let d = match read_digits(t, p + 8, 2) {
        Some(v) => v,
        None => return None,
    };
    let h = match read_digits(t, p + 11, 2) {
        Some(v) => v,
        None => return None,
    };
    let mi = match read_digits(t, p + 14, 2) {
        Some(v) => v,
        None => return None,
    };
    let s = match read_digits(t, p + 17, 2) {
        Some(v) => v,
        None => return None,
    };
    civil_to_timestamp(y as i32, mo, d, h, mi, s)
}

/// Reads what follows a date-time at `q`, as `suffix_at` states.
fn read_suffix(t: &[u8], q: usize, fmt: StampFormat) -> (r: Option<(usize, i64)>)
    ensures
        r matches Some((n, east)) ==> -86400 < east < 86400,
        r is Some <==> suffix_at(t@, q as int, fmt) is Some,
        r matches Some((n, east)) ==> suffix_at(t@, q as int, fmt) == Some((n as int, east as int)),
{
    match fmt {
        StampFormat::Zulu => read_zulu(t, q),
        StampFormat::ZuluMillis => read_millis(t, q),
        StampFormat::Offset => read_offset(t, q),
        StampFormat::ZuluOrOffset => match read_zulu(t, q) {
            Some(z) => Some(z),
            None => read_offset(t, q),
        },
    }
}

fn read_zulu(t: &[u8], q: usize) -> (r: Option<(usize, i64)>)
    ensures
        r matches Some((n, east)) ==> -86400 < east < 86400,
        r is Some <==> zulu_at(t@, q as int) is Some,
        r matches Some((n, east)) ==> zulu_at(t@, q as int) == Some((n as int, east as int)),
{
    if q < t.len() && t[q] == LETTER_Z {
        Some((1, 0))
    } else {
        None
    }
}

fn read_millis(t: &[u8], q: usize) -> (r: Option<(usize, i64)>)
    ensures
        r matches Some((n, east)) ==> -86400 < east < 86400,
        r is Some <==> millis_at(t@, q as int) is Some,
        r matches Some((n, east)) ==> millis_at(t@, q as int) == Some((n as int, east as int)),
{
    if q > t.len() || t.len() - q < 5 {
        return None;
    }
    if t[q] == LINE_FEED || t[q + 4] != LETTER_Z {
        return None;
    }
    match read_digits(t, q + 1, 3) {
        Some(_) => Some((5, 0)),
        None => None,
    }
}

fn read_offset(t: &[u8], q: usize) -> (r: Option<(usize, i64)>)
    ensures
        r matches Some((n, east)) ==> -86400 < east < 86400,
        r is Some <==> offset_at(t@, q as int) is Some,
        r matches Some((n, east)) ==> offset_at(t@, q as int) == Some((n as int, east as int)),
{
    if q > t.len() || t.len() - q < 6 {
        return None;
    }
    let sign = t[q];
    if (sign != PLUS && sign != DASH) || t[q + 3] != COLON {
        return None;
    }
    proof {
        reveal_with_fuel(pow10, 3);
    }
    let hh = match read_digits(t, q + 1, 2) {
        Some(v) => v,
        None => return None,
    };
    let mm = match read_digits(t, q + 4, 2) {
        Some(v) => v,
        None => return None,
    };
    if hh >= 24 || mm >= 60 {
        return None;
    }
    let east = hh as i64 * SECS_PER_HOUR + mm as i64 * SECS_PER_MINUTE;
    if sign == PLUS {
        Some((6, east))
    } else {
        Some((6, -east))
    }
}

/// Whether `"<key>":"` is written at `i`.
fn prefix_at(t: &[u8], i: usize, key: &[u8]) -> (r: bool)
    ensures
        r == (i + key@.len() + 4 <= t@.len() && t@.subrange(
            i as int,
            i + key@.len() + 4,
        ) == field_prefix(key@)),
        r ==> i + key.len() + 4 <= t.len(),
{
    let k = key.len();
    if i > t.len() || k > t.len() - i || t.len() - i - k < 4 {
        return false;
    }
    let end = i + k + 4;
    let ghost want = field_prefix(key@);
    assert(want.len() == k + 4);
    if t[i] != QUOTE || t[i + k + 1] != QUOTE || t[i + k + 2] != COLON || t[i + k + 3] != QUOTE {
        assert(t@.subrange(i as int, end as int) != want) by {
            let sub = t@.subrange(i as int, end as int);
            if t[i as int] != QUOTE {
                assert(sub[0] != want[0]);
            } else if t[i + k + 1] != QUOTE {
                assert(sub[k + 1] != want[k + 1]);
            } else if t[i + k + 2] != COLON {
                assert(sub[k + 2] != want[k + 2]);
            } else {
                assert(sub[k + 3] != want[k + 3]);
            }
        }
        return false;
    }
    let mut j: usize = 0;
    while j < k
        invariant
            k == key@.len(),
            end == i + k + 4,
            want == field_prefix(key@),
            i + k + 4 <= t@.len(),
            t.len() == t@.len(),
            j <= k,
            forall|m: int| 0 <= m < j ==> t@[i + 1 + m] == key@[m],
        decreases k - j,
    {
        if t[i + 1 + j] != key[j] {
            assert(t@.subrange(i as int, end as int)[j + 1] != want[j + 1]);
            return false;
        }
        j = j + 1;
    }
    assert(t@.subrange(i as int, end as int) =~= want);
    true
}

/// Reads the occurrence that starts at `i`, as `occurrence_at` states.
fn read_occurrence(t: &[u8], key: &[u8], fmt: StampFormat, i: usize) -> (r: Option<(usize, i64)>)
    ensures
        r is Some <==> occurrence_at(t@, key@, fmt, i as int) is Some,
        r matches Some((n, v)) ==> occurrence_at(t@, key@, fmt, i as int) == Some(
            (n as int, v as int),
        ),
{
    if !prefix_at(t, i, key) {
        return None;
    }
    let p = i + key.len() + 4;
    let local = match read_date_time(t, p) {
        Some(v) => v,
        None => return None,
    };
    if t.len() - p < DATE_TIME_LEN {
        return None;
    }
    let q = p + DATE_TIME_LEN;
    let (n, east) = match read_suffix(t, q, fmt) {
        Some(x) => x,
        None => return None,
    };
    if n >= t.len() - q || t[q + n] != QUOTE {
        return None;
    }
    proof {
        lemma_date_time_range(t@, p as int);
    }
    Some((q + n + 1 - i, local - east))
}

/// An instant read from a date-time lies within the years 0000 to 9999.
proof fn lemma_date_time_range(t: Seq<u8>, p: int)
    requires
        date_time_at(t, p) is Some,
    ensures
        -100_000_000_000 <= date_time_at(t, p)->0 <= 300_000_000_000,
{
    let y = digits_value(t, p, 4);
    let mo = digits_value(t, p + 5, 2);
    let d = digits_value(t, p + 8, 2);
    lemma_digits_range(t, p, 4);
    reveal_with_fuel(pow10, 5);
    lemma_days_before_month_range(y, mo);
    assert(0 <= y <= 9999);
    assert(-3 <= (y - 1) / 4 <= 2500);
    assert(-3 <= (y - 1) / 100 <= 100);
    assert(-3 <= (y - 1) / 400 <= 25);
}

proof fn lemma_digits_range(t: Seq<u8>, p: int, n: nat)
    requires
        all_digits(t, p, n as int),
    ensures
        0 <= digits_value(t, p, n) < pow10(n),
    decreases n,
{
    if n > 0 {
        lemma_digits_range(t, p, (n - 1) as nat);
        assert(is_digit(t[p + n - 1]));
    }
}

proof fn lemma_days_before_month_range(y: int, m: int)
    requires
        1 <= m <= 12,
    ensures
        0 <= crate::calendar::days_before_month(y, m) <= 31 * (m - 1),
    decreases m,
{
    if m > 1 {
        lemma_days_before_month_range(y, m - 1);
    }
}

/// The instants of every occurrence of `"<key>":"<date-time>"` in `t`, in
/// the order they are written.
pub fn scan_instants(t: &[u8], key: &[u8], fmt: StampFormat) -> (r: Vec<Timestamp>)
    ensures
        r@ == instants_in(t@, key@, fmt),
{
    let mut out: Vec<Timestamp> = Vec::new();
    let mut i: usize = 0;
    while i < t.len()
        invariant
            i <= t@.len(),
            t.len() == t@.len(),
            instants_in(t@, key@, fmt) == out@ + instants_from(t@, key@, fmt, i as int),
        decreases t@.len() - i,
    {
        match read_occurrence(t, key, fmt, i) {
            Some((n, v)) => {
                assert(instants_from(t@, key@, fmt, i as int) == seq![v] + instants_from(
                    t@,
                    key@,
                    fmt,
                    i + n,
                ));
                assert(out@.push(v) + instants_from(t@, key@, fmt, i + n) =~= out@ + (seq![v]
                    + instants_from(t@, key@, fmt, i + n)));
                out.push(v);
                i = i + n;
                if i > t.len() {
                    i = t.len();
                }
            },
            None => {
                i = i + 1;
            },
        }
    }
    assert(instants_from(t@, key@, fmt, i as int) == Seq::<Timestamp>::empty());
    assert(out@ + Seq::<Timestamp>::empty() =~= out@);
    out
}

/// `m` is one of `s` and no element of `s` is later.
pub open spec fn is_latest(s: Seq<Timestamp>, m: Timestamp) -> bool {
    s.contains(m) && forall|k: int| 0 <= k < s.len() ==> s[k] <= m
}

/// The latest of the instants, or `None` where there is none.
pub fn latest(v: &Vec<Timestamp>) -> (r: Option<Timestamp>)
    ensures
        r is None <==> v@.len() == 0,
        r matches Some(m) ==> is_latest(v@, m),
{
    if v.len() == 0 {
        return None;
    }
    let mut best: Timestamp = v[0];
    let mut i: usize = 1;
    while i < v.len()
        invariant
            1 <= i <= v@.len(),
            v@.contains(best),
            forall|k: int| 0 <= k < i ==> v@[k] <= best,
        decreases v@.len() - i,
    {
        if v[i] > best {
            best = v[i];
        }
        i = i + 1;
    }
    Some(best)
}

} // verus!
