//! The persisted state guarded by the exclusivity lock: the body of
//! the lock file, a single decimal UNIX timestamp of the last executed
//! run.
//!
//! Reading and writing the file itself is the caller's side; here live
//! the verified codec for the body and the bridge from a timestamp to
//! a local wall-clock time.

use vstd::prelude::*;

use crate::clock::{timestamp_to_local, LocalTime, MAX_TIMESTAMP, MIN_TIMESTAMP};
use crate::text::{
    all_digits, dec_str, dec_value, int_literal_value, is_int_literal, is_space, chars_to_string,
    parse_i64_chars, space_char, str_to_chars, u64_dec,
};

verus! {

/// The ways the lock file's body can be rejected.
#[derive(Debug, Clone, Copy, PartialEq, Eq, Structural)]
pub enum LockError {
    /// The body is non-empty but not a decimal integer.
    ParseTimestamp,
    /// The timestamp lies outside the representable datetime range.
    InvalidTimestamp,
}

/// `s` without its leading whitespace.
pub open spec fn trim_start(s: Seq<char>) -> Seq<char>
    decreases s.len(),
{
    if s.len() > 0 && is_space(s[0]) {
        trim_start(s.drop_first())
    } else {
        s
    }
}

/// `s` without its trailing whitespace.
pub open spec fn trim_end(s: Seq<char>) -> Seq<char>
    decreases s.len(),
{
    if s.len() > 0 && is_space(s.last()) {
        trim_end(s.drop_last())
    } else {
        s
    }
}

/// `s` without leading and trailing whitespace.
pub open spec fn trim(s: Seq<char>) -> Seq<char> {
    trim_end(trim_start(s))
}

/// What parsing a lock file body yields: nothing for an empty body, a
/// timestamp for a body that trims to a decimal `i64`, an error
/// otherwise.
pub open spec fn parse_timestamp_spec(s: Seq<char>) -> Result<Option<i64>, LockError> {
    if s.len() == 0 {
        Ok(None)
    } else if is_int_literal(trim(s)) && i64::MIN <= int_literal_value(trim(s)) <= i64::MAX {
        Ok(Some(int_literal_value(trim(s)) as i64))
    } else {
        Err(LockError::ParseTimestamp)
    }
}

/// Dropping all-whitespace leading chunks: `trim_start` ignores the
/// first `lo` characters when they are whitespace and stops at a
/// non-whitespace character.
proof fn lemma_trim_start_skip(s: Seq<char>, lo: int)
    requires
        0 <= lo <= s.len(),
        forall|j: int| 0 <= j < lo ==> is_space(#[trigger] s[j]),
        lo < s.len() ==> !is_space(s[lo as int]),
    ensures
        trim_start(s) == s.skip(lo),
    decreases lo,
{
    if lo == 0 {
        assert(s.skip(0) =~= s);
    } else {
        assert(is_space(s[0]));
        assert(s.drop_first() =~= s.skip(1));
        lemma_trim_start_skip(s.skip(1), lo - 1);
        assert(s.skip(1).skip(lo - 1) =~= s.skip(lo));
    }
}

/// Dropping all-whitespace trailing chunks: `trim_end` ignores the
/// characters from `hi` on when they are whitespace and stops at a
/// non-whitespace character.
proof fn lemma_trim_end_take(s: Seq<char>, hi: int)
    requires
        0 <= hi <= s.len(),
        forall|j: int| hi <= j < s.len() ==> is_space(#[trigger] s[j]),
        hi > 0 ==> !is_space(s[hi - 1]),
    ensures
        trim_end(s) == s.take(hi),
    decreases s.len(),
{
    if hi == s.len() {
        assert(s.take(hi) =~= s);
    } else {
        assert(is_space(s.last()));
        assert(s.drop_last() =~= s.take(s.len() - 1));
        lemma_trim_end_take(s.take(s.len() - 1), hi);
        assert(s.take(s.len() - 1).take(hi) =~= s.take(hi));
    }
}

/// Parses a lock file body: an empty body holds no timestamp; any
/// other body must trim to a decimal `i64` UNIX timestamp.
pub fn parse_timestamp(content: &str) -> (r: Result<Option<i64>, LockError>)
    ensures
        r == parse_timestamp_spec(content@),
{
    let v = str_to_chars(content);
    if v.len() == 0 {
        return Ok(None);
    }
    let mut lo: usize = 0;
    while lo < v.len() && space_char(v[lo])
        invariant
            0 <= lo <= v@.len(),
            forall|j: int| 0 <= j < lo ==> is_space(#[trigger] v@[j]),
        decreases v@.len() - lo,
    {
        lo = lo + 1;
    }
    let mut hi: usize = v.len();
    while hi > lo && space_char(v[hi - 1])
        invariant
            lo <= hi <= v@.len(),
            forall|j: int| hi <= j < v@.len() ==> is_space(#[trigger] v@[j]),
        decreases hi,
    {
        hi = hi - 1;
    }
    let ghost trimmed = trim(content@);
    proof {
        lemma_trim_start_skip(v@, lo as int);
        if hi == lo {
            // Everything was whitespace.
            lemma_trim_end_take(v@.skip(lo as int), 0);
        } else {
            lemma_trim_end_take(v@.skip(lo as int), hi - lo);
        }
        assert(trimmed =~= v@.subrange(lo as int, hi as int));
    }
    let mut mid: Vec<char> = Vec::new();
    let mut i: usize = lo;
    while i < hi
        invariant
            lo <= i <= hi <= v@.len(),
            mid@ == v@.subrange(lo as int, i as int),
        decreases hi - i,
    {
        mid.push(v[i]);
        proof {
            assert(v@.subrange(lo as int, i + 1int) =~= v@.subrange(lo as int, i as int).push(
                v@[i as int],
            ));
        }
        i = i + 1;
    }
    proof {
        assert(mid@ == trimmed);
    }
    match parse_i64_chars(&mid) {
        Some(t) => Ok(Some(t)),
        None => Err(LockError::ParseTimestamp),
    }
}

/// Renders a timestamp as the lock file body: exactly its canonical
/// decimal digits, with a leading `-` for a negative value and nothing
/// else, so that parsing the body yields exactly the timestamp back.
pub fn render_timestamp(t: i64) -> (r: String)
    ensures
        t >= 0 ==> r@ == dec_str(t as int),
        t < 0 ==> r@ == seq!['-'] + dec_str(-(t as int)),
        is_int_literal(r@),
        int_literal_value(r@) == t,
        parse_timestamp_spec(r@) == Ok::<Option<i64>, LockError>(Some(t)),
{
    let neg = t < 0;
    let m: u64 = if t >= 0 {
        t as u64
    } else if t == i64::MIN {
        9_223_372_036_854_775_808u64
    } else {
        (-t) as u64
    };
    let digits = u64_dec(m);
    let mut v: Vec<char> = Vec::new();
    if neg {
        v.push('-');
    }
    let ghost head = v@;
    let mut i: usize = 0;
    while i < digits.len()
        invariant
            i <= digits@.len(),
            v@ == head + digits@.take(i as int),
        decreases digits@.len() - i,
    {
        v.push(digits[i]);
        proof {
            assert(digits@.take(i + 1int) =~= digits@.take(i as int).push(digits@[i as int]));
        }
        i = i + 1;
    }
    proof {
        assert(digits@.take(digits@.len() as int) =~= digits@);
        if neg {
            assert(v@.skip(1) =~= digits@);
            assert(v@[0] == '-');
        } else {
            assert(v@ =~= digits@);
        }
        assert(is_int_literal(v@));
        assert(int_literal_value(v@) == t);
        lemma_no_space_trims_to_itself(v@);
        assert(parse_timestamp_spec(v@) == Ok::<Option<i64>, LockError>(Some(t)));
    }
    chars_to_string(&v)
}

/// A body without whitespace trims to itself.
proof fn lemma_no_space_trims_to_itself(s: Seq<char>)
    requires
        forall|j: int| 0 <= j < s.len() ==> !is_space(#[trigger] s[j]),
    ensures
        trim(s) == s,
{
    assert(trim_start(s) == s);
    assert(trim_end(s) == s);
}

/// Reads the last-run time out of a lock file body: nothing for an
/// empty body; otherwise the body must trim to a decimal `i64`
/// timestamp within the representable datetime range, rendered as a
/// local wall-clock time, and each failure is its own error.
pub fn read_timestamp(content: &str) -> (r: Result<Option<LocalTime>, LockError>)
    ensures
        r == Ok::<Option<LocalTime>, LockError>(None::<LocalTime>) <==> parse_timestamp_spec(
            content@,
        ) == Ok::<Option<i64>, LockError>(None::<i64>),
        r == Err::<Option<LocalTime>, LockError>(LockError::ParseTimestamp)
            <==> parse_timestamp_spec(content@) is Err,
        parse_timestamp_spec(content@) matches Ok(Some(n)) ==> {
            &&& (r is Ok && r->Ok_0 is Some <==> MIN_TIMESTAMP <= n <= MAX_TIMESTAMP)
            &&& (r == Err::<Option<LocalTime>, LockError>(LockError::InvalidTimestamp) <==> !(
            MIN_TIMESTAMP <= n <= MAX_TIMESTAMP))
            &&& (r matches Ok(Some(t)) ==> t.wf())
        },
{
    match parse_timestamp(content) {
        Ok(None) => Ok(None),
        Ok(Some(secs)) => match timestamp_to_local(secs) {
            Some(t) => Ok(Some(t)),
            None => Err(LockError::InvalidTimestamp),
        },
        Err(e) => Err(e),
    }
}

} // verus!
