//! The schedule evaluator: a cron-like four-field spec (minute, hour,
//! day-of-month, month), its parser, and the pure decision whether a
//! run is due.
//!
//! Evaluation assembles a candidate period boundary from `now`: each
//! field either passes its unit through, forces it to an exact value,
//! or rounds it down to a multiple of a step, and the seconds are
//! forced to zero. A run is due exactly when that boundary is strictly
//! later than the last recorded run.

use vstd::prelude::*;

use crate::clock::{time_lt, time_before, LocalTime};
use crate::text::{
    is_space, space_char, str_to_chars, is_int_literal, int_literal_value, parse_i64_from,
    is_digit, digit_val, dec_value,
};

verus! {

/// One field of a schedule spec.
#[derive(Debug, Clone, Copy, PartialEq, Eq, Structural)]
pub enum CronField {
    /// `*`: the unit passes through unchanged.
    Any,
    /// An exact in-range value that the unit is forced to.
    Value(i32),
    /// `*/n`: the unit is rounded down to the nearest multiple of `n`.
    Step(i32),
}

/// A parsed four-field schedule spec.
#[derive(Debug, Clone, Copy, PartialEq, Eq, Structural)]
pub struct CronSpec {
    pub minute: CronField,
    pub hour: CronField,
    pub day: CronField,
    pub month: CronField,
}

/// The ways a schedule spec can be rejected.
#[derive(Debug, Clone, Copy, PartialEq, Eq, Structural)]
pub enum CronError {
    /// The spec does not split into exactly four fields.
    FieldCount,
    /// The step of a `*/n` field is not a decimal integer.
    BadStep,
    /// The step of a `*/n` field is zero or negative.
    StepNotPositive,
    /// A field is neither `*`, `*/n`, nor a decimal integer.
    BadValue,
    /// A numeric field lies outside its calendar range.
    OutOfRange,
}

impl CronField {
    /// A field valid for a unit ranging over `min..=max`.
    pub open spec fn wf(self, min: int, max: int) -> bool {
        match self {
            CronField::Any => true,
            CronField::Value(v) => min <= v <= max,
            CronField::Step(s) => s >= 1,
        }
    }

    /// What [`CronField::fix`] returns: the floored unit value.
    pub open spec fn fix_spec(self, value: int) -> int {
        match self {
            CronField::Any => value,
            CronField::Value(v) => v as int,
            CronField::Step(s) => value - (value % (s as int)),
        }
    }

    /// Floors the current unit `value` according to this field:
    /// a wildcard keeps it, an exact value replaces it, and a step
    /// rounds it down to the nearest multiple of the step.
    pub fn fix(&self, value: i32) -> (r: i32)
        requires
            0 <= value,
            self matches CronField::Step(s) ==> s >= 1,
        ensures
            r == self.fix_spec(value as int),
            r == match *self {
                CronField::Any => value as int,
                CronField::Value(v) => v as int,
                CronField::Step(s) => value - (value as int % (s as int)),
            },
    {
        match self {
            CronField::Any => value,
            CronField::Value(v) => *v,
            CronField::Step(step) => value - (value % *step),
        }
    }
}

impl CronSpec {
    /// Every field valid for its calendar range.
    pub open spec fn wf(self) -> bool {
        &&& self.minute.wf(0, 59)
        &&& self.hour.wf(0, 23)
        &&& self.day.wf(1, 31)
        &&& self.month.wf(1, 12)
    }
}

/// Splits `rest` into maximal whitespace-free runs, with `cur` the run
/// read so far.
pub open spec fn split_acc(cur: Seq<char>, rest: Seq<char>) -> Seq<Seq<char>>
    decreases rest.len(),
{
    if rest.len() == 0 {
        if cur.len() == 0 {
            Seq::empty()
        } else {
            seq![cur]
        }
    } else if is_space(rest[0]) {
        if cur.len() == 0 {
            split_acc(cur, rest.drop_first())
        } else {
            seq![cur] + split_acc(Seq::empty(), rest.drop_first())
        }
    } else {
        split_acc(cur.push(rest[0]), rest.drop_first())
    }
}

/// The whitespace-separated fields of `s`, in order.
pub open spec fn split_ws(s: Seq<char>) -> Seq<Seq<char>> {
    split_acc(Seq::empty(), s)
}

/// Expansion of the named schedule aliases into four-field form.
pub open spec fn resolve_alias(s: Seq<char>) -> Seq<char> {
    if s == "@hourly"@ {
        "0 * * *"@
    } else if s == "@daily"@ || s == "@midnight"@ {
        "0 0 * *"@
    } else if s == "@monthly"@ {
        "0 0 1 *"@
    } else if s == "@annually"@ || s == "@yearly"@ {
        "0 0 1 1"@
    } else {
        s
    }
}

/// What parsing one field of the spec yields for a unit ranging over
/// `min..=max`.
pub open spec fn parse_field_spec(f: Seq<char>, min: int, max: int) -> Result<CronField, CronError> {
    if f.len() == 1 && f[0] == '*' {
        Ok(CronField::Any)
    } else if f.len() >= 2 && f[0] == '*' && f[1] == '/' {
        let rest = f.skip(2);
        if !(is_int_literal(rest) && i32::MIN <= int_literal_value(rest) <= i32::MAX) {
            Err(CronError::BadStep)
        } else if int_literal_value(rest) <= 0 {
            Err(CronError::StepNotPositive)
        } else {
            Ok(CronField::Step(int_literal_value(rest) as i32))
        }
    } else if !(is_int_literal(f) && i32::MIN <= int_literal_value(f) <= i32::MAX) {
        Err(CronError::BadValue)
    } else if !(min <= int_literal_value(f) <= max) {
        Err(CronError::OutOfRange)
    } else {
        Ok(CronField::Value(int_literal_value(f) as i32))
    }
}

/// What parsing a whole schedule spec yields: alias expansion, the
/// four-field split, then each field against its calendar range, the
/// first failing field deciding the error.
pub open spec fn parse_cron_spec_chars(s: Seq<char>) -> Result<CronSpec, CronError> {
    let parts = split_ws(resolve_alias(s));
    if parts.len() != 4 {
        Err(CronError::FieldCount)
    } else if parse_field_spec(parts[0], 0, 59) is Err {
        Err(parse_field_spec(parts[0], 0, 59)->Err_0)
    } else if parse_field_spec(parts[1], 0, 23) is Err {
        Err(parse_field_spec(parts[1], 0, 23)->Err_0)
    } else if parse_field_spec(parts[2], 1, 31) is Err {
        Err(parse_field_spec(parts[2], 1, 31)->Err_0)
    } else if parse_field_spec(parts[3], 1, 12) is Err {
        Err(parse_field_spec(parts[3], 1, 12)->Err_0)
    } else {
        Ok(
            CronSpec {
                minute: parse_field_spec(parts[0], 0, 59)->Ok_0,
                hour: parse_field_spec(parts[1], 0, 23)->Ok_0,
                day: parse_field_spec(parts[2], 1, 31)->Ok_0,
                month: parse_field_spec(parts[3], 1, 12)->Ok_0,
            },
        )
    }
}

/// Whether the character vectors `a` and the string `b` hold the same
/// characters.
fn chars_eq_str(a: &Vec<char>, b: &str) -> (r: bool)
    ensures
        r == (a@ == b@),
{
    let bv = str_to_chars(b);
    if a.len() != bv.len() {
        proof {
            assert(a@.len() != b@.len());
        }
        return false;
    }
    let mut i: usize = 0;
    while i < a.len()
        invariant
            i <= a@.len(),
            a@.len() == bv@.len(),
            bv@ == b@,
            forall|j: int| 0 <= j < i ==> a@[j] == bv@[j],
        decreases a@.len() - i,
    {
        if a[i] != bv[i] {
            return false;
        }
        i = i + 1;
    }
    proof {
        assert(a@ =~= b@);
    }
    true
}

/// Parses one field of a schedule spec for a unit ranging over
/// `min..=max`: `*`, `*/step` with a positive step, or an in-range
/// decimal value.
pub fn parse_field(field: &str, min: i32, max: i32) -> (r: Result<CronField, CronError>)
    ensures
        r == parse_field_spec(field@, min as int, max as int),
{
    let v = str_to_chars(field);
    parse_field_chars(&v, min, max)
}

/// Parses one field of a schedule spec for a unit ranging over
/// `min..=max`.
fn parse_field_chars(f: &Vec<char>, min: i32, max: i32) -> (r: Result<CronField, CronError>)
    ensures
        r == parse_field_spec(f@, min as int, max as int),
{
    if f.len() == 1 && f[0] == '*' {
        Ok(CronField::Any)
    } else if f.len() >= 2 && f[0] == '*' && f[1] == '/' {
        match parse_i64_from(f, 2) {
            Some(v) => {
                if v < i32::MIN as i64 || v > i32::MAX as i64 {
                    Err(CronError::BadStep)
                } else if v <= 0 {
                    Err(CronError::StepNotPositive)
                } else {
                    Ok(CronField::Step(v as i32))
                }
            },
            None => Err(CronError::BadStep),
        }
    } else {
        proof {
            assert(f@.skip(0) =~= f@);
        }
        match parse_i64_from(f, 0) {
            Some(v) => {
                if v < i32::MIN as i64 || v > i32::MAX as i64 {
                    Err(CronError::BadValue)
                } else if v < min as i64 || v > max as i64 {
                    Err(CronError::OutOfRange)
                } else {
                    Ok(CronField::Value(v as i32))
                }
            },
            None => Err(CronError::BadValue),
        }
    }
}

/// Parses a schedule spec: either a named alias (`@hourly`, `@daily`,
/// `@midnight`, `@monthly`, `@annually`, `@yearly`) or four
/// whitespace-separated fields, minute, hour, day-of-month and month,
/// each `*`, `*/step` with a positive step, or an in-range value.
pub fn parse_cron_spec(spec: &str) -> (r: Result<CronSpec, CronError>)
    ensures
        r == parse_cron_spec_chars(spec@),
        r matches Ok(c) ==> c.wf(),
{
    let given = str_to_chars(spec);
    let resolved: Vec<char> = if chars_eq_str(&given, "@hourly") {
        str_to_chars("0 * * *")
    } else if chars_eq_str(&given, "@daily") || chars_eq_str(&given, "@midnight") {
        str_to_chars("0 0 * *")
    } else if chars_eq_str(&given, "@monthly") {
        str_to_chars("0 0 1 *")
    } else if chars_eq_str(&given, "@annually") || chars_eq_str(&given, "@yearly") {
        str_to_chars("0 0 1 1")
    } else {
        given
    };
    proof {
        assert(resolved@ == resolve_alias(spec@));
    }
    let parts = split_fields(&resolved);
    if parts.len() != 4 {
        return Err(CronError::FieldCount);
    }
    let minute = match parse_field_chars(&parts[0], 0, 59) {
        Ok(f) => f,
        Err(e) => {
            return Err(e);
        },
    };
    let hour = match parse_field_chars(&parts[1], 0, 23) {
        Ok(f) => f,
        Err(e) => {
            return Err(e);
        },
    };
    let day = match parse_field_chars(&parts[2], 1, 31) {
        Ok(f) => f,
        Err(e) => {
            return Err(e);
        },
    };
    let month = match parse_field_chars(&parts[3], 1, 12) {
        Ok(f) => f,
        Err(e) => {
            return Err(e);
        },
    };
    Ok(CronSpec { minute, hour, day, month })
}

/// Splits a character vector into its maximal whitespace-free runs.
fn split_fields(v: &Vec<char>) -> (r: Vec<Vec<char>>)
    ensures
        r@.map_values(|t: Vec<char>| t@) == split_ws(v@),
{
    let mut toks: Vec<Vec<char>> = Vec::new();
    let mut cur: Vec<char> = Vec::new();
    let mut i: usize = 0;
    proof {
        assert(v@.skip(0) =~= v@);
        assert(toks@.map_values(|t: Vec<char>| t@) + split_acc(cur@, v@) =~= split_ws(v@));
    }
    while i < v.len()
        invariant
            i <= v@.len(),
            toks@.map_values(|t: Vec<char>| t@) + split_acc(cur@, v@.skip(i as int)) == split_ws(
                v@,
            ),
        decreases v@.len() - i,
    {
        let ghost rest = v@.skip(i as int);
        proof {
            assert(rest[0] == v@[i as int]);
            assert(rest.drop_first() =~= v@.skip(i + 1int));
        }
        let c = v[i];
        if space_char(c) {
            if cur.len() > 0 {
                let done = cur;
                cur = Vec::new();
                toks.push(done);
                proof {
                    assert(toks@.map_values(|t: Vec<char>| t@) =~= toks@.drop_last().map_values(
                        |t: Vec<char>| t@,
                    ) + seq![done@]);
                }
            }
        } else {
            cur.push(c);
        }
        i = i + 1;
    }
    proof {
        assert(v@.skip(i as int) =~= Seq::<char>::empty());
    }
    if cur.len() > 0 {
        let done = cur;
        toks.push(done);
        proof {
            assert(toks@.map_values(|t: Vec<char>| t@) =~= toks@.drop_last().map_values(
                |t: Vec<char>| t@,
            ) + seq![done@]);
        }
    }
    toks
}

/// The period boundary for `now`: all four units floored by their
/// fields and assembled at once, with seconds forced to zero. When
/// that assembled instant is not a valid calendar datetime (a day the
/// floored month does not have), `now` itself stands in.
pub open spec fn last_period_spec(cron: CronSpec, now: LocalTime) -> LocalTime {
    let candidate = LocalTime {
        year: now.year,
        month: cron.month.fix_spec(now.month as int) as u32,
        day: cron.day.fix_spec(now.day as int) as u32,
        hour: cron.hour.fix_spec(now.hour as int) as u32,
        minute: cron.minute.fix_spec(now.minute as int) as u32,
        second: 0,
    };
    if candidate.wf() {
        candidate
    } else {
        now
    }
}

/// Computes [`last_period_spec`]: the boundary assembled from the
/// floored units of `now`.
pub fn calculate_last_period(cron: &CronSpec, now: LocalTime) -> (r: LocalTime)
    requires
        cron.wf(),
        now.wf(),
    ensures
        r == last_period_spec(*cron, now),
        r.wf(),
{
    let candidate = LocalTime {
        year: now.year,
        month: cron.month.fix(now.month as i32) as u32,
        day: cron.day.fix(now.day as i32) as u32,
        hour: cron.hour.fix(now.hour as i32) as u32,
        minute: cron.minute.fix(now.minute as i32) as u32,
        second: 0,
    };
    if candidate.valid() {
        candidate
    } else {
        now
    }
}

/// Whether a run is due: the period boundary for `now` is strictly
/// later than the last run.
pub open spec fn should_run_spec(cron: CronSpec, last_run: LocalTime, now: LocalTime) -> bool {
    time_lt(last_run, last_period_spec(cron, now))
}

/// Once the period boundary for `now` has been recorded as the last
/// run, no run is due for the same `now`: the boundary is not strictly
/// later than itself.
pub proof fn lemma_boundary_settles(cron: CronSpec, now: LocalTime)
    ensures
        !should_run_spec(cron, last_period_spec(cron, now), now),
{
}

/// The named aliases expand to their literal four-field specs:
/// `@hourly` to minute 0 and the rest wildcards, `@daily` and
/// `@midnight` to minute 0 and hour 0, `@monthly` additionally day 1,
/// and `@annually`/`@yearly` additionally month 1.
pub proof fn lemma_alias_expansion()
    ensures
        parse_cron_spec_chars("@hourly"@) == parse_cron_spec_chars("0 * * *"@),
        parse_cron_spec_chars("@daily"@) == parse_cron_spec_chars("0 0 * *"@),
        parse_cron_spec_chars("@midnight"@) == parse_cron_spec_chars("0 0 * *"@),
        parse_cron_spec_chars("@monthly"@) == parse_cron_spec_chars("0 0 1 *"@),
        parse_cron_spec_chars("@annually"@) == parse_cron_spec_chars("0 0 1 1"@),
        parse_cron_spec_chars("@yearly"@) == parse_cron_spec_chars("0 0 1 1"@),
        parse_cron_spec_chars("@daily"@) == Ok::<CronSpec, CronError>(
            CronSpec {
                minute: CronField::Value(0),
                hour: CronField::Value(0),
                day: CronField::Any,
                month: CronField::Any,
            },
        ),
        parse_cron_spec_chars("@hourly"@) == Ok::<CronSpec, CronError>(
            CronSpec {
                minute: CronField::Value(0),
                hour: CronField::Any,
                day: CronField::Any,
                month: CronField::Any,
            },
        ),
        parse_cron_spec_chars("@monthly"@) == Ok::<CronSpec, CronError>(
            CronSpec {
                minute: CronField::Value(0),
                hour: CronField::Value(0),
                day: CronField::Value(1),
                month: CronField::Any,
            },
        ),
        parse_cron_spec_chars("@yearly"@) == Ok::<CronSpec, CronError>(
            CronSpec {
                minute: CronField::Value(0),
                hour: CronField::Value(0),
                day: CronField::Value(1),
                month: CronField::Value(1),
            },
        ),
{
    reveal_strlit("@hourly");
    reveal_strlit("@daily");
    reveal_strlit("@midnight");
    reveal_strlit("@monthly");
    reveal_strlit("@annually");
    reveal_strlit("@yearly");
    reveal_strlit("0 * * *");
    reveal_strlit("0 0 * *");
    reveal_strlit("0 0 1 *");
    reveal_strlit("0 0 1 1");
    assert(!("@daily"@ =~= "@hourly"@));
    assert(!("@midnight"@ =~= "@hourly"@));
    assert(!("@monthly"@ =~= "@hourly"@));
    assert(!("@monthly"@ =~= "@daily"@));
    assert(!("@monthly"@ =~= "@midnight"@));
    assert(!("@annually"@ =~= "@hourly"@));
    assert(!("@annually"@ =~= "@daily"@));
    assert(!("@annually"@ =~= "@midnight"@)) by {
        assert("@annually"@[1] != "@midnight"@[1]);
    }
    assert(!("@annually"@ =~= "@monthly"@));
    assert(!("@yearly"@ =~= "@hourly"@)) by {
        assert("@yearly"@[1] != "@hourly"@[1]);
    }
    assert(!("@yearly"@ =~= "@daily"@));
    assert(!("@yearly"@ =~= "@midnight"@));
    assert(!("@yearly"@ =~= "@monthly"@));
    assert(!("@yearly"@ =~= "@annually"@));
    lemma_alias_parse("0 * * *"@, CronField::Any, CronField::Any, CronField::Any);
    lemma_alias_parse("0 0 * *"@, CronField::Value(0), CronField::Any, CronField::Any);
    lemma_alias_parse("0 0 1 *"@, CronField::Value(0), CronField::Value(1), CronField::Any);
    lemma_alias_parse("0 0 1 1"@, CronField::Value(0), CronField::Value(1), CronField::Value(1));
}

/// Evaluates the parse of one expanded alias body: seven characters,
/// `0`, a space, then three one-character fields.
proof fn lemma_alias_parse(s: Seq<char>, hour: CronField, day: CronField, month: CronField)
    requires
        s.len() == 7,
        s[0] == '0',
        s[1] == ' ',
        s[3] == ' ',
        s[5] == ' ',
        field_char_ok(s[2], hour, 0, 23),
        field_char_ok(s[4], day, 1, 31),
        field_char_ok(s[6], month, 1, 12),
    ensures
        parse_cron_spec_chars(s) == Ok::<CronSpec, CronError>(
            CronSpec { minute: CronField::Value(0), hour, day, month },
        ),
{
    assert(!is_space('0') && !is_space('*') && !is_space('1') && is_space(' '));
    reveal_with_fuel(split_acc, 9);
    let parts = split_ws(resolve_alias(s));
    assert(resolve_alias(s) == s) by {
        // The expanded bodies start with `0`; the alias names with `@`.
        reveal_strlit("@hourly");
        reveal_strlit("@daily");
        reveal_strlit("@midnight");
        reveal_strlit("@monthly");
        reveal_strlit("@annually");
        reveal_strlit("@yearly");
        assert(s[0] == '0');
        assert(!(s =~= "@hourly"@));
        assert(!(s =~= "@daily"@));
        assert(!(s =~= "@midnight"@));
        assert(!(s =~= "@monthly"@));
        assert(!(s =~= "@annually"@));
        assert(!(s =~= "@yearly"@));
    }
    assert(parts =~= seq![seq![s[0]], seq![s[2]], seq![s[4]], seq![s[6]]]) by {
        lemma_split_seven(s);
    }
    assert(parse_field_spec(seq!['0'], 0, 59) == Ok::<CronField, CronError>(CronField::Value(0)))
        by {
        lemma_single_char_field('0', 0, 59);
    }
    lemma_single_char_field(s[2], 0, 23);
    lemma_single_char_field(s[4], 1, 31);
    lemma_single_char_field(s[6], 1, 12);
}

/// What a one-character field must parse to, for the characters the
/// alias bodies use.
spec fn field_char_ok(c: char, f: CronField, min: int, max: int) -> bool {
    if c == '*' {
        f == CronField::Any
    } else {
        is_digit(c) && min <= digit_val(c) <= max && f == CronField::Value(digit_val(c) as i32)
    }
}

/// Parsing a one-character field: `*` is a wildcard and a digit is the
/// exact value.
proof fn lemma_single_char_field(c: char, min: int, max: int)
    requires
        c == '*' || is_digit(c),
    ensures
        c == '*' ==> parse_field_spec(seq![c], min, max) == Ok::<CronField, CronError>(
            CronField::Any,
        ),
        c != '*' && min <= digit_val(c) <= max ==> parse_field_spec(seq![c], min, max)
            == Ok::<CronField, CronError>(CronField::Value(digit_val(c) as i32)),
{
    let f = seq![c];
    if c != '*' {
        assert(is_int_literal(f)) by {
            assert(f[0] == c && is_digit(c));
            assert(c != '+' && c != '-');
        }
        assert(dec_value(f) == digit_val(c)) by {
            assert(f.drop_last() =~= Seq::<char>::empty());
            reveal_with_fuel(dec_value, 2);
        }
        assert(int_literal_value(f) == digit_val(c));
    }
}

/// The split of a seven-character alias body: four one-character
/// fields.
proof fn lemma_split_seven(s: Seq<char>)
    requires
        s.len() == 7,
        !is_space(s[0]),
        is_space(s[1]),
        !is_space(s[2]),
        is_space(s[3]),
        !is_space(s[4]),
        is_space(s[5]),
        !is_space(s[6]),
    ensures
        split_ws(s) == seq![seq![s[0]], seq![s[2]], seq![s[4]], seq![s[6]]],
{
    reveal_with_fuel(split_acc, 9);
    let e = Seq::<char>::empty();
    assert(s.drop_first() =~= s.skip(1));
    assert(s.skip(1).drop_first() =~= s.skip(2));
    assert(s.skip(2).drop_first() =~= s.skip(3));
    assert(s.skip(3).drop_first() =~= s.skip(4));
    assert(s.skip(4).drop_first() =~= s.skip(5));
    assert(s.skip(5).drop_first() =~= s.skip(6));
    assert(s.skip(6).drop_first() =~= s.skip(7));
    assert(s.skip(7) =~= e);
    assert(s.skip(1)[0] == s[1]);
    assert(s.skip(2)[0] == s[2]);
    assert(s.skip(3)[0] == s[3]);
    assert(s.skip(4)[0] == s[4]);
    assert(s.skip(5)[0] == s[5]);
    assert(s.skip(6)[0] == s[6]);
    assert(e.push(s[0]) =~= seq![s[0]]);
    assert(e.push(s[2]) =~= seq![s[2]]);
    assert(e.push(s[4]) =~= seq![s[4]]);
    assert(e.push(s[6]) =~= seq![s[6]]);
    assert(split_acc(e, s) == seq![seq![s[0]]] + split_acc(e, s.skip(2)));
    assert(split_acc(e, s.skip(2)) == seq![seq![s[2]]] + split_acc(e, s.skip(4)));
    assert(split_acc(e, s.skip(4)) == seq![seq![s[4]]] + split_acc(e, s.skip(6)));
    assert(split_acc(e, s.skip(6)) == seq![seq![s[6]]]);
    assert(split_ws(s) =~= seq![seq![s[0]], seq![s[2]], seq![s[4]], seq![s[6]]]);
}

/// With a `@daily` schedule, a run is due at any `now` whose calendar
/// date is later than the date of the last run: the daily boundary,
/// midnight of `now`'s day, is then strictly later than the last run.
pub proof fn lemma_daily_runs_on_later_day(last_run: LocalTime, now: LocalTime)
    requires
        now.wf(),
        last_run.year < now.year || (last_run.year == now.year && last_run.month < now.month) || (
        last_run.year == now.year && last_run.month == now.month && last_run.day < now.day),
    ensures
        parse_cron_spec_chars("@daily"@) matches Ok(cron) && should_run_spec(cron, last_run, now),
{
    lemma_alias_expansion();
    let cron = parse_cron_spec_chars("@daily"@)->Ok_0;
    let boundary = last_period_spec(cron, now);
    assert(boundary == LocalTime { hour: 0, minute: 0, second: 0, ..now });
}

/// The scheduled gate: whether this invocation should execute at all.
/// With no recorded last run the run is due; otherwise it is due
/// exactly when [`should_run`] says so.
pub fn schedule_decision(spec: &str, last_run: Option<LocalTime>, now: LocalTime) -> (r: Result<
    bool,
    CronError,
>)
    requires
        now.wf(),
    ensures
        last_run is None ==> r == Ok::<bool, CronError>(true),
        last_run matches Some(t) ==> {
            &&& (r matches Err(e) ==> parse_cron_spec_chars(spec@) == Err::<CronSpec, CronError>(e))
            &&& (r matches Ok(due) ==> parse_cron_spec_chars(spec@) matches Ok(c) && due
                == should_run_spec(c, t, now))
        },
{
    match last_run {
        Some(t) => should_run(spec, t, now),
        None => Ok(true),
    }
}

/// Parses `spec` and decides whether a run is due at `now`, given the
/// last recorded run: true exactly when the period boundary assembled
/// from `now` is strictly later than `last_run`.
pub fn should_run(spec: &str, last_run: LocalTime, now: LocalTime) -> (r: Result<bool, CronError>)
    requires
        now.wf(),
    ensures
        r matches Err(e) ==> parse_cron_spec_chars(spec@) == Err::<CronSpec, CronError>(e),
        r matches Ok(due) ==> parse_cron_spec_chars(spec@) matches Ok(c) && due == should_run_spec(
            c,
            last_run,
            now,
        ),
{
    let cron = match parse_cron_spec(spec) {
        Ok(c) => c,
        Err(e) => {
            return Err(e);
        },
    };
    let boundary = calculate_last_period(&cron, now);
    Ok(time_before(&last_run, &boundary))
}

} // verus!
