//! Text forms of the values that go into paths and queries: integers, instants, lists.
use vstd::prelude::*;

verus! {

/// The ASCII digit for `d`, which is below ten.
pub open spec fn digit_char(d: nat) -> char {
    if d == 0 {
        '0'
    } else if d == 1 {
        '1'
    } else if d == 2 {
        '2'
    } else if d == 3 {
        '3'
    } else if d == 4 {
        '4'
    } else if d == 5 {
        '5'
    } else if d == 6 {
        '6'
    } else if d == 7 {
        '7'
    } else if d == 8 {
        '8'
    } else {
        '9'
    }
}

/// The decimal digits of `n`, without leading zeros.
pub open spec fn digits(n: nat) -> Seq<char>
    decreases n,
{
    if n < 10 {
        seq![digit_char(n)]
    } else {
        digits(n / 10).push(digit_char(n % 10))
    }
}

/// The decimal text of `n`, with a leading `-` when negative.
pub open spec fn decimal_text(n: int) -> Seq<char> {
    if n < 0 {
        seq!['-'] + digits((-n) as nat)
    } else {
        digits(n as nat)
    }
}

/// Relies on the `Display` of `i64` (through `to_string`): decimal digits, `-` when negative.
#[verifier::external_body]
pub(crate) fn int_text(n: i64) -> (r: String)
    ensures
        r@ == decimal_text(n as int),
{
    n.to_string()
}

/// Whether every character of `s` is an ASCII digit.
pub open spec fn all_digits(s: Seq<char>) -> bool {
    forall|i: int| 0 <= i < s.len() ==> '0' <= #[trigger] s[i] <= '9'
}

/// The value of a run of ASCII digits.
pub open spec fn digits_value(s: Seq<char>) -> int
    decreases s.len(),
{
    if s.len() == 0 {
        0
    } else {
        digits_value(s.drop_last()) * 10 + (s.last() as int - '0' as int)
    }
}

/// The integer that `s` spells as an optional `+` or `-` followed by one or more ASCII
/// digits, when it fits in an `i32`.
pub open spec fn i32_of_text(s: Seq<char>) -> Option<i32> {
    let negative = s.len() > 0 && s[0] == '-';
    let body = if s.len() > 0 && (s[0] == '-' || s[0] == '+') {
        s.drop_first()
    } else {
        s
    };
    let v = if negative {
        -digits_value(body)
    } else {
        digits_value(body)
    };
    if body.len() > 0 && all_digits(body) && i32::MIN <= v <= i32::MAX {
        Some(v as i32)
    } else {
        None
    }
}

/// Relies on `str::parse::<i32>`: an optional sign and then only digits, in range.
#[verifier::external_body]
pub(crate) fn parse_i32(s: &str) -> (r: Option<i32>)
    ensures
        r == i32_of_text(s@),
{
    s.parse::<i32>().ok()
}

/// An instant, as whole nanoseconds since 1970-01-01T00:00:00 UTC.
#[derive(Debug, Clone, Copy, PartialEq, Eq, Structural)]
pub struct Timestamp {
    pub unix_nanos: i128,
}

/// The ISO 8601 text (the `time` crate's default configuration, in UTC) of the instant
/// `unix_nanos`, or the message of the failure.
pub uninterp spec fn iso8601_text(unix_nanos: int) -> Result<Seq<char>, Seq<char>>;

/// The `[year]-[month]-[day]T[hour]:[minute]:[second]Z` text of the instant `unix_nanos`
/// in UTC, or the message of the failure.
pub uninterp spec fn target_date_text(unix_nanos: int) -> Result<Seq<char>, Seq<char>>;

/// Relies on `time::OffsetDateTime::from_unix_timestamp_nanos` and `OffsetDateTime::format`
/// with `Iso8601::DEFAULT`.
#[verifier::external_body]
pub(crate) fn format_iso8601(unix_nanos: i128) -> (r: Result<String, String>)
    ensures
        match r {
            Ok(t) => iso8601_text(unix_nanos as int) == Ok::<Seq<char>, Seq<char>>(t@),
            Err(m) => iso8601_text(unix_nanos as int) == Err::<Seq<char>, Seq<char>>(m@),
        },
{
    match time::OffsetDateTime::from_unix_timestamp_nanos(unix_nanos) {
        Ok(t) => match t.format(&time::format_description::well_known::Iso8601::DEFAULT) {
            Ok(s) => Ok(s),
            Err(e) => Err(e.to_string()),
        },
        Err(e) => Err(e.to_string()),
    }
}

/// Relies on `time::OffsetDateTime::from_unix_timestamp_nanos` and `OffsetDateTime::format`
/// with the description `[year]-[month]-[day]T[hour]:[minute]:[second]Z` (read by
/// `time::format_description::parse`).
#[verifier::external_body]
pub(crate) fn format_target_date(unix_nanos: i128) -> (r: Result<String, String>)
    ensures
        match r {
            Ok(t) => target_date_text(unix_nanos as int) == Ok::<Seq<char>, Seq<char>>(t@),
            Err(m) => target_date_text(unix_nanos as int) == Err::<Seq<char>, Seq<char>>(m@),
        },
{
    let description = match time::format_description::parse(
        "[year]-[month]-[day]T[hour]:[minute]:[second]Z",
    ) {
        Ok(d) => d,
        Err(e) => return Err(e.to_string()),
    };
    match time::OffsetDateTime::from_unix_timestamp_nanos(unix_nanos) {
        Ok(t) => match t.format(&description) {
            Ok(s) => Ok(s),
            Err(e) => Err(e.to_string()),
        },
        Err(e) => Err(e.to_string()),
    }
}

/// The texts of `parts` joined with commas.
pub open spec fn comma_join(parts: Seq<Seq<char>>) -> Seq<char>
    decreases parts.len(),
{
    if parts.len() == 0 {
        Seq::empty()
    } else if parts.len() == 1 {
        parts[0]
    } else {
        comma_join(parts.drop_last()) + ","@ + parts.last()
    }
}

/// The views of a list of texts.
pub open spec fn texts_view(list: Seq<String>) -> Seq<Seq<char>> {
    list.map_values(|s: String| s@)
}

/// The items of `list` joined with commas.
pub fn list_to_string(list: &Vec<String>) -> (r: String)
    ensures
        r@ == comma_join(texts_view(list@)),
{
    let mut out = String::new();
    let mut i: usize = 0;
    while i < list.len()
        invariant
            i <= list.len(),
            out@ == comma_join(texts_view(list@.take(i as int))),
        decreases list.len() - i,
    {
        let ghost before = texts_view(list@.take(i as int));
        let ghost after = texts_view(list@.take(i as int + 1));
        assert(after.drop_last() =~= before);
        assert(after.last() == list@[i as int]@);
        if i > 0 {
            out.append(",");
        } else {
            assert(before =~= Seq::<Seq<char>>::empty());
        }
        out.append(list[i].as_str());
        i += 1;
        proof {
            if i == 1 {
                assert(out@ =~= after[0]);
            }
        }
    }
    assert(list@.take(list.len() as int) =~= list@);
    out
}

} // verus!
