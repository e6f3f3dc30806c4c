//! Timestamps: reading and showing them as RFC 3339 text.

use vstd::prelude::*;
use crate::text::{decimal_string_wide, decimal_text, push_char, signed_decimal_text};

verus! {

/// An instant with the UTC offset it was recorded in.
#[derive(Clone, Copy, Debug, PartialEq, Eq, Structural)]
pub struct Timestamp {
    /// Nanoseconds since the Unix epoch.
    pub unix_nanos: i128,
    /// Offset from UTC, in seconds.
    pub offset_seconds: i32,
}

/// Name for what `time::OffsetDateTime::parse(text, &Rfc3339)` yields for a
/// text: the instant and offset on success, the parse error's message otherwise.
pub uninterp spec fn rfc3339_parse(text: Seq<char>) -> Result<Timestamp, Seq<char>>;

/// `time::OffsetDateTime::parse` with the RFC 3339 format description. The
/// result is the one named by `rfc3339_parse`; RFC 3339 parsing itself is not
/// restated here.
#[verifier::external_body]
pub(crate) fn parse_rfc3339(text: &str) -> (r: Result<Timestamp, String>)
    ensures
        match r {
            Ok(t) => rfc3339_parse(text@) == Ok::<Timestamp, Seq<char>>(t),
            Err(m) => rfc3339_parse(text@) == Err::<Timestamp, Seq<char>>(m@),
        },
{
    match time::OffsetDateTime::parse(text, &time::format_description::well_known::Rfc3339) {
        Ok(t) => Ok(Timestamp { unix_nanos: t.unix_timestamp_nanos(), offset_seconds: t.offset().whole_seconds() }),
        Err(e) => Err(e.to_string()),
    }
}

/// Name for what `time::OffsetDateTime::format` with the RFC 3339 format
/// description yields for an instant: the text, or `None` when the crate
/// cannot represent the instant in its offset or cannot format it.
pub uninterp spec fn rfc3339_format(t: Timestamp) -> Option<Seq<char>>;

/// `time::OffsetDateTime::format(&Rfc3339)` on the instant in its offset. The
/// text is the one named by `rfc3339_format`; RFC 3339 formatting itself is
/// not restated here.
#[verifier::external_body]
fn format_rfc3339(t: Timestamp) -> (r: Option<String>)
    ensures
        match r {
            Some(s) => rfc3339_format(t) == Some(s@),
            None => rfc3339_format(t) is None,
        },
{
    let offset = time::UtcOffset::from_whole_seconds(t.offset_seconds).ok()?;
    let at = time::OffsetDateTime::from_unix_timestamp_nanos(t.unix_nanos).ok()?;
    let local = at.checked_to_offset(offset)?;
    local.format(&time::format_description::well_known::Rfc3339).ok()
}

/// Whole seconds since the Unix epoch, rounded down.
pub open spec fn unix_seconds(t: Timestamp) -> int {
    t.unix_nanos as int / 1_000_000_000
}

/// How an instant is shown: its RFC 3339 text, or its Unix seconds when it
/// cannot be formatted.
pub open spec fn timestamp_text(t: Timestamp) -> Seq<char> {
    match rfc3339_format(t) {
        Some(s) => s,
        None => signed_decimal_text(unix_seconds(t)),
    }
}

fn unix_seconds_string(t: Timestamp) -> (s: String)
    ensures
        s@ == signed_decimal_text(unix_seconds(t)),
{
    let n = t.unix_nanos;
    let d: u128 = 1_000_000_000;
    if n >= 0 {
        let m = n as u128;
        let q = m / d;
        proof {
            vstd::arithmetic::div_mod::lemma_fundamental_div_mod(m as int, d as int);
            vstd::arithmetic::div_mod::lemma_fundamental_div_mod_converse_div(
                n as int,
                d as int,
                q as int,
                (m % d) as int,
            );
        }
        decimal_string_wide(q)
    } else {
        let m: u128 = ((-(n + 1)) as u128) + 1;
        let a = m / d;
        let b = m % d;
        proof {
            vstd::arithmetic::div_mod::lemma_fundamental_div_mod(m as int, d as int);
            assert(m == a * d + b);
            assert(n == -(m as int));
        }
        let shown: u128 = if b == 0 {
            proof {
                assert(n as int == (-(a as int)) * (d as int) + 0) by (nonlinear_arith)
                    requires
                        n as int == -(m as int),
                        m as int == (a as int) * (d as int) + (b as int),
                        b == 0,
                ;
                vstd::arithmetic::div_mod::lemma_fundamental_div_mod_converse_div(
                    n as int,
                    d as int,
                    -(a as int),
                    0,
                );
            }
            a
        } else {
            proof {
                assert(n as int == (-(a as int) - 1) * (d as int) + (d - b)) by (nonlinear_arith)
                    requires
                        n as int == -(m as int),
                        m as int == (a as int) * (d as int) + (b as int),
                ;
                vstd::arithmetic::div_mod::lemma_fundamental_div_mod_converse_div(
                    n as int,
                    d as int,
                    -(a as int) - 1,
                    (d - b) as int,
                );
                assert(a < m);
            }
            a + 1
        };
        let digits = decimal_string_wide(shown);
        let mut s = String::new();
        push_char(&mut s, '-');
        s.append(digits.as_str());
        assert(s@ =~= seq!['-'] + decimal_text(shown as nat));
        s
    }
}

/// Renders an instant for operators: RFC 3339 where possible, otherwise its
/// Unix seconds.
pub fn format_timestamp(t: Timestamp) -> (s: String)
    ensures
        s@ == timestamp_text(t),
{
    match format_rfc3339(t) {
        Some(s) => s,
        None => unix_seconds_string(t),
    }
}

} // verus!
