//! Decimal amounts as the exchange expects them, server timestamps as text,
//! and the JSON fields of responses that the command logic reads.
use vstd::prelude::*;

use crate::text::{append_decimal, decimal};

use std::str::FromStr;

verus! {

/// A decimal number as `rust_decimal` holds it: the signed mantissa, the
/// number of digits after the point, and the sign bit (which also tells a
/// negative zero apart).
#[derive(Debug, Clone, Copy, PartialEq, Eq)]
pub struct DecimalValue {
    pub mantissa: i128,
    pub scale: u32,
    pub negative: bool,
}

/// What `Decimal::from_str` gives for a text: the mantissa, scale and sign
/// of the number, or the text of its error.
pub uninterp spec fn parsed_decimal(s: Seq<char>) -> Result<(i128, u32, bool), Seq<char>>;

/// Calls `rust_decimal::Decimal::from_str`. Trusted: the outcome is the
/// named parse of the text, the number taken apart into mantissa, scale and
/// sign, or the error's display text.
#[verifier::external_body]
pub(crate) fn parse_decimal(s: &str) -> (r: Result<DecimalValue, String>)
    ensures
        match parsed_decimal(s@) {
            Ok((m, k, n)) => r == Ok::<DecimalValue, String>(
                DecimalValue { mantissa: m, scale: k, negative: n },
            ),
            Err(t) => r matches Err(e) && e@ == t,
        },
{
    match rust_decimal::Decimal::from_str(s) {
        Ok(d) => Ok(DecimalValue { mantissa: d.mantissa(), scale: d.scale(), negative: d.is_sign_negative() }),
        Err(e) => Err(e.to_string()),
    }
}

/// What chrono renders for a millisecond UNIX timestamp in the format
/// "%Y-%m-%d %H:%M:%S UTC", or nothing when it is out of chrono's range.
pub uninterp spec fn utc_text(ms: i64) -> Option<Seq<char>>;

/// Calls `chrono::DateTime::from_timestamp_millis` and formats the time
/// with "%Y-%m-%d %H:%M:%S UTC". Trusted: the outcome is the named rendering.
#[verifier::external_body]
fn utc_timestamp_text(ms: i64) -> (r: Option<String>)
    ensures
        r.deep_view() == utc_text(ms),
{
    match chrono::DateTime::from_timestamp_millis(ms) {
        Some(d) => Some(d.format("%Y-%m-%d %H:%M:%S UTC").to_string()),
        None => None,
    }
}

/// The text shown beside a server time: the UTC date and time (or the raw
/// number when it cannot be rendered) followed by the millisecond timestamp
/// in parentheses. A missing or non-numeric timestamp counts as 0.
pub open spec fn server_time_text(ts: Option<u64>) -> Seq<char> {
    let t = match ts {
        Some(t) => t,
        None => 0u64,
    };
    let shown = match utc_text(t as i64) {
        Some(d) => d,
        None => decimal(t as nat),
    };
    shown + " ("@ + decimal(t as nat) + ")"@
}

/// The addendum shown with a server time response.
pub fn server_time_addendum(ts: Option<u64>) -> (r: String)
    ensures
        r@ == server_time_text(ts),
{
    let t: u64 = match ts {
        Some(t) => t,
        None => 0,
    };
    let mut s = match utc_timestamp_text(t as i64) {
        Some(d) => d,
        None => {
            let mut n = String::new();
            append_decimal(&mut n, t);
            n
        },
    };
    s.append(" (");
    append_decimal(&mut s, t);
    s.append(")");
    s
}

/// A JSON field of a response, as far as the command logic reads it.
#[derive(Debug, Clone, PartialEq, Eq)]
pub enum JsonField {
    /// The key is not present.
    Absent,
    /// A string.
    Text(String),
    /// An integer that fits in 64 signed bits.
    Integer(i64),
    /// Any other value, `null` included.
    Other,
}

} // verus!
