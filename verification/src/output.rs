//! Output formats, what an output shows of a reply, and when output
//! shows nothing.
use vstd::prelude::*;

verus! {

/// How command output is shown: as a table, or as a JSON envelope.
#[derive(Debug, Clone, Copy, PartialEq, Eq)]
pub enum OutputFormat {
    Table,
    Json,
}

/// What an output shows of the reply to a command's request.
#[derive(Debug, Clone, Copy, PartialEq, Eq, Structural)]
pub enum ReplyDisplay {
    /// The reply as it came.
    Reply,
    /// A bare `{"status": "ok"}` in place of the reply, which only shows
    /// that the API is reachable.
    StatusOnly,
    /// The reply, with the server time that it holds (its "serverTime"
    /// field) shown as the addendum.
    ServerTime,
    /// Only the reply's "balances" field, as `{"balances": ...}`.
    BalancesOnly,
}

/// Whether an output shows nothing: no title, no data and no addendum.
/// Such output renders as empty text in every format.
pub fn is_blank(label: &str, data_is_null: bool, has_addendum: bool) -> (r: bool)
    ensures
        r == (label@.len() == 0 && data_is_null && !has_addendum),
{
    label.is_empty() && data_is_null && !has_addendum
}

} // verus!
