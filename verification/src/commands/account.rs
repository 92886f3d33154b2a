//! Account commands: the request each command sends and the title of its
//! output.
use vstd::prelude::*;

use crate::output::ReplyDisplay;
use crate::text::{joined, to_upper, upper_case};

verus! {

#[derive(Debug)]
pub enum AccountCommand {
    /// Get current account information (balances, permissions, etc.)
    Info,
    /// Get non-zero account balances
    Balance,
    /// Get your trade history for a specific symbol
    Trades { symbol: String, limit: u32, from_id: Option<u64> },
}

/// The account request that a command sends.
#[derive(Debug, PartialEq, Eq)]
pub enum AccountRequest {
    /// The account information, with zero balances omitted when asked.
    Account { omit_zero_balances: bool },
    /// The account's trades on a symbol (upper-cased).
    MyTrades { symbol: String, limit: u32, from_id: Option<u64> },
}

#[derive(Debug)]
pub struct AccountPlan {
    pub request: AccountRequest,
    pub title: String,
}

/// Whether `p` is the plan of the account command `cmd`.
pub open spec fn account_planned(cmd: AccountCommand, p: AccountPlan) -> bool {
    match cmd {
        AccountCommand::Info => p.request == AccountRequest::Account { omit_zero_balances: false }
            && p.title@ == "Account Info"@,
        AccountCommand::Balance => p.request == AccountRequest::Account { omit_zero_balances: true }
            && p.title@ == "Account Balances"@,
        AccountCommand::Trades { symbol, limit, from_id } => p.request matches AccountRequest::MyTrades { symbol: s, limit: l, from_id: f } && s@ == upper_case(symbol@) && l == limit && f == from_id && p.title@ == "My Trades — "@ + upper_case(symbol@),
    }
}

/// The title of a balance response, by whether the response holds a
/// "balances" field.
pub open spec fn balance_title(has_balances: bool) -> Seq<char> {
    if has_balances {
        "Account Balances"@
    } else {
        "Account Info"@
    }
}

/// What a balance response shows: only its balances when it holds them,
/// else the whole account information.
pub open spec fn balance_display(has_balances: bool) -> ReplyDisplay {
    if has_balances {
        ReplyDisplay::BalancesOnly
    } else {
        ReplyDisplay::Reply
    }
}

impl AccountCommand {
    /// The request that this command sends and the title of its output.
    pub fn plan(&self) -> (p: AccountPlan)
        ensures
            account_planned(*self, p),
    {
        match self {
            AccountCommand::Info => AccountPlan {
                request: AccountRequest::Account { omit_zero_balances: false },
                title: String::from_str("Account Info"),
            },
            AccountCommand::Balance => AccountPlan {
                request: AccountRequest::Account { omit_zero_balances: true },
                title: String::from_str("Account Balances"),
            },
            AccountCommand::Trades { symbol, limit, from_id } => {
                let sym = to_upper(symbol.as_str());
                let title = joined("My Trades — ", sym.as_str());
                AccountPlan {
                    request: AccountRequest::MyTrades { symbol: sym, limit: *limit, from_id: *from_id },
                    title,
                }
            },
        }
    }

    /// How the balance output is shown, by whether the response holds a
    /// "balances" field: what it shows of the response, and its title.
    pub fn balance_output(has_balances: bool) -> (r: (ReplyDisplay, String))
        ensures
            r.0 == balance_display(has_balances),
            r.1@ == balance_title(has_balances),
    {
        if has_balances {
            (ReplyDisplay::BalancesOnly, String::from_str("Account Balances"))
        } else {
            (ReplyDisplay::Reply, String::from_str("Account Info"))
        }
    }
}

} // verus!
