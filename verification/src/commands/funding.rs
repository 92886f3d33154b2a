//! Funding commands: withdrawals and deposit queries, the request each
//! command sends and the title and addendum of its output.
use vstd::prelude::*;

use crate::config::{require_credentials, Credentials, CREDENTIALS_REQUIRED};
use crate::errors::BinanceError;
use crate::numbers::{parse_decimal, parsed_decimal, DecimalValue};
use crate::text::{joined, to_upper, upper_case};

verus! {

#[derive(Debug)]
pub enum FundingCommand {
    /// Withdraw crypto to an external address
    Withdraw { coin: String, amount: String, address: String, network: Option<String> },
    /// Get crypto withdraw history
    WithdrawHistory { coin: Option<String> },
    /// Get crypto deposit history
    DepositHistory { coin: Option<String> },
    /// Get deposit address for a coin
    DepositAddress { coin: String, network: Option<String> },
}

/// The wallet request that a funding command sends, coins upper-cased.
#[derive(Debug)]
pub enum FundingRequest {
    Withdraw { coin: String, address: String, amount: DecimalValue, network: Option<String> },
    WithdrawHistory { coin: Option<String> },
    DepositHistory { coin: Option<String> },
    DepositAddress { coin: String, network: Option<String> },
}

#[derive(Debug)]
pub struct FundingPlan {
    pub request: FundingRequest,
    pub title: String,
    pub addendum: Option<String>,
}

pub open spec fn upper_coin(coin: Option<String>, r: Option<String>) -> bool {
    match coin {
        Some(c) => r matches Some(u) && u@ == upper_case(c@),
        None => r is None,
    }
}

/// Whether `r` is the plan of the funding command `cmd`.
pub open spec fn funding_planned(cmd: FundingCommand, r: Result<FundingPlan, BinanceError>) -> bool {
    match cmd {
        FundingCommand::Withdraw { coin, amount, address, network } => match parsed_decimal(amount@) {
            Err(e) => r matches Err(BinanceError::Validation(m)) && m@ == "Invalid amount '"@
                + amount@ + "': "@ + e,
            Ok(v) => r matches Ok(p) && p.request matches FundingRequest::Withdraw {
                coin: c,
                address: a,
                amount: x,
                network: n,
            } && c@ == upper_case(coin@) && a == address && x == (DecimalValue {
                mantissa: v.0,
                scale: v.1,
                negative: v.2,
            }) && n == network && p.title@ == "Withdrawal Submitted"@ && p.addendum is Some
                && p.addendum.unwrap()@ == "Withdrawal request of "@ + amount@ + " "@ + upper_case(
                coin@,
            ) + " submitted successfully"@,
        },
        FundingCommand::WithdrawHistory { coin } => r matches Ok(p) && p.request matches FundingRequest::WithdrawHistory { coin: c } && upper_coin(coin, c) && p.title@ == "Withdrawal History"@ && p.addendum is None,
        FundingCommand::DepositHistory { coin } => r matches Ok(p) && p.request matches FundingRequest::DepositHistory { coin: c } && upper_coin(coin, c) && p.title@ == "Deposit History"@ && p.addendum is None,
        FundingCommand::DepositAddress { coin, network } => r matches Ok(p) && p.request matches FundingRequest::DepositAddress { coin: c, network: n } && c@ == upper_case(coin@) && n == network && p.title@ == "Deposit Address — "@ + upper_case(coin@) && p.addendum is None,
    }
}

/// Law: a withdrawal is sent for exactly the network and the address that
/// the command names (no network means the coin's default one), with the
/// coin upper-cased, and it is planned exactly when the amount parses as a
/// decimal; a deposit address query asks for exactly the network named.
pub proof fn law_funding_keeps_network(cmd: FundingCommand, r: Result<FundingPlan, BinanceError>)
    requires
        funding_planned(cmd, r),
    ensures
        match cmd {
            FundingCommand::Withdraw { coin, amount, address, network } => {
                &&& (r is Ok <==> parsed_decimal(amount@) is Ok)
                &&& r matches Ok(p) ==> p.request matches FundingRequest::Withdraw {
                    coin: c,
                    address: a,
                    network: n,
                    ..
                } && n == network && a == address && c@ == upper_case(coin@)
            },
            FundingCommand::DepositAddress { coin, network } => r matches Ok(p)
                && p.request matches FundingRequest::DepositAddress { coin: c, network: n } && n
                == network && c@ == upper_case(coin@),
            _ => true,
        },
{
}

fn upper_optional(coin: &Option<String>) -> (r: Option<String>)
    ensures
        upper_coin(*coin, r),
{
    match coin {
        Some(c) => Some(to_upper(c.as_str())),
        None => None,
    }
}

impl FundingCommand {
    /// The plan of this command for a client with the given credentials:
    /// without credentials, the authentication error, before any check of
    /// the command's own arguments; with them, the plan.
    pub fn plan_authorized(&self, credentials: &Option<Credentials>) -> (r: Result<FundingPlan, BinanceError>)
        ensures
            match credentials {
                Some(_) => funding_planned(*self, r),
                None => r matches Err(BinanceError::Auth(m)) && m@ == CREDENTIALS_REQUIRED@,
            },
    {
        match require_credentials(credentials) {
            Ok(_) => self.plan(),
            Err(e) => Err(e),
        }
    }

    /// The request that this command sends and the title and addendum of
    /// its output, or the validation error of a malformed amount.
    pub fn plan(&self) -> (r: Result<FundingPlan, BinanceError>)
        ensures
            funding_planned(*self, r),
    {
        match self {
            FundingCommand::Withdraw { coin, amount, address, network } => {
                let c = to_upper(coin.as_str());
                let v = match parse_decimal(amount.as_str()) {
                    Ok(v) => v,
                    Err(e) => {
                        let mut m = joined("Invalid amount '", amount.as_str());
                        m.append("': ");
                        m.append(e.as_str());
                        return Err(BinanceError::Validation(m));
                    },
                };
                let mut a = joined("Withdrawal request of ", amount.as_str());
                a.append(" ");
                a.append(c.as_str());
                a.append(" submitted successfully");
                Ok(
                    FundingPlan {
                        request: FundingRequest::Withdraw {
                            coin: c,
                            address: address.clone(),
                            amount: v,
                            network: network.clone(),
                        },
                        title: String::from_str("Withdrawal Submitted"),
                        addendum: Some(a),
                    },
                )
            },
            FundingCommand::WithdrawHistory { coin } => Ok(
                FundingPlan {
                    request: FundingRequest::WithdrawHistory { coin: upper_optional(coin) },
                    title: String::from_str("Withdrawal History"),
                    addendum: None,
                },
            ),
            FundingCommand::DepositHistory { coin } => Ok(
                FundingPlan {
                    request: FundingRequest::DepositHistory { coin: upper_optional(coin) },
                    title: String::from_str("Deposit History"),
                    addendum: None,
                },
            ),
            FundingCommand::DepositAddress { coin, network } => {
                let c = to_upper(coin.as_str());
                let title = joined("Deposit Address — ", c.as_str());
                Ok(
                    FundingPlan {
                        request: FundingRequest::DepositAddress { coin: c, network: network.clone() },
                        title,
                        addendum: None,
                    },
                )
            },
        }
    }
}

} // verus!
