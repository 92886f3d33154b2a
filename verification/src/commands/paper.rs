//! Paper trading: simulated balances.
use vstd::prelude::*;

verus! {

#[derive(Debug)]
pub enum PaperCommand {
    /// Show paper trading balances
    Balance,
}

/// One simulated balance.
#[derive(Debug)]
pub struct PaperBalance {
    pub asset: String,
    pub free: String,
    pub locked: String,
}

pub open spec fn balance_is(b: PaperBalance, asset: Seq<char>, free: Seq<char>) -> bool {
    b.asset@ == asset && b.free@ == free && b.locked@ == "0.0"@
}

fn balance(asset: &str, free: &str) -> (b: PaperBalance)
    ensures
        balance_is(b, asset@, free@),
{
    PaperBalance {
        asset: String::from_str(asset),
        free: String::from_str(free),
        locked: String::from_str("0.0"),
    }
}

impl PaperCommand {
    /// The simulated balances: 10000 USDT, 1 BTC and 10 BNB, none locked.
    pub fn balances(&self) -> (r: Vec<PaperBalance>)
        ensures
            r@.len() == 3,
            balance_is(r@[0], "USDT"@, "10000.0"@),
            balance_is(r@[1], "BTC"@, "1.0"@),
            balance_is(r@[2], "BNB"@, "10.0"@),
    {
        let mut r: Vec<PaperBalance> = Vec::new();
        r.push(balance("USDT", "10000.0"));
        r.push(balance("BTC", "1.0"));
        r.push(balance("BNB", "10.0"));
        r
    }

    /// The title of the balances output.
    pub fn title(&self) -> (r: String)
        ensures
            r@ == "Paper Balances"@,
    {
        String::from_str("Paper Balances")
    }

    /// The note shown with the balances.
    pub fn addendum(&self) -> (r: String)
        ensures
            r@ == "Paper trading is currently a simulated stub."@,
    {
        String::from_str("Paper trading is currently a simulated stub.")
    }
}

} // verus!
