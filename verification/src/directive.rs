//! The transfer-directive builder: the outbound value-movement instruction a
//! transition hands to the host, and the response wrapper around it.

use vstd::prelude::*;
use vstd::string::StringExecFns;
use crate::state::SwapContract;

verus! {

/// An instruction to move value, handed to the host for execution. The host
/// ledger (native path) or the configured token contract (token path) carries
/// it out with its own success or failure semantics.
#[derive(Clone, Debug, PartialEq)]
pub enum TransferMsg {
    /// A bank transfer of the native coin.
    NativeSend { to_address: String, denom: String, amount: u128 },
    /// A call instructing the token contract to transfer from this contract's
    /// custody.
    TokenTransfer { contract_addr: String, recipient: String, amount: u128 },
}

/// A key-value pair attached to a response for off-chain observers.
#[derive(Clone, Debug, PartialEq)]
pub struct Attribute {
    pub key: String,
    pub value: String,
}

/// What a successful operation hands back to the host: zero or one transfer
/// directives, and attributes describing what happened.
#[derive(Clone, Debug, PartialEq)]
pub struct Response {
    pub messages: Vec<TransferMsg>,
    pub attributes: Vec<Attribute>,
}

/// The denomination used for native transfers out of the contract.
pub open spec fn native_denom() -> Seq<char> {
    "uatom"@
}

/// Holds when `m` moves the swap's locked value — `swap.amount` of its
/// configured asset — to `recipient`.
pub open spec fn is_payout(m: TransferMsg, swap: SwapContract, recipient: Seq<char>) -> bool {
    match swap.token {
        Option::None => {
            &&& m matches TransferMsg::NativeSend { to_address, denom, amount }
            &&& to_address@ == recipient
            &&& denom@ == native_denom()
            &&& amount == swap.amount
        },
        Option::Some(t) => {
            &&& m matches TransferMsg::TokenTransfer { contract_addr, recipient: to, amount }
            &&& contract_addr@ == t@
            &&& to@ == recipient
            &&& amount == swap.amount
        },
    }
}

/// Builds the single payout directive for `swap`, targeting `recipient`:
/// a native bank send or a token-contract transfer, chosen by the asset kind.
pub fn build_payout(swap: &SwapContract, recipient: &String) -> (m: TransferMsg)
    ensures
        is_payout(m, *swap, recipient@),
{
    match &swap.token {
        Option::None => TransferMsg::NativeSend {
            to_address: recipient.clone(),
            denom: "uatom".to_owned(),
            amount: swap.amount,
        },
        Option::Some(t) => TransferMsg::TokenTransfer {
            contract_addr: t.clone(),
            recipient: recipient.clone(),
            amount: swap.amount,
        },
    }
}

/// The ASCII digit for `d`.
pub open spec fn digit_char(d: nat) -> char {
    if d == 0 {
        '0'
    } else if d == 1 {
        '1'
    } else if d == 2 {
        '2'
    } else if d == 3 {
        '3'
    } else if d == 4 {
        '4'
    } else if d == 5 {
        '5'
    } else if d == 6 {
        '6'
    } else if d == 7 {
        '7'
    } else if d == 8 {
        '8'
    } else {
        '9'
    }
}

/// The decimal representation of `n`, most significant digit first, with no
/// leading zeroes (a single `'0'` for zero).
pub open spec fn dec_of(n: nat) -> Seq<char>
    decreases n,
{
    if n < 10 {
        seq![digit_char(n)]
    } else {
        dec_of(n / 10).push(digit_char(n % 10))
    }
}

/// The one-character string for a single decimal digit.
fn digit_str(d: u128) -> (r: &'static str)
    requires
        d < 10,
    ensures
        r@ == seq![digit_char(d as nat)],
{
    proof {
        reveal_strlit("0");
        reveal_strlit("1");
        reveal_strlit("2");
        reveal_strlit("3");
        reveal_strlit("4");
        reveal_strlit("5");
        reveal_strlit("6");
        reveal_strlit("7");
        reveal_strlit("8");
        reveal_strlit("9");
    }
    let r = match d {
        0 => "0",
        1 => "1",
        2 => "2",
        3 => "3",
        4 => "4",
        5 => "5",
        6 => "6",
        7 => "7",
        8 => "8",
        _ => "9",
    };
    proof {
        assert(r@ =~= seq![digit_char(d as nat)]);
    }
    r
}

/// Renders an amount as its decimal string.
pub fn decimal_string(n: u128) -> (r: String)
    ensures
        r@ == dec_of(n as nat),
    decreases n,
{
    if n < 10 {
        digit_str(n).to_owned()
    } else {
        proof {
            assert(n / 10 < n) by (nonlinear_arith)
                requires
                    n >= 10,
            ;
        }
        let s = decimal_string(n / 10);
        let r = s.concat(digit_str(n % 10));
        proof {
            assert(r@ =~= dec_of(n as nat));
        }
        r
    }
}

} // verus!
