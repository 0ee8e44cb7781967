//! The transition engine and its validation guards.
//!
//! Each operation is guarded by a spec-level predicate saying exactly when it
//! succeeds, paired with a spec-level function giving the exact error
//! otherwise, in the order the guards are checked. The executable transitions
//! are proved against those: success if and only if the guard holds, the
//! record untouched on every error, and exactly one payout directive on the
//! single transition that leaves `Open`.

use vstd::prelude::*;
use crate::crypto::{bytes_eq, sha256, sha256_of};
use crate::directive::{dec_of, decimal_string, is_payout, Attribute, Response, TransferMsg};
use crate::errors::HtlcError;
use crate::state::{Coin, Cw20HookMsg, ExecuteMsg, InstantiateMsg, ReceiveMsg, SwapContract, SwapState};

verus! {

// ---------------------------------------------------------------------------
// Creation
// ---------------------------------------------------------------------------

/// A creation request is valid when the three record invariants hold: a
/// non-empty hash lock, a deadline strictly in the future, a positive amount.
pub open spec fn create_valid(msg: InstantiateMsg, now: u64) -> bool {
    &&& msg.hash_lock@.len() > 0
    &&& msg.timelock > now
    &&& msg.amount > 0
}

/// The error reported for an invalid creation request, first violated
/// invariant first.
pub open spec fn create_error(msg: InstantiateMsg, now: u64) -> HtlcError
    recommends
        !create_valid(msg, now),
{
    if msg.hash_lock@.len() == 0 {
        HtlcError::EmptyHashLock
    } else if msg.timelock <= now {
        HtlcError::TimelockNotFuture
    } else {
        HtlcError::ZeroAmount
    }
}

/// The record exactly reflects the creation inputs.
pub open spec fn reflects_msg(swap: SwapContract, msg: InstantiateMsg) -> bool {
    &&& swap.sender == msg.sender
    &&& swap.beneficiary == msg.beneficiary
    &&& swap.hash_lock == msg.hash_lock
    &&& swap.timelock == msg.timelock
    &&& swap.amount == msg.amount
    &&& swap.token == msg.token
}

/// The attributes announcing a creation.
pub open spec fn instantiate_attrs(a: Seq<Attribute>, msg: InstantiateMsg) -> bool {
    &&& a.len() == 4
    &&& a[0].key@ == "method"@ && a[0].value@ == "instantiate"@
    &&& a[1].key@ == "sender"@ && a[1].value@ == msg.sender@
    &&& a[2].key@ == "beneficiary"@ && a[2].value@ == msg.beneficiary@
    &&& a[3].key@ == "amount"@ && a[3].value@ == dec_of(msg.amount as nat)
}

/// Creates the swap record, `Open`, after validating every record invariant.
/// Produces no transfer directive: value enters the contract through funding,
/// never through creation.
pub fn instantiate(msg: InstantiateMsg, now: u64) -> (r: Result<(SwapContract, Response), HtlcError>)
    ensures
        r is Ok <==> create_valid(msg, now),
        r matches Ok(ok) ==> {
            &&& reflects_msg(ok.0, msg)
            &&& ok.0.state == SwapState::Open
            &&& ok.1.messages@.len() == 0
            &&& instantiate_attrs(ok.1.attributes@, msg)
        },
        r matches Err(e) ==> e == create_error(msg, now),
{
    if msg.hash_lock.len() == 0 {
        return Err(HtlcError::EmptyHashLock);
    }
    if msg.timelock <= now {
        return Err(HtlcError::TimelockNotFuture);
    }
    if msg.amount == 0 {
        return Err(HtlcError::ZeroAmount);
    }
    let mut attributes: Vec<Attribute> = Vec::new();
    attributes.push(Attribute { key: "method".to_owned(), value: "instantiate".to_owned() });
    attributes.push(Attribute { key: "sender".to_owned(), value: msg.sender.clone() });
    attributes.push(Attribute { key: "beneficiary".to_owned(), value: msg.beneficiary.clone() });
    attributes.push(Attribute { key: "amount".to_owned(), value: decimal_string(msg.amount) });
    let swap = SwapContract {
        sender: msg.sender,
        beneficiary: msg.beneficiary,
        hash_lock: msg.hash_lock,
        timelock: msg.timelock,
        amount: msg.amount,
        token: msg.token,
        state: SwapState::Open,
    };
    Ok((swap, Response { messages: Vec::new(), attributes }))
}

// ---------------------------------------------------------------------------
// Funding (native path)
// ---------------------------------------------------------------------------

/// The native denominations the contract accepts as payment.
pub open spec fn accepted_denom(d: Seq<char>) -> bool {
    d == "uatom"@ || d == "stake"@
}

/// The first attached coin of an accepted denomination, scanning from `i`.
pub open spec fn find_payment_from(funds: Seq<Coin>, i: int) -> Option<Coin>
    decreases funds.len() - i,
{
    if i < 0 || i >= funds.len() {
        Option::None
    } else if accepted_denom(funds[i].denom@) {
        Option::Some(funds[i])
    } else {
        find_payment_from(funds, i + 1)
    }
}

/// The first attached coin of an accepted denomination, if any.
pub open spec fn find_payment(funds: Seq<Coin>) -> Option<Coin> {
    find_payment_from(funds, 0)
}

/// The attached value pays for the swap: a coin of an accepted denomination
/// is present, and the first such coin carries exactly the locked amount.
pub open spec fn payment_ok(funds: Seq<Coin>, amount: u128) -> bool {
    find_payment(funds) matches Option::Some(c) && c.amount == amount
}

/// Funding succeeds when the swap is open, the caller is the initiator, and —
/// on the native path only — the attached payment is correct. On the token
/// path the deposit arrives through the token contract's notification
/// instead, so no attached value is required.
pub open spec fn fund_allowed(swap: SwapContract, caller: Seq<char>, funds: Seq<Coin>) -> bool {
    &&& swap.state == SwapState::Open
    &&& caller == swap.sender@
    &&& (swap.token is Some || payment_ok(funds, swap.amount))
}

/// The error reported for a refused funding call, first failed guard first.
pub open spec fn fund_error(swap: SwapContract, caller: Seq<char>, funds: Seq<Coin>) -> HtlcError
    recommends
        !fund_allowed(swap, caller, funds),
{
    if swap.state != SwapState::Open {
        HtlcError::SwapNotOpen
    } else if caller != swap.sender@ {
        HtlcError::Unauthorized
    } else if find_payment(funds) is None {
        HtlcError::NoPayment
    } else {
        HtlcError::IncorrectPayment
    }
}

/// The attributes announcing a successful funding.
pub open spec fn fund_attrs(a: Seq<Attribute>, caller: Seq<char>, amount: u128) -> bool {
    &&& a.len() == 3
    &&& a[0].key@ == "method"@ && a[0].value@ == "fund"@
    &&& a[1].key@ == "sender"@ && a[1].value@ == caller
    &&& a[2].key@ == "amount"@ && a[2].value@ == dec_of(amount as nat)
}

/// Everything a funding call promises, given the record and the call's inputs.
pub open spec fn fund_post(
    swap: SwapContract,
    caller: Seq<char>,
    funds: Seq<Coin>,
    r: Result<Response, HtlcError>,
) -> bool {
    &&& (r is Ok <==> fund_allowed(swap, caller, funds))
    &&& (r matches Ok(resp) ==> resp.messages@.len() == 0 && fund_attrs(
        resp.attributes@,
        caller,
        swap.amount,
    ))
    &&& (r matches Err(e) ==> e == fund_error(swap, caller, funds))
}

/// True exactly when `d` is an accepted native denomination.
fn denom_accepted(d: &String) -> (r: bool)
    ensures
        r == accepted_denom(d@),
{
    let uatom: String = "uatom".to_owned();
    let stake: String = "stake".to_owned();
    *d == uatom || *d == stake
}

/// The index of the first attached coin of an accepted denomination.
fn first_accepted(funds: &Vec<Coin>) -> (r: Option<usize>)
    ensures
        r matches Some(i) ==> i < funds@.len() && find_payment(funds@) == Option::Some(
            funds@[i as int],
        ),
        r is None ==> find_payment(funds@) is None,
{
    let mut i: usize = 0;
    while i < funds.len()
        invariant
            i <= funds@.len(),
            find_payment(funds@) == find_payment_from(funds@, i as int),
        decreases funds@.len() - i,
    {
        if denom_accepted(&funds[i].denom) {
            return Some(i);
        }
        i += 1;
    }
    None
}

/// Acknowledges the initiator's native deposit. Observes the attached value
/// only; the record itself is not changed — `Open` covers both "awaiting
/// deposit" and "deposited, awaiting claim or refund".
pub fn execute_fund(swap: &SwapContract, caller: &String, funds: &Vec<Coin>) -> (r: Result<
    Response,
    HtlcError,
>)
    ensures
        fund_post(*swap, caller@, funds@, r),
{
    if swap.state != SwapState::Open {
        return Err(HtlcError::SwapNotOpen);
    }
    if *caller != swap.sender {
        return Err(HtlcError::Unauthorized);
    }
    if swap.token.is_none() {
        match first_accepted(funds) {
            Option::None => {
                return Err(HtlcError::NoPayment);
            },
            Option::Some(i) => {
                if funds[i].amount != swap.amount {
                    return Err(HtlcError::IncorrectPayment);
                }
            },
        }
    }
    let mut attributes: Vec<Attribute> = Vec::new();
    attributes.push(Attribute { key: "method".to_owned(), value: "fund".to_owned() });
    attributes.push(Attribute { key: "sender".to_owned(), value: caller.clone() });
    attributes.push(Attribute { key: "amount".to_owned(), value: decimal_string(swap.amount) });
    Ok(Response { messages: Vec::new(), attributes })
}

// ---------------------------------------------------------------------------
// Claim
// ---------------------------------------------------------------------------

/// The fields a transition never touches: everything but `state`.
pub open spec fn same_core(a: SwapContract, b: SwapContract) -> bool {
    &&& a.sender == b.sender
    &&& a.beneficiary == b.beneficiary
    &&& a.hash_lock == b.hash_lock
    &&& a.timelock == b.timelock
    &&& a.amount == b.amount
    &&& a.token == b.token
}

/// A claim succeeds exactly when the swap is open, the caller is the
/// beneficiary, the deadline has not been reached, and the preimage's digest
/// equals the hash lock.
pub open spec fn claim_allowed(
    swap: SwapContract,
    caller: Seq<char>,
    now: u64,
    digest: Seq<u8>,
) -> bool {
    &&& swap.state == SwapState::Open
    &&& caller == swap.beneficiary@
    &&& now < swap.timelock
    &&& digest == swap.hash_lock@
}

/// The error reported for a refused claim, first failed guard first.
pub open spec fn claim_error(
    swap: SwapContract,
    caller: Seq<char>,
    now: u64,
    digest: Seq<u8>,
) -> HtlcError
    recommends
        !claim_allowed(swap, caller, now, digest),
{
    if swap.state != SwapState::Open {
        HtlcError::SwapNotOpen
    } else if caller != swap.beneficiary@ {
        HtlcError::Unauthorized
    } else if now >= swap.timelock {
        HtlcError::TimelockExpired
    } else {
        HtlcError::InvalidPreimage
    }
}

/// The attributes announcing a successful claim.
pub open spec fn claim_attrs(a: Seq<Attribute>, beneficiary: Seq<char>, amount: u128) -> bool {
    &&& a.len() == 3
    &&& a[0].key@ == "method"@ && a[0].value@ == "claim"@
    &&& a[1].key@ == "beneficiary"@ && a[1].value@ == beneficiary
    &&& a[2].key@ == "amount"@ && a[2].value@ == dec_of(amount as nat)
}

/// Everything a claim promises: success exactly on `claim_allowed`; on
/// success the record moves to `Claimed` with every other field kept and the
/// response carries exactly one payout directive to the beneficiary; on error
/// the record is untouched and the error is pinned by `claim_error`.
pub open spec fn claim_post(
    pre: SwapContract,
    post: SwapContract,
    caller: Seq<char>,
    now: u64,
    digest: Seq<u8>,
    r: Result<Response, HtlcError>,
) -> bool {
    &&& (r is Ok <==> claim_allowed(pre, caller, now, digest))
    &&& (r matches Ok(resp) ==> {
        &&& post.state == SwapState::Claimed
        &&& same_core(pre, post)
        &&& resp.messages@.len() == 1
        &&& is_payout(resp.messages@[0], pre, pre.beneficiary@)
        &&& claim_attrs(resp.attributes@, pre.beneficiary@, pre.amount)
    })
    &&& (r matches Err(e) ==> post == pre && e == claim_error(pre, caller, now, digest))
}

/// The claim transition, taking the already-computed digest of the supplied
/// preimage. Everything after the digest is plain verified logic, so this is
/// where a claim's outcome is decided for each digest value.
pub fn claim_with_digest(swap: &mut SwapContract, caller: &String, now: u64, digest: &Vec<u8>) -> (r:
    Result<Response, HtlcError>)
    ensures
        claim_post(*old(swap), *final(swap), caller@, now, digest@, r),
{
    if swap.state != SwapState::Open {
        return Err(HtlcError::SwapNotOpen);
    }
    if *caller != swap.beneficiary {
        return Err(HtlcError::Unauthorized);
    }
    if now >= swap.timelock {
        return Err(HtlcError::TimelockExpired);
    }
    if !bytes_eq(digest, &swap.hash_lock) {
        return Err(HtlcError::InvalidPreimage);
    }
    swap.state = SwapState::Claimed;
    let payout = crate::directive::build_payout(swap, &swap.beneficiary);
    let mut messages: Vec<TransferMsg> = Vec::new();
    messages.push(payout);
    let mut attributes: Vec<Attribute> = Vec::new();
    attributes.push(Attribute { key: "method".to_owned(), value: "claim".to_owned() });
    attributes.push(Attribute { key: "beneficiary".to_owned(), value: swap.beneficiary.clone() });
    attributes.push(Attribute { key: "amount".to_owned(), value: decimal_string(swap.amount) });
    Ok(Response { messages, attributes })
}

/// Claims the locked value by revealing the hash lock's preimage. The digest
/// comes from the hash-lock verifier; the decision is `claim_with_digest`.
pub fn execute_claim(swap: &mut SwapContract, caller: &String, now: u64, preimage: &Vec<u8>) -> (r:
    Result<Response, HtlcError>)
    ensures
        claim_post(*old(swap), *final(swap), caller@, now, sha256_of(preimage@), r),
{
    let digest = sha256(preimage);
    claim_with_digest(swap, caller, now, &digest)
}

// ---------------------------------------------------------------------------
// Refund
// ---------------------------------------------------------------------------

/// A refund succeeds exactly when the swap is open, the caller is the
/// initiator, and the deadline has been reached.
pub open spec fn refund_allowed(swap: SwapContract, caller: Seq<char>, now: u64) -> bool {
    &&& swap.state == SwapState::Open
    &&& caller == swap.sender@
    &&& now >= swap.timelock
}

/// The error reported for a refused refund, first failed guard first.
pub open spec fn refund_error(swap: SwapContract, caller: Seq<char>, now: u64) -> HtlcError
    recommends
        !refund_allowed(swap, caller, now),
{
    if swap.state != SwapState::Open {
        HtlcError::SwapNotOpen
    } else if caller != swap.sender@ {
        HtlcError::Unauthorized
    } else {
        HtlcError::TimelockNotExpired
    }
}

/// The attributes announcing a successful refund.
pub open spec fn refund_attrs(a: Seq<Attribute>, sender: Seq<char>, amount: u128) -> bool {
    &&& a.len() == 3
    &&& a[0].key@ == "method"@ && a[0].value@ == "refund"@
    &&& a[1].key@ == "sender"@ && a[1].value@ == sender
    &&& a[2].key@ == "amount"@ && a[2].value@ == dec_of(amount as nat)
}

/// Everything a refund promises, symmetric to `claim_post` with the payout
/// directed back to the initiator.
pub open spec fn refund_post(
    pre: SwapContract,
    post: SwapContract,
    caller: Seq<char>,
    now: u64,
    r: Result<Response, HtlcError>,
) -> bool {
    &&& (r is Ok <==> refund_allowed(pre, caller, now))
    &&& (r matches Ok(resp) ==> {
        &&& post.state == SwapState::Refunded
        &&& same_core(pre, post)
        &&& resp.messages@.len() == 1
        &&& is_payout(resp.messages@[0], pre, pre.sender@)
        &&& refund_attrs(resp.attributes@, pre.sender@, pre.amount)
    })
    &&& (r matches Err(e) ==> post == pre && e == refund_error(pre, caller, now))
}

/// Returns the locked value to the initiator once the deadline has passed.
pub fn execute_refund(swap: &mut SwapContract, caller: &String, now: u64) -> (r: Result<
    Response,
    HtlcError,
>)
    ensures
        refund_post(*old(swap), *final(swap), caller@, now, r),
{
    if swap.state != SwapState::Open {
        return Err(HtlcError::SwapNotOpen);
    }
    if *caller != swap.sender {
        return Err(HtlcError::Unauthorized);
    }
    if now < swap.timelock {
        return Err(HtlcError::TimelockNotExpired);
    }
    swap.state = SwapState::Refunded;
    let payout = crate::directive::build_payout(swap, &swap.sender);
    let mut messages: Vec<TransferMsg> = Vec::new();
    messages.push(payout);
    let mut attributes: Vec<Attribute> = Vec::new();
    attributes.push(Attribute { key: "method".to_owned(), value: "refund".to_owned() });
    attributes.push(Attribute { key: "sender".to_owned(), value: swap.sender.clone() });
    attributes.push(Attribute { key: "amount".to_owned(), value: decimal_string(swap.amount) });
    Ok(Response { messages, attributes })
}

// ---------------------------------------------------------------------------
// Funding (token path)
// ---------------------------------------------------------------------------

/// A token-funding notification is in order when it comes from the swap's
/// configured token contract and carries exactly the locked amount.
pub open spec fn receive_ok(swap: SwapContract, notifier: Seq<char>, amount: u128) -> bool {
    &&& swap.token matches Option::Some(t) && t@ == notifier
    &&& amount == swap.amount
}

/// The error reported for a refused notification: wrong contract first.
pub open spec fn receive_error(swap: SwapContract, notifier: Seq<char>, amount: u128) -> HtlcError
    recommends
        !receive_ok(swap, notifier, amount),
{
    if !(swap.token matches Option::Some(t) && t@ == notifier) {
        HtlcError::WrongTokenContract
    } else {
        HtlcError::IncorrectTokenAmount
    }
}

/// The attributes announcing an accepted token deposit.
pub open spec fn receive_attrs(a: Seq<Attribute>, notifier: Seq<char>, amount: u128) -> bool {
    &&& a.len() == 3
    &&& a[0].key@ == "method"@ && a[0].value@ == "receive_fund"@
    &&& a[1].key@ == "token"@ && a[1].value@ == notifier
    &&& a[2].key@ == "amount"@ && a[2].value@ == dec_of(amount as nat)
}

/// Everything a token-funding notification promises.
pub open spec fn receive_post(
    swap: SwapContract,
    notifier: Seq<char>,
    rcv: ReceiveMsg,
    r: Result<Response, HtlcError>,
) -> bool {
    &&& (r is Ok <==> receive_ok(swap, notifier, rcv.amount))
    &&& (r matches Ok(resp) ==> resp.messages@.len() == 0 && receive_attrs(
        resp.attributes@,
        notifier,
        rcv.amount,
    ))
    &&& (r matches Err(e) ==> e == receive_error(swap, notifier, rcv.amount))
}

/// Acknowledges the token contract's notification that it moved `rcv.amount`
/// tokens into this contract's custody. `notifier` is the calling contract;
/// it must be the swap's configured token. Does not alter the record.
pub fn execute_receive(swap: &SwapContract, notifier: &String, rcv: ReceiveMsg) -> (r: Result<
    Response,
    HtlcError,
>)
    ensures
        receive_post(*swap, notifier@, rcv, r),
{
    match rcv.msg {
        Cw20HookMsg::Fund { beneficiary: _, hash_lock: _, timelock: _ } => {
            let token_ok = match &swap.token {
                Option::Some(t) => *t == *notifier,
                Option::None => false,
            };
            if !token_ok {
                return Err(HtlcError::WrongTokenContract);
            }
            if rcv.amount != swap.amount {
                return Err(HtlcError::IncorrectTokenAmount);
            }
            let mut attributes: Vec<Attribute> = Vec::new();
            attributes.push(Attribute { key: "method".to_owned(), value: "receive_fund".to_owned() });
            attributes.push(Attribute { key: "token".to_owned(), value: notifier.clone() });
            attributes.push(Attribute { key: "amount".to_owned(), value: decimal_string(rcv.amount) });
            Ok(Response { messages: Vec::new(), attributes })
        },
    }
}

// ---------------------------------------------------------------------------
// Dispatch
// ---------------------------------------------------------------------------

/// Everything `execute` promises, by operation variant.
pub open spec fn execute_post(
    pre: SwapContract,
    post: SwapContract,
    caller: Seq<char>,
    now: u64,
    funds: Seq<Coin>,
    msg: ExecuteMsg,
    r: Result<Response, HtlcError>,
) -> bool {
    match msg {
        ExecuteMsg::Fund {} => post == pre && fund_post(pre, caller, funds, r),
        ExecuteMsg::Claim { preimage } => claim_post(pre, post, caller, now, sha256_of(preimage@), r),
        ExecuteMsg::Refund {} => refund_post(pre, post, caller, now, r),
        ExecuteMsg::Receive(rcv) => post == pre && receive_post(pre, caller, rcv, r),
    }
}

/// Routes an operation to its transition. For a token-transfer notification
/// the caller is the notifying token contract itself.
pub fn execute(
    swap: &mut SwapContract,
    caller: &String,
    now: u64,
    funds: &Vec<Coin>,
    msg: ExecuteMsg,
) -> (r: Result<Response, HtlcError>)
    ensures
        execute_post(*old(swap), *final(swap), caller@, now, funds@, msg, r),
{
    match msg {
        ExecuteMsg::Fund {} => execute_fund(swap, caller, funds),
        ExecuteMsg::Claim { preimage } => execute_claim(swap, caller, now, &preimage),
        ExecuteMsg::Refund {} => execute_refund(swap, caller, now),
        ExecuteMsg::Receive(rcv) => execute_receive(swap, caller, rcv),
    }
}

} // verus!
