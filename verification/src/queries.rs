//! The query projector: read-only views of the swap record.

use vstd::prelude::*;
use crate::state::{QueryAnswer, QueryMsg, SwapContract, SwapResponse, SwapState};

verus! {

/// The swap can still be claimed: it is open and the deadline lies ahead.
pub open spec fn claimable(swap: SwapContract, now: u64) -> bool {
    swap.state == SwapState::Open && now < swap.timelock
}

/// The swap can be refunded: it is open and the deadline has been reached.
pub open spec fn refundable(swap: SwapContract, now: u64) -> bool {
    swap.state == SwapState::Open && now >= swap.timelock
}

/// The projection mirrors the record field by field.
pub open spec fn response_matches(resp: SwapResponse, swap: SwapContract) -> bool {
    &&& resp.sender == swap.sender
    &&& resp.beneficiary == swap.beneficiary
    &&& resp.hash_lock@ == swap.hash_lock@
    &&& resp.timelock == swap.timelock
    &&& resp.amount == swap.amount
    &&& resp.token == swap.token
    &&& resp.state == swap.state
}

/// Copy of a byte vector, element by element.
fn dup_bytes(src: &Vec<u8>) -> (r: Vec<u8>)
    ensures
        r@ == src@,
{
    let mut r: Vec<u8> = Vec::new();
    let mut i: usize = 0;
    while i < src.len()
        invariant
            i <= src@.len(),
            r@.len() == i,
            forall|j: int| 0 <= j < i ==> r@[j] == src@[j],
        decreases src@.len() - i,
    {
        r.push(src[i]);
        i += 1;
    }
    proof {
        assert(r@ =~= src@);
    }
    r
}

/// The full record projection handed to off-chain observers.
pub fn query_swap(swap: &SwapContract) -> (resp: SwapResponse)
    ensures
        response_matches(resp, *swap),
{
    let token = match &swap.token {
        Option::Some(t) => Option::Some(t.clone()),
        Option::None => Option::None,
    };
    SwapResponse {
        sender: swap.sender.clone(),
        beneficiary: swap.beneficiary.clone(),
        hash_lock: dup_bytes(&swap.hash_lock),
        timelock: swap.timelock,
        amount: swap.amount,
        token,
        state: swap.state,
    }
}

/// Whether a claim's state and timing guards currently hold.
pub fn query_is_claimable(swap: &SwapContract, now: u64) -> (r: bool)
    ensures
        r == claimable(*swap, now),
{
    swap.state == SwapState::Open && now < swap.timelock
}

/// Whether a refund's state and timing guards currently hold.
pub fn query_is_refundable(swap: &SwapContract, now: u64) -> (r: bool)
    ensures
        r == refundable(*swap, now),
{
    swap.state == SwapState::Open && now >= swap.timelock
}

/// Routes a query to its view. Queries never fail and have no side effects.
pub fn query(swap: &SwapContract, now: u64, msg: QueryMsg) -> (r: QueryAnswer)
    ensures
        match msg {
            QueryMsg::GetSwap {} => r matches QueryAnswer::Swap(resp) && response_matches(
                resp,
                *swap,
            ),
            QueryMsg::IsClaimable {} => r == QueryAnswer::Claimable(claimable(*swap, now)),
            QueryMsg::IsRefundable {} => r == QueryAnswer::Refundable(refundable(*swap, now)),
        },
{
    match msg {
        QueryMsg::GetSwap {} => QueryAnswer::Swap(query_swap(swap)),
        QueryMsg::IsClaimable {} => QueryAnswer::Claimable(query_is_claimable(swap, now)),
        QueryMsg::IsRefundable {} => QueryAnswer::Refundable(query_is_refundable(swap, now)),
    }
}

} // verus!
