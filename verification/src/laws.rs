//! The library's laws: properties that relate several operations, stated
//! over the guard predicates the transitions are specified with and proved
//! once for all inputs.

use vstd::prelude::*;
use crate::crypto::sha256_of;
use crate::engine::{
    claim_allowed, claim_error, fund_allowed, fund_error, refund_allowed, refund_error,
};
use crate::errors::HtlcError;
use crate::state::{Coin, SwapContract, SwapState};

verus! {

/// Terminal states are final: once the swap is `Claimed` or `Refunded`, no
/// funding, claim or refund can succeed any more — whoever calls, at whatever
/// time, with whatever funds or digest — and every such attempt reports the
/// state error. With the transitions' own contracts (the record is untouched
/// on every error) the record therefore never changes again.
pub proof fn lemma_terminal_is_final(
    swap: SwapContract,
    caller: Seq<char>,
    now: u64,
    digest: Seq<u8>,
    funds: Seq<Coin>,
)
    requires
        swap.state == SwapState::Claimed || swap.state == SwapState::Refunded,
    ensures
        !fund_allowed(swap, caller, funds),
        !claim_allowed(swap, caller, now, digest),
        !refund_allowed(swap, caller, now),
        fund_error(swap, caller, funds) == HtlcError::SwapNotOpen,
        claim_error(swap, caller, now, digest) == HtlcError::SwapNotOpen,
        refund_error(swap, caller, now) == HtlcError::SwapNotOpen,
{
}

/// One of two outcomes: at no single moment can a claim and a refund both be
/// allowed, whoever the two callers are — before the deadline only a claim
/// can pass the timing guard, from the deadline on only a refund. Since each
/// success leaves the `Open` state, at most one of the two ever happens over
/// the record's whole lifetime.
pub proof fn lemma_one_outcome(
    swap: SwapContract,
    claimer: Seq<char>,
    refunder: Seq<char>,
    now: u64,
    digest: Seq<u8>,
)
    ensures
        !(claim_allowed(swap, claimer, now, digest) && refund_allowed(swap, refunder, now)),
{
}

/// Hash round trip: an open swap whose hash lock is the digest of a preimage
/// `p` can be claimed by its beneficiary with `p` at any time before the
/// deadline; and a claim whose preimage's digest differs from the hash lock
/// is refused as a preimage error — nothing else ever stands in its way.
pub proof fn lemma_hash_roundtrip(swap: SwapContract, p: Seq<u8>, now: u64)
    requires
        swap.state == SwapState::Open,
        swap.hash_lock@ == sha256_of(p),
        now < swap.timelock,
    ensures
        claim_allowed(swap, swap.beneficiary@, now, sha256_of(p)),
        forall|q: Seq<u8>| #![trigger sha256_of(q)]
            sha256_of(q) != swap.hash_lock@ ==> !claim_allowed(
                swap,
                swap.beneficiary@,
                now,
                sha256_of(q),
            ) && claim_error(swap, swap.beneficiary@, now, sha256_of(q))
                == HtlcError::InvalidPreimage,
{
}

} // verus!
