//! A hashed timelock contract (HTLC): a single-escrow state machine that locks
//! value behind a cryptographic hash lock and a deadline.
//!
//! One swap record exists per contract instance. It is created `Open`, and
//! exactly one of two outcomes can ever happen to it: the beneficiary claims
//! the locked value by revealing the hash lock's preimage before the deadline,
//! or the initiator reclaims it once the deadline has passed. Each transition
//! out of `Open` produces exactly one outbound transfer directive, which the
//! host ledger or the configured token contract executes.
//!
//! The host runtime supplies storage, address validation and the current block
//! time; this crate holds the record as an owned value and takes the time and
//! the caller as plain arguments.

pub mod crypto;
pub mod directive;
pub mod engine;
pub mod errors;
pub mod laws;
pub mod queries;
pub mod state;

pub use crypto::sha256_of;
pub use directive::{Attribute, Response, TransferMsg};
pub use engine::{execute, execute_claim, execute_fund, execute_receive, execute_refund, instantiate};
pub use errors::HtlcError;
pub use queries::{query, query_is_claimable, query_is_refundable, query_swap};
pub use state::{
    Coin, Cw20HookMsg, ExecuteMsg, InstantiateMsg, QueryAnswer, QueryMsg, ReceiveMsg,
    SwapContract, SwapResponse, SwapState,
};
