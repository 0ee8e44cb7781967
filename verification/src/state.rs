//! The swap record and the messages that drive it.

use vstd::prelude::*;

verus! {

/// The lifecycle of the single swap a contract instance holds.
///
/// `Open` is the only state from which a transition is possible; `Claimed`
/// and `Refunded` are terminal.
#[derive(Clone, Copy, Debug, PartialEq, Eq, Structural)]
pub enum SwapState {
    Open,
    Claimed,
    Refunded,
}

/// Parameters for creating a swap.
#[derive(Clone, Debug, PartialEq)]
pub struct InstantiateMsg {
    /// The party depositing the locked value.
    pub sender: String,
    /// The party authorized to claim it with the preimage.
    pub beneficiary: String,
    /// Digest that a claim's preimage must hash to.
    pub hash_lock: Vec<u8>,
    /// Absolute deadline in seconds: claims must come strictly before it,
    /// refunds at or after it.
    pub timelock: u64,
    /// Quantity of value locked; must be positive.
    pub amount: u128,
    /// `None` locks the native coin; `Some` names the token contract whose
    /// balance is locked.
    pub token: Option<String>,
}

/// The single swap record: created once, mutated in place by at most one
/// transition, never deleted.
#[derive(Clone, Debug, PartialEq)]
pub struct SwapContract {
    pub sender: String,
    pub beneficiary: String,
    pub hash_lock: Vec<u8>,
    pub timelock: u64,
    pub amount: u128,
    pub token: Option<String>,
    pub state: SwapState,
}

/// A coin attached to a call: denomination and quantity.
#[derive(Clone, Debug, PartialEq)]
pub struct Coin {
    pub denom: String,
    pub amount: u128,
}

/// The application message carried inside a token-transfer notification.
#[derive(Clone, Debug, PartialEq)]
pub enum Cw20HookMsg {
    Fund { beneficiary: String, hash_lock: Vec<u8>, timelock: u64 },
}

/// A notification from the token contract that it moved tokens into this
/// contract's custody on behalf of `sender`.
#[derive(Clone, Debug, PartialEq)]
pub struct ReceiveMsg {
    pub sender: String,
    pub amount: u128,
    pub msg: Cw20HookMsg,
}

/// The operations a caller can invoke on an existing swap.
#[derive(Clone, Debug, PartialEq)]
pub enum ExecuteMsg {
    Fund {},
    Claim { preimage: Vec<u8> },
    Refund {},
    Receive(ReceiveMsg),
}

/// The read-only views a caller can ask for.
#[derive(Clone, Copy, Debug, PartialEq, Eq, Structural)]
pub enum QueryMsg {
    GetSwap {},
    IsClaimable {},
    IsRefundable {},
}

/// Full projection of the swap record, as handed to off-chain observers.
#[derive(Clone, Debug, PartialEq)]
pub struct SwapResponse {
    pub sender: String,
    pub beneficiary: String,
    pub hash_lock: Vec<u8>,
    pub timelock: u64,
    pub amount: u128,
    pub token: Option<String>,
    pub state: SwapState,
}

/// The answer to a query, one variant per [`QueryMsg`] variant.
#[derive(Clone, Debug, PartialEq)]
pub enum QueryAnswer {
    Swap(SwapResponse),
    Claimable(bool),
    Refundable(bool),
}

} // verus!
