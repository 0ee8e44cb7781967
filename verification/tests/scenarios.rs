//! Whole-lifecycle scenarios. The host ledger is simulated by a plain map of
//! balances, to which each payout directive the library emits is applied.

use std::collections::HashMap;

use htlc::{Coin, ExecuteMsg, InstantiateMsg, QueryAnswer, QueryMsg, SwapState, TransferMsg};
use sha2::Digest;

const ALICE: &str = "alice";
const BOB: &str = "bob";
const CHARLIE: &str = "charlie";
const INITIAL_BALANCE: u128 = 1_000_000_000; // 1000 tokens

fn coins(amount: u128, denom: &str) -> Vec<Coin> {
    vec![Coin { denom: denom.to_string(), amount }]
}

fn sha256(data: &[u8]) -> Vec<u8> {
    sha2::Sha256::digest(data).to_vec()
}

fn balance(bank: &HashMap<String, u128>, who: &str) -> u128 {
    *bank.get(who).unwrap_or(&0)
}

/// Executes a native payout directive against the simulated bank.
fn apply_payout(bank: &mut HashMap<String, u128>, msg: &TransferMsg) {
    match msg {
        TransferMsg::NativeSend { to_address, denom, amount } => {
            assert_eq!(denom, "uatom");
            let to = balance(bank, to_address);
            bank.insert(to_address.clone(), to + amount);
        }
        TransferMsg::TokenTransfer { .. } => panic!("expected a native send"),
    }
}

/// Moves the attached payment out of the funder's balance into escrow.
fn fund_from(bank: &mut HashMap<String, u128>, who: &str, amount: u128) {
    let have = balance(bank, who);
    assert!(have >= amount);
    bank.insert(who.to_string(), have - amount);
}

#[test]
fn test_full_cross_chain_workflow() {
    let mut bank: HashMap<String, u128> = HashMap::new();
    bank.insert(ALICE.to_string(), INITIAL_BALANCE);
    bank.insert(BOB.to_string(), INITIAL_BALANCE);

    // Step 1: Alice creates an HTLC for Bob
    let preimage = b"super_secret_preimage_for_cross_chain".to_vec();
    let hash_lock = sha256(&preimage);
    let now: u64 = 1_571_797_419;
    let timelock: u64 = now + 3600; // 1 hour from now
    let amount: u128 = 1_000_000; // 1 token

    let alice_msg = InstantiateMsg {
        sender: ALICE.to_string(),
        beneficiary: BOB.to_string(),
        hash_lock: hash_lock.clone(),
        timelock,
        amount,
        token: None, // Native token
    };
    let (mut swap, _) = htlc::instantiate(alice_msg, now).unwrap();
    println!("Alice's HTLC created");

    // Step 2: Alice funds the contract
    let alice = ALICE.to_string();
    htlc::execute(&mut swap, &alice, now, &coins(amount, "uatom"), ExecuteMsg::Fund {}).unwrap();
    fund_from(&mut bank, ALICE, amount);

    // Step 3: Verify HTLC state
    let res = htlc::query_swap(&swap);
    assert_eq!(res.state, SwapState::Open);
    assert_eq!(res.amount, amount);
    assert_eq!(res.beneficiary, BOB);

    // Step 4: Check claimable status
    let is_claimable = match htlc::query(&swap, now, QueryMsg::IsClaimable {}) {
        QueryAnswer::Claimable(b) => b,
        _ => panic!("wrong query answer"),
    };
    assert!(is_claimable);

    // Step 5: Bob claims with the correct preimage
    let bob = BOB.to_string();
    let no_funds: Vec<Coin> = Vec::new();
    let claim_result = htlc::execute(&mut swap, &bob, now, &no_funds, ExecuteMsg::Claim {
        preimage: preimage.clone(),
    });
    assert!(claim_result.is_ok());
    println!("Bob successfully claimed the HTLC");

    // Step 6: Verify final state
    let final_state = htlc::query_swap(&swap);
    assert_eq!(final_state.state, SwapState::Claimed);

    // Step 7: Verify Bob received the tokens
    apply_payout(&mut bank, &claim_result.unwrap().messages[0]);
    assert_eq!(balance(&bank, BOB), INITIAL_BALANCE + amount);

    println!("Cross-chain workflow simulation completed successfully!");
}

#[test]
fn test_timeout_and_refund_scenario() {
    let mut bank: HashMap<String, u128> = HashMap::new();
    bank.insert(ALICE.to_string(), INITIAL_BALANCE);

    let preimage = b"timeout_test_preimage".to_vec();
    let hash_lock = sha256(&preimage);

    // Set a short timelock for testing
    let now: u64 = 1_571_797_419;
    let timelock: u64 = now + 10;
    let amount: u128 = 500_000;

    let msg = InstantiateMsg {
        sender: ALICE.to_string(),
        beneficiary: BOB.to_string(),
        hash_lock,
        timelock,
        amount,
        token: None,
    };
    let (mut swap, _) = htlc::instantiate(msg, now).unwrap();

    // Fund the contract
    let alice = ALICE.to_string();
    htlc::execute(&mut swap, &alice, now, &coins(amount, "uatom"), ExecuteMsg::Fund {}).unwrap();
    fund_from(&mut bank, ALICE, amount);

    // Advance time past the timelock
    let later: u64 = timelock + 100;

    // Try to claim (should fail)
    let bob = BOB.to_string();
    let no_funds: Vec<Coin> = Vec::new();
    let claim_result = htlc::execute(&mut swap, &bob, later, &no_funds, ExecuteMsg::Claim {
        preimage,
    });
    assert!(claim_result.is_err());
    println!("Claim after timeout correctly failed");

    // Refund should work
    let refund_result = htlc::execute(&mut swap, &alice, later, &no_funds, ExecuteMsg::Refund {});
    assert!(refund_result.is_ok());
    println!("Refund after timeout successful");

    // Verify Alice got her tokens back
    apply_payout(&mut bank, &refund_result.unwrap().messages[0]);
    assert_eq!(balance(&bank, ALICE), INITIAL_BALANCE);
}

#[test]
fn test_multiple_concurrent_htlcs() {
    let mut bank: HashMap<String, u128> = HashMap::new();
    bank.insert(ALICE.to_string(), INITIAL_BALANCE);
    bank.insert(BOB.to_string(), INITIAL_BALANCE);
    bank.insert(CHARLIE.to_string(), INITIAL_BALANCE);

    let now: u64 = 1_571_797_419;
    let num_contracts: usize = 5;
    let amount_per_contract: u128 = 100_000;
    let mut contracts = Vec::new();

    // Create several independent HTLC instances
    for i in 0..num_contracts {
        let preimage = format!("preimage_{}", i).into_bytes();
        let hash_lock = sha256(&preimage);
        let timelock: u64 = now + 3600;

        let beneficiary = match i % 3 {
            0 => ALICE.to_string(),
            1 => BOB.to_string(),
            _ => CHARLIE.to_string(),
        };

        let msg = InstantiateMsg {
            sender: ALICE.to_string(),
            beneficiary: beneficiary.clone(),
            hash_lock,
            timelock,
            amount: amount_per_contract,
            token: None,
        };
        let (mut swap, _) = htlc::instantiate(msg, now).unwrap();

        // Fund the contract
        let alice = ALICE.to_string();
        htlc::execute(
            &mut swap,
            &alice,
            now,
            &coins(amount_per_contract, "uatom"),
            ExecuteMsg::Fund {},
        )
        .unwrap();
        fund_from(&mut bank, ALICE, amount_per_contract);

        contracts.push((swap, preimage, beneficiary));
    }

    println!("Created {} concurrent HTLCs", num_contracts);

    // Claim all of them
    let no_funds: Vec<Coin> = Vec::new();
    for (i, (swap, preimage, beneficiary)) in contracts.iter_mut().enumerate() {
        let claim_result = htlc::execute(swap, beneficiary, now, &no_funds, ExecuteMsg::Claim {
            preimage: preimage.clone(),
        });
        assert!(claim_result.is_ok(), "Failed to claim HTLC {}", i);
        apply_payout(&mut bank, &claim_result.unwrap().messages[0]);
    }

    println!("All {} HTLCs claimed successfully", num_contracts);
}

#[test]
fn test_native_token_htlc_comprehensive() {
    let mut bank: HashMap<String, u128> = HashMap::new();
    bank.insert(ALICE.to_string(), INITIAL_BALANCE);

    let preimage = b"native_token_test_preimage".to_vec();
    let hash_lock = sha256(&preimage);
    let now: u64 = 1_571_797_419;
    let timelock: u64 = now + 3600;
    let amount: u128 = 500_000;

    let htlc_msg = InstantiateMsg {
        sender: ALICE.to_string(),
        beneficiary: BOB.to_string(),
        hash_lock,
        timelock,
        amount,
        token: None, // Native tokens
    };
    let (mut swap, _) = htlc::instantiate(htlc_msg, now).unwrap();

    // Fund the contract
    let alice = ALICE.to_string();
    htlc::execute(&mut swap, &alice, now, &coins(amount, "uatom"), ExecuteMsg::Fund {}).unwrap();
    fund_from(&mut bank, ALICE, amount);
    println!("Native token HTLC funded successfully");

    // Verify contract state
    let res = htlc::query_swap(&swap);
    assert_eq!(res.state, SwapState::Open);
    assert_eq!(res.amount, amount);

    // Claim the tokens
    let bob = BOB.to_string();
    let no_funds: Vec<Coin> = Vec::new();
    let claim_result =
        htlc::execute(&mut swap, &bob, now, &no_funds, ExecuteMsg::Claim { preimage }).unwrap();

    // Verify Bob received the tokens
    apply_payout(&mut bank, &claim_result.messages[0]);
    assert_eq!(balance(&bank, BOB), amount);

    println!("Native token HTLC claimed successfully");
}

#[test]
fn test_hash_compatibility_with_evm() {
    // The hash function must match what a digest-compatible contract on
    // another chain would produce for the same preimage.
    let test_preimage = b"cross_chain_compatibility_test";
    let expected_hash = sha2::Sha256::digest(test_preimage);

    let evm_compatible_hash = sha256(test_preimage);

    assert_eq!(expected_hash.as_slice(), evm_compatible_hash.as_slice());
    println!("Hash compatibility with EVM verified");
}

#[test]
fn test_security_edge_cases() {
    let mut bank: HashMap<String, u128> = HashMap::new();
    bank.insert(ALICE.to_string(), INITIAL_BALANCE);
    let now: u64 = 1_571_797_419;
    let no_funds: Vec<Coin> = Vec::new();

    // Case 1: an empty preimage is still a preimage — its digest is a valid,
    // non-empty hash lock, and claiming with it succeeds.
    let empty_preimage: Vec<u8> = b"".to_vec();
    let empty_hash = sha256(&empty_preimage);

    let msg = InstantiateMsg {
        sender: ALICE.to_string(),
        beneficiary: BOB.to_string(),
        hash_lock: empty_hash,
        timelock: now + 3600,
        amount: 100_000,
        token: None,
    };
    let created = htlc::instantiate(msg, now);
    assert!(created.is_ok());
    let (mut swap, _) = created.unwrap();

    let alice = ALICE.to_string();
    htlc::execute(&mut swap, &alice, now, &coins(100_000, "uatom"), ExecuteMsg::Fund {}).unwrap();
    fund_from(&mut bank, ALICE, 100_000);

    let bob = BOB.to_string();
    let claim_result = htlc::execute(&mut swap, &bob, now, &no_funds, ExecuteMsg::Claim {
        preimage: empty_preimage,
    });
    assert!(claim_result.is_ok());

    // Case 2: a wrong preimage must fail, the correct one must succeed.
    let correct_preimage = b"correct_secret".to_vec();
    let wrong_preimage = b"wrong_secret".to_vec();
    let hash_lock = sha256(&correct_preimage);

    let msg2 = InstantiateMsg {
        sender: ALICE.to_string(),
        beneficiary: BOB.to_string(),
        hash_lock,
        timelock: now + 3600,
        amount: 100_000,
        token: None,
    };
    let (mut swap2, _) = htlc::instantiate(msg2, now).unwrap();

    htlc::execute(&mut swap2, &alice, now, &coins(100_000, "uatom"), ExecuteMsg::Fund {}).unwrap();
    fund_from(&mut bank, ALICE, 100_000);

    let wrong_claim_result = htlc::execute(&mut swap2, &bob, now, &no_funds, ExecuteMsg::Claim {
        preimage: wrong_preimage,
    });
    assert!(wrong_claim_result.is_err());

    let correct_claim_result = htlc::execute(&mut swap2, &bob, now, &no_funds, ExecuteMsg::Claim {
        preimage: correct_preimage,
    });
    assert!(correct_claim_result.is_ok());
    println!("Security edge cases tested successfully");
}

#[test]
fn test_gas_optimization() {
    // Every operation is a single pass over plain values; this drives the
    // whole happy path once end to end.
    let mut bank: HashMap<String, u128> = HashMap::new();
    bank.insert(ALICE.to_string(), INITIAL_BALANCE);
    let now: u64 = 1_571_797_419;

    let preimage = b"gas_optimization_test".to_vec();
    let hash_lock = sha256(&preimage);

    let msg = InstantiateMsg {
        sender: ALICE.to_string(),
        beneficiary: BOB.to_string(),
        hash_lock,
        timelock: now + 3600,
        amount: 100_000,
        token: None,
    };
    let (mut swap, _) = htlc::instantiate(msg, now).unwrap();

    let alice = ALICE.to_string();
    let fund_result =
        htlc::execute(&mut swap, &alice, now, &coins(100_000, "uatom"), ExecuteMsg::Fund {});
    assert!(fund_result.is_ok());

    let bob = BOB.to_string();
    let no_funds: Vec<Coin> = Vec::new();
    let claim_result =
        htlc::execute(&mut swap, &bob, now, &no_funds, ExecuteMsg::Claim { preimage });
    assert!(claim_result.is_ok());

    println!("Gas optimization test completed - all operations efficient");
}
