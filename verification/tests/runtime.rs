use state_machine::balances;
use state_machine::proof_of_existence;
use state_machine::runtime::{Runtime, RuntimeCall};
use state_machine::support::{Block, BlockError, Extrinsic, Header};

fn transfer(caller: &str, to: &str, amount: u128) -> Extrinsic {
    Extrinsic {
        caller: caller.to_string(),
        call: RuntimeCall::Balances(balances::Call::Transfer {
            to: to.to_string(),
            amount,
        }),
    }
}

fn create_claim(caller: &str, claim: &str) -> Extrinsic {
    Extrinsic {
        caller: caller.to_string(),
        call: RuntimeCall::ProofOfExistence(proof_of_existence::Call::CreateClaim {
            claim: claim.to_string(),
        }),
    }
}

fn revoke_claim(caller: &str, claim: &str) -> Extrinsic {
    Extrinsic {
        caller: caller.to_string(),
        call: RuntimeCall::ProofOfExistence(proof_of_existence::Call::RevokeClaim {
            claim: claim.to_string(),
        }),
    }
}

#[test]
fn fresh_runtime_is_empty() {
    let runtime = Runtime::new();

    assert_eq!(runtime.system.block_number(), 0);
    assert_eq!(runtime.system.get_nonce("alice"), 0);
    assert_eq!(runtime.balances.get_balance("alice".to_string()), 0);
    assert!(runtime
        .proof_of_existence
        .get_claim(&"doc".to_string())
        .is_none());
}

#[test]
fn execute_block_applies_transfers_in_order() {
    let mut runtime = Runtime::new();
    runtime.balances.set_balance("alice".to_string(), 100);

    let block_1 = Block {
        header: Header { block_number: 1 },
        extrinsics: vec![
            transfer("alice", "bob", 30),
            transfer("alice", "charlie", 20),
        ],
    };

    assert_eq!(runtime.execute_block(block_1), Ok(()));
    assert_eq!(runtime.system.block_number(), 1);
    assert_eq!(runtime.balances.get_balance("alice".to_string()), 50);
    assert_eq!(runtime.balances.get_balance("bob".to_string()), 30);
    assert_eq!(runtime.balances.get_balance("charlie".to_string()), 20);
    assert_eq!(runtime.system.get_nonce("alice"), 2);
}

#[test]
fn execute_block_applies_claims_in_order() {
    let mut runtime = Runtime::new();
    runtime.balances.set_balance("alice".to_string(), 100);

    let block_1 = Block {
        header: Header { block_number: 1 },
        extrinsics: vec![
            transfer("alice", "bob", 30),
            transfer("alice", "charlie", 20),
        ],
    };
    let block_2 = Block {
        header: Header { block_number: 2 },
        extrinsics: vec![
            create_claim("alice", "doc1"),
            create_claim("bob", "doc2"),
            revoke_claim("alice", "doc1"),
        ],
    };

    assert_eq!(runtime.execute_block(block_1), Ok(()));
    assert_eq!(runtime.execute_block(block_2), Ok(()));

    assert_eq!(runtime.system.block_number(), 2);
    assert!(runtime
        .proof_of_existence
        .get_claim(&"doc1".to_string())
        .is_none());
    assert_eq!(
        runtime.proof_of_existence.get_claim(&"doc2".to_string()),
        Some(&"bob".to_string())
    );
}

#[test]
fn failing_extrinsic_does_not_abort_the_block() {
    let mut runtime = Runtime::new();
    runtime.balances.set_balance("alice".to_string(), 10);

    let block_1 = Block {
        header: Header { block_number: 1 },
        extrinsics: vec![
            transfer("alice", "bob", 100), // fails: insufficient balance
            transfer("alice", "bob", 4),   // still applied
        ],
    };

    assert_eq!(runtime.execute_block(block_1), Ok(()));
    assert_eq!(runtime.balances.get_balance("alice".to_string()), 6);
    assert_eq!(runtime.balances.get_balance("bob".to_string()), 4);
}

#[test]
fn nonce_counts_attempts_across_blocks() {
    let mut runtime = Runtime::new();
    runtime.balances.set_balance("alice".to_string(), 10);

    let block_1 = Block {
        header: Header { block_number: 1 },
        extrinsics: vec![
            transfer("alice", "bob", 100), // fails
            transfer("alice", "bob", 1),   // succeeds
            create_claim("bob", "doc"),    // succeeds
        ],
    };
    let block_2 = Block {
        header: Header { block_number: 2 },
        extrinsics: vec![
            create_claim("alice", "doc"), // fails: already claimed
            revoke_claim("alice", "doc"), // fails: not the owner
        ],
    };

    assert_eq!(runtime.execute_block(block_1), Ok(()));
    assert_eq!(runtime.execute_block(block_2), Ok(()));

    // Five extrinsics were attempted by alice and bob together; each bump
    // counts whether or not the dispatched call succeeded.
    assert_eq!(runtime.system.get_nonce("alice"), 4);
    assert_eq!(runtime.system.get_nonce("bob"), 1);
}

#[test]
fn mismatched_header_rejects_the_whole_block() {
    let mut runtime = Runtime::new();
    runtime.balances.set_balance("alice".to_string(), 100);

    let bad_block = Block {
        header: Header { block_number: 7 },
        extrinsics: vec![transfer("alice", "bob", 30), create_claim("alice", "doc")],
    };

    let r = runtime.execute_block(bad_block);
    assert_eq!(r, Err(BlockError::BlockNumberMismatch));
    assert_eq!(
        r.unwrap_err().message(),
        "block number does not match what is expected"
    );

    // No extrinsic was applied: balances and claims are untouched, and no
    // nonce moved.
    assert_eq!(runtime.balances.get_balance("alice".to_string()), 100);
    assert_eq!(runtime.balances.get_balance("bob".to_string()), 0);
    assert!(runtime
        .proof_of_existence
        .get_claim(&"doc".to_string())
        .is_none());
    assert_eq!(runtime.system.get_nonce("alice"), 0);

    // The block number still advanced by one: a rejected block consumes a
    // block number, so the next accepted block carries number two.
    assert_eq!(runtime.system.block_number(), 1);
    let block_2 = Block {
        header: Header { block_number: 2 },
        extrinsics: vec![transfer("alice", "bob", 30)],
    };
    assert_eq!(runtime.execute_block(block_2), Ok(()));
    assert_eq!(runtime.balances.get_balance("bob".to_string()), 30);
}

#[test]
fn dispatch_routes_to_the_owning_module() {
    let mut runtime = Runtime::new();
    runtime.balances.set_balance("alice".to_string(), 10);

    let r = runtime.dispatch(
        "alice".to_string(),
        RuntimeCall::Balances(balances::Call::Transfer {
            to: "bob".to_string(),
            amount: 4,
        }),
    );
    assert_eq!(r, Ok(()));
    assert_eq!(runtime.balances.get_balance("bob".to_string()), 4);

    let r = runtime.dispatch(
        "alice".to_string(),
        RuntimeCall::ProofOfExistence(proof_of_existence::Call::CreateClaim {
            claim: "doc".to_string(),
        }),
    );
    assert_eq!(r, Ok(()));
    assert_eq!(
        runtime.proof_of_existence.get_claim(&"doc".to_string()),
        Some(&"alice".to_string())
    );

    // Dispatch never touches nonces or the block number: those belong to
    // the executor.
    assert_eq!(runtime.system.get_nonce("alice"), 0);
    assert_eq!(runtime.system.block_number(), 0);
}
