use state_machine::balances;
use state_machine::proof_of_existence;
use state_machine::support::DispatchError;
use state_machine::types;
use state_machine::Runtime;
use state_machine::RuntimeCall;

fn transfer_extrinsic(caller: &str, to: &str, amount: u128) -> types::Extrinsic {
    types::Extrinsic {
        caller: caller.to_string(),
        call: RuntimeCall::Balances(balances::Call::Transfer {
            to: to.to_string(),
            amount,
        }),
    }
}

#[test]
fn end_to_end_block_execution() {
    let mut runtime = Runtime::new();
    let alice = "alice".to_string();

    runtime.balances.set_balance(&alice, 100);

    let block = types::Block {
        header: types::Header { block_number: 1 },
        extrinsics: vec![
            transfer_extrinsic("alice", "bob", 30),
            transfer_extrinsic("alice", "charlie", 20),
        ],
    };

    let outcomes = runtime.execute_block(block).expect("wrong block execution");

    assert_eq!(outcomes, vec![Ok(()), Ok(())]);
    assert_eq!(runtime.system.block_number(), 1);
    assert_eq!(runtime.balances.balance(&"alice".to_string()), 50);
    assert_eq!(runtime.balances.balance(&"bob".to_string()), 30);
    assert_eq!(runtime.balances.balance(&"charlie".to_string()), 20);
    assert_eq!(runtime.system.get_nonce(&"alice".to_string()), 2);
}

#[test]
fn nonce_counts_failed_extrinsics_too() {
    let mut runtime = Runtime::new();
    let alice = "alice".to_string();

    runtime.balances.set_balance(&alice, 100);

    let block = types::Block {
        header: types::Header { block_number: 1 },
        extrinsics: vec![
            transfer_extrinsic("alice", "bob", 30),
            transfer_extrinsic("alice", "bob", 1000),
        ],
    };

    let outcomes = runtime.execute_block(block).expect("wrong block execution");

    assert_eq!(
        outcomes,
        vec![Ok(()), Err(DispatchError::InsufficientBalance)]
    );
    assert_eq!(runtime.system.get_nonce(&alice), 2);
    assert_eq!(runtime.balances.balance(&alice), 70);
    assert_eq!(runtime.balances.balance(&"bob".to_string()), 30);
}

#[test]
fn block_number_mismatch_skips_the_block() {
    let mut runtime = Runtime::new();
    let alice = "alice".to_string();

    runtime.balances.set_balance(&alice, 100);

    let block = types::Block {
        header: types::Header { block_number: 5 },
        extrinsics: vec![transfer_extrinsic("alice", "bob", 30)],
    };

    let res = runtime.execute_block(block);

    assert_eq!(res, Err(DispatchError::BlockNumberMismatch));
    assert_eq!(
        res.unwrap_err().as_str(),
        "Block Number Mismatch"
    );
    // The counter has already advanced, but no extrinsic was applied.
    assert_eq!(runtime.system.block_number(), 1);
    assert_eq!(runtime.balances.balance(&alice), 100);
    assert_eq!(runtime.balances.balance(&"bob".to_string()), 0);
    assert_eq!(runtime.system.get_nonce(&alice), 0);
}

#[test]
fn claims_through_dispatch() {
    let mut runtime = Runtime::new();

    let block = types::Block {
        header: types::Header { block_number: 1 },
        extrinsics: vec![
            types::Extrinsic {
                caller: "alice".to_string(),
                call: RuntimeCall::ProofOfExistence(proof_of_existence::Call::CreateClaim {
                    claim: "my_document".to_string(),
                }),
            },
            types::Extrinsic {
                caller: "bob".to_string(),
                call: RuntimeCall::ProofOfExistence(proof_of_existence::Call::CreateClaim {
                    claim: "my_document".to_string(),
                }),
            },
            types::Extrinsic {
                caller: "bob".to_string(),
                call: RuntimeCall::ProofOfExistence(proof_of_existence::Call::RevokeClaim {
                    claim: "my_document".to_string(),
                }),
            },
        ],
    };

    let outcomes = runtime.execute_block(block).expect("wrong block execution");

    assert_eq!(
        outcomes,
        vec![
            Ok(()),
            Err(DispatchError::ClaimAlreadyExists),
            Err(DispatchError::NotClaimOwner),
        ]
    );
    assert_eq!(
        runtime
            .proof_of_existence
            .get_claim(&"my_document".to_string()),
        Some(&"alice".to_string())
    );
    assert_eq!(runtime.system.get_nonce(&"alice".to_string()), 1);
    assert_eq!(runtime.system.get_nonce(&"bob".to_string()), 2);
}

#[test]
fn consecutive_blocks_advance_the_counter() {
    let mut runtime = Runtime::new();
    runtime.balances.set_balance(&"alice".to_string(), 100);

    let block_1 = types::Block {
        header: types::Header { block_number: 1 },
        extrinsics: vec![transfer_extrinsic("alice", "bob", 30)],
    };
    let block_2 = types::Block {
        header: types::Header { block_number: 2 },
        extrinsics: vec![transfer_extrinsic("bob", "charlie", 10)],
    };

    runtime.execute_block(block_1).expect("wrong block execution");
    runtime.execute_block(block_2).expect("wrong block execution");

    assert_eq!(runtime.system.block_number(), 2);
    assert_eq!(runtime.balances.balance(&"alice".to_string()), 70);
    assert_eq!(runtime.balances.balance(&"bob".to_string()), 20);
    assert_eq!(runtime.balances.balance(&"charlie".to_string()), 10);
}
