use eth_transfer::address::validate_address;
use eth_transfer::balance::check_balance;
use eth_transfer::error::{RpcOperation, TransferError, ValidationError};
use eth_transfer::gas::{
    buffered_gas_limit, gas_price_with_premium, get_base_transfer_gas_limit, get_gas_info,
    transfer_fee,
};
use eth_transfer::pipeline::{
    ConfirmationWait, Outcome, PipelineState, TransactionReceipt, TransferPipeline,
    ARBITRUM_SEPOLIA_CHAIN_ID,
};

const SENDER: &str = "0xF14Beb2A3A05eFBb1e6cfF1F1Ac073468412bA37";
const RECEIVER: &str = "0x6FC35791B6D73Fc90951aF166134fFDBa4E933E9";
const KEY: [u8; 32] = [0x01; 32];

fn fresh_pipeline(value: u128) -> TransferPipeline {
    let from = validate_address(SENDER).unwrap();
    let to = validate_address(RECEIVER).unwrap();
    TransferPipeline::new(from, to, value, ARBITRUM_SEPOLIA_CHAIN_ID).unwrap()
}

#[test]
fn premium_is_exact_integer_arithmetic() {
    assert_eq!(gas_price_with_premium(1_000_000_000), Some(1_100_000_000));
    assert_eq!(gas_price_with_premium(0), Some(0));
    assert_eq!(gas_price_with_premium(99), Some(108));
    assert_eq!(gas_price_with_premium(u128::MAX), None);
}

#[test]
fn fallback_limit_is_buffered_base_cost() {
    assert_eq!(get_base_transfer_gas_limit(), 21000);
    assert_eq!(buffered_gas_limit(None), Some(25200));
    assert_eq!(buffered_gas_limit(Some(21000)), Some(25200));
    assert_eq!(buffered_gas_limit(Some(100_000)), Some(120_000));
    assert_eq!(buffered_gas_limit(Some(u64::MAX)), None);
}

#[test]
fn buffering_truncates_like_integer_division() {
    assert_eq!(buffered_gas_limit(Some(21001)), Some(25201));
    assert_eq!(gas_price_with_premium(1), Some(1));
}

#[test]
fn out_of_range_arithmetic_is_a_validation_error() {
    let mut p = fresh_pipeline(1);
    assert_eq!(
        p.on_gas_price(Some(u128::MAX)).unwrap_err(),
        TransferError::Validation(ValidationError::Overflow)
    );
    assert!(matches!(p.state, PipelineState::Unbuilt));
}

#[test]
fn uppercase_prefix_is_not_an_address() {
    assert_eq!(
        validate_address("0X6FC35791B6D73Fc90951aF166134fFDBa4E933E9").unwrap_err(),
        ValidationError::MalformedAddress
    );
}

#[test]
fn shortfall_is_reported_exactly() {
    match check_balance(100, 150, 0, 0) {
        Err(TransferError::InsufficientFunds { balance, total_cost, shortfall }) => {
            assert_eq!(balance, 100);
            assert_eq!(total_cost, 150);
            assert_eq!(shortfall, 50);
        },
        other => panic!("expected insufficient funds, got {:?}", other),
    }
    assert_eq!(check_balance(150, 150, 0, 0), Ok(150));
    assert_eq!(check_balance(200, 100, 2, 25), Ok(150));
}

#[test]
fn zero_destination_is_always_rejected() {
    let zero = "0x0000000000000000000000000000000000000000";
    assert_eq!(validate_address(zero).unwrap_err(), ValidationError::ZeroAddress);
    let from = validate_address(SENDER).unwrap();
    let to = validate_address(SENDER).unwrap();
    let zero_to = eth_transfer::address::Address::from_bytes(vec![0u8; 20]);
    match TransferPipeline::new(from, zero_to, 1, ARBITRUM_SEPOLIA_CHAIN_ID) {
        Err(TransferError::Validation(ValidationError::ZeroAddress)) => {},
        other => panic!("expected zero-address rejection, got {:?}", other),
    }
    let _ = to;
}

#[test]
fn malformed_addresses_are_rejected() {
    assert_eq!(validate_address("").unwrap_err(), ValidationError::MalformedAddress);
    assert_eq!(validate_address("0x12").unwrap_err(), ValidationError::MalformedAddress);
    assert_eq!(
        validate_address("6FC35791B6D73Fc90951aF166134fFDBa4E933E955").unwrap_err(),
        ValidationError::MalformedAddress
    );
    assert_eq!(
        validate_address("0x6FC35791B6D73Fc90951aF166134fFDBa4E933Ez").unwrap_err(),
        ValidationError::MalformedAddress
    );
    let a = validate_address(RECEIVER).unwrap();
    assert_eq!(
        a.as_bytes().as_slice(),
        [
            0x6F, 0xC3, 0x57, 0x91, 0xB6, 0xD7, 0x3F, 0xc9, 0x09, 0x51, 0xaF, 0x16, 0x61, 0x34,
            0xfF, 0xDB, 0xa4, 0xE9, 0x33, 0xE9
        ]
    );
}

#[test]
fn sufficient_balance_reaches_signed_and_broadcast() {
    let mut p = fresh_pipeline(10_000_000_000_000);
    let total = p
        .run_query_phase(
            Some(1_000_000_000),
            Some(21000),
            Some(7),
            Some(1_000_000_000_000_000_000),
        )
        .unwrap();
    assert_eq!(total, 10_000_000_000_000 + 1_100_000_000 * 25200);
    assert!(matches!(p.state, PipelineState::BalanceVerified { .. }));
    p.sign(&KEY.to_vec()).unwrap();
    assert!(matches!(p.state, PipelineState::Signed { .. }));
    let hash = p.on_broadcast(true).unwrap();
    assert_eq!(hash.len(), 32);
    assert!(matches!(p.state, PipelineState::Broadcast { .. }));
}

#[test]
fn insufficient_balance_halts_before_signing() {
    let mut p = fresh_pipeline(10_000_000_000_000);
    let err = p
        .run_query_phase(Some(1_000_000_000), Some(21000), Some(7), Some(100))
        .unwrap_err();
    match err {
        TransferError::InsufficientFunds { balance, total_cost, shortfall } => {
            assert_eq!(balance, 100);
            assert_eq!(total_cost, 10_000_000_000_000 + 1_100_000_000 * 25200);
            assert_eq!(shortfall, total_cost - 100);
        },
        other => panic!("expected insufficient funds, got {:?}", other),
    }
    assert!(matches!(p.state, PipelineState::NonceAssigned { .. }));
}

#[test]
fn network_failures_name_the_operation() {
    let mut p = fresh_pipeline(1);
    assert_eq!(
        p.on_gas_price(None).unwrap_err(),
        TransferError::Network(RpcOperation::GetGasPrice)
    );
    p.on_gas_price(Some(5)).unwrap();
    p.on_gas_estimate(None).unwrap();
    assert_eq!(
        p.on_nonce(None).unwrap_err(),
        TransferError::Network(RpcOperation::GetTransactionCount)
    );
    p.on_nonce(Some(0)).unwrap();
    assert_eq!(
        p.on_balance(None).unwrap_err(),
        TransferError::Network(RpcOperation::GetBalance)
    );
}

#[test]
fn estimation_failure_falls_back_silently() {
    let mut p = fresh_pipeline(1);
    p.on_gas_price(Some(1_000_000_000)).unwrap();
    let limit = p.on_gas_estimate(None).unwrap();
    assert_eq!(limit, 25200);
    match p.state {
        PipelineState::LimitEstimated { gas_price, gas_limit } => {
            assert_eq!(gas_price, 1_100_000_000);
            assert_eq!(gas_limit, 25200);
        },
        ref other => panic!("unexpected state {:?}", other),
    }
}

#[test]
fn rejected_broadcast_is_a_submission_error() {
    let mut p = fresh_pipeline(1);
    p.run_query_phase(Some(10), Some(21000), Some(0), Some(1_000_000_000)).unwrap();
    p.sign(&KEY.to_vec()).unwrap();
    assert_eq!(p.on_broadcast(false).unwrap_err(), TransferError::Submission);
    assert!(matches!(p.state, PipelineState::Signed { .. }));
}

#[test]
fn receipt_status_decides_the_outcome() {
    let good = TransactionReceipt { block_number: Some(12), gas_used: 21000, status_success: true };
    let bad = TransactionReceipt { block_number: Some(13), gas_used: 21000, status_success: false };

    let mut p = fresh_pipeline(1);
    p.run_query_phase(Some(10), None, Some(0), Some(1_000_000_000)).unwrap();
    p.sign(&KEY.to_vec()).unwrap();
    p.on_broadcast(true).unwrap();
    assert_eq!(p.on_confirmation(ConfirmationWait::Receipt(good)), Ok(Outcome::Confirmed(good)));
    assert!(matches!(p.state, PipelineState::Confirmed { .. }));

    let mut q = fresh_pipeline(1);
    q.run_query_phase(Some(10), None, Some(0), Some(1_000_000_000)).unwrap();
    q.sign(&KEY.to_vec()).unwrap();
    q.on_broadcast(true).unwrap();
    assert_eq!(q.on_confirmation(ConfirmationWait::Receipt(bad)), Ok(Outcome::Failed(bad)));
    assert!(matches!(q.state, PipelineState::Failed { .. }));

    let mut r = fresh_pipeline(1);
    r.run_query_phase(Some(10), None, Some(0), Some(1_000_000_000)).unwrap();
    r.sign(&KEY.to_vec()).unwrap();
    r.on_broadcast(true).unwrap();
    assert_eq!(r.on_confirmation(ConfirmationWait::NoReceipt), Ok(Outcome::Unconfirmed));
    assert!(matches!(r.state, PipelineState::Unconfirmed));

    let mut s = fresh_pipeline(1);
    s.run_query_phase(Some(10), None, Some(0), Some(1_000_000_000)).unwrap();
    s.sign(&KEY.to_vec()).unwrap();
    s.on_broadcast(true).unwrap();
    assert_eq!(
        s.on_confirmation(ConfirmationWait::WaitFailed),
        Err(TransferError::ConfirmationIndeterminate)
    );
    assert!(matches!(s.state, PipelineState::Unconfirmed));
}

#[test]
fn gas_info_reports_the_intrinsic_fee() {
    let info = get_gas_info(2_000_000_000).unwrap();
    assert_eq!(info.gas_price_wei, 2_000_000_000);
    assert_eq!(info.base_gas_limit, 21000);
    assert_eq!(info.estimated_fee_wei, 42_000_000_000_000);
    assert_eq!(transfer_fee(2_000_000_000, 21000), Some(42_000_000_000_000));
    assert!(get_gas_info(u128::MAX).is_none());
}
