use std::str::FromStr;

use ethers_core::types::transaction::eip2718::TypedTransaction;
use ethers_core::types::{Address as EthersAddress, TransactionRequest as EthersRequest, U256};
use ethers_signers::{LocalWallet, Signer};

use eth_transfer::address::validate_address;
use eth_transfer::error::ValidationError;
use eth_transfer::pipeline::ARBITRUM_SEPOLIA_CHAIN_ID;
use eth_transfer::rlp::{append_rlp_uint, be_bytes, rlp_wrap_list, trim_zeros};
use eth_transfer::signing::{sign_transfer, TransactionRequest};
use eth_transfer::units::parse_ether;

const SENDER: &str = "0xF14Beb2A3A05eFBb1e6cfF1F1Ac073468412bA37";
const RECEIVER: &str = "0x6FC35791B6D73Fc90951aF166134fFDBa4E933E9";
const KEY: [u8; 32] = [0x01; 32];

#[test]
fn amounts_parse_to_the_smallest_unit() {
    assert_eq!(parse_ether("0.00001"), Ok(10_000_000_000_000));
    assert_eq!(parse_ether("1"), Ok(1_000_000_000_000_000_000));
    assert_eq!(parse_ether("1.5"), Ok(1_500_000_000_000_000_000));
    assert_eq!(parse_ether("0.000000000000000001"), Ok(1));
    assert_eq!(parse_ether("0"), Ok(0));
    assert_eq!(parse_ether("12.25"), Ok(12_250_000_000_000_000_000));
}

#[test]
fn malformed_amounts_are_rejected() {
    assert_eq!(parse_ether(""), Err(ValidationError::MalformedAmount));
    assert_eq!(parse_ether("."), Err(ValidationError::MalformedAmount));
    assert_eq!(parse_ether("1."), Err(ValidationError::MalformedAmount));
    assert_eq!(parse_ether(".5"), Err(ValidationError::MalformedAmount));
    assert_eq!(parse_ether("-1"), Err(ValidationError::MalformedAmount));
    assert_eq!(parse_ether("1.2.3"), Err(ValidationError::MalformedAmount));
    assert_eq!(parse_ether("1,5"), Err(ValidationError::MalformedAmount));
    assert_eq!(
        parse_ether("1.0000000000000000001"),
        Err(ValidationError::MalformedAmount)
    );
    assert_eq!(
        parse_ether("340282366920938463463374607431768211456"),
        Err(ValidationError::Overflow)
    );
}

#[test]
fn amount_edge_cases() {
    assert_eq!(
        parse_ether("340282366920938463463.374607431768211455"),
        Ok(u128::MAX)
    );
    assert_eq!(parse_ether("21"), Ok(21_000_000_000_000_000_000));
    assert_eq!(parse_ether("0.0"), Ok(0));
}

#[test]
fn minimal_big_endian_bytes() {
    assert_eq!(be_bytes(0), Vec::<u8>::new());
    assert_eq!(be_bytes(1), vec![1]);
    assert_eq!(be_bytes(0x1234), vec![0x12, 0x34]);
    assert_eq!(be_bytes(u128::MAX), vec![0xff; 16]);
    assert_eq!(trim_zeros(&vec![0, 0, 5, 0]), vec![5, 0]);
    assert_eq!(trim_zeros(&vec![0, 0]), Vec::<u8>::new());
}

#[test]
fn integer_items_encode_canonically() {
    let mut out: Vec<u8> = Vec::new();
    append_rlp_uint(&mut out, 0);
    assert_eq!(out, vec![0x80]);
    out.clear();
    append_rlp_uint(&mut out, 15);
    assert_eq!(out, vec![0x0f]);
    out.clear();
    append_rlp_uint(&mut out, 1024);
    assert_eq!(out, vec![0x82, 0x04, 0x00]);
    let wrapped = rlp_wrap_list(&vec![0x0f]);
    assert_eq!(wrapped, vec![0xc1, 0x0f]);
}

#[test]
fn address_parsing_matches_the_reference_parser() {
    let ours = validate_address(RECEIVER).unwrap();
    let theirs = EthersAddress::from_str(RECEIVER).unwrap();
    assert_eq!(ours.as_bytes().as_slice(), theirs.as_bytes());
}

fn sample_request() -> TransactionRequest {
    let from = validate_address(SENDER).unwrap();
    let to = validate_address(RECEIVER).unwrap();
    TransactionRequest::new(
        from,
        to,
        10_000_000_000_000,
        1_100_000_000,
        25200,
        7,
        ARBITRUM_SEPOLIA_CHAIN_ID,
    )
}

#[test]
fn signing_preserves_every_request_field() {
    let tx = sample_request();
    let signed = sign_transfer(&KEY.to_vec(), &tx).unwrap();
    assert_eq!(signed.request.to.as_bytes(), tx.to.as_bytes());
    assert_eq!(signed.request.from.as_bytes(), tx.from.as_bytes());
    assert_eq!(signed.request.value, 10_000_000_000_000);
    assert_eq!(signed.request.gas_price, 1_100_000_000);
    assert_eq!(signed.request.gas_limit, 25200);
    assert_eq!(signed.request.nonce, 7);
    assert_eq!(signed.request.chain_id, ARBITRUM_SEPOLIA_CHAIN_ID);
    let v_base = 2 * ARBITRUM_SEPOLIA_CHAIN_ID + 35;
    assert!(signed.v == v_base || signed.v == v_base + 1);
}

#[test]
fn signed_encoding_matches_the_reference_signer() {
    let tx = sample_request();
    let signed = sign_transfer(&KEY.to_vec(), &tx).unwrap();

    let wallet = LocalWallet::from_str(
        "0101010101010101010101010101010101010101010101010101010101010101",
    )
    .unwrap()
    .with_chain_id(ARBITRUM_SEPOLIA_CHAIN_ID);
    let ethers_tx = EthersRequest::new()
        .from(EthersAddress::from_slice(tx.from.as_bytes()))
        .to(EthersAddress::from_slice(tx.to.as_bytes()))
        .value(U256::from(10_000_000_000_000u128))
        .gas_price(U256::from(1_100_000_000u64))
        .gas(U256::from(25200u64))
        .nonce(U256::from(7u64))
        .chain_id(ARBITRUM_SEPOLIA_CHAIN_ID);
    let typed: TypedTransaction = ethers_tx.into();
    let sig = wallet.sign_transaction_sync(&typed).unwrap();
    let reference = typed.rlp_signed(&sig).to_vec();

    assert_eq!(signed.raw, reference);
    assert_eq!(
        signed.hash.as_slice(),
        ethers_core::utils::keccak256(&reference)
    );
}
