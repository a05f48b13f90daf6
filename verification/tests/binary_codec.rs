use rpc_config::codec::{decode, encode};
use rpc_config::json::{DecodeError, Json};
use rpc_config::primitives::{CommitmentLevel, UiAccountEncoding, UiTransactionEncoding};
use rpc_config::program_accounts::{
    RpcAccountInfoConfig, RpcFilterType, RpcProgramAccountsConfig, RpcProgramAccountsV2Config,
    UiDataSliceConfig,
};
use rpc_config::send_transaction::RpcSendTransactionConfig;
use rpc_config::simulate_bundle::{RpcSimulateBundleAccountsConfig, RpcSimulateBundleConfig};
use rpc_config::text::render;
use rpc_config::txs_for_address::{
    RpcTransactionsForAddressBlockTimeRange, RpcTransactionsForAddressConfig,
    RpcTransactionsForAddressFilters, RpcTransactionsForAddressSlotRange,
    RpcTransactionsForAddressStatus,
};

#[test]
fn slot_range_round_trips_through_bytes() {
    let x = RpcTransactionsForAddressSlotRange::new(Some(1), Some(2), None, Some(u64::MAX));
    let back = RpcTransactionsForAddressSlotRange::from_bytes(&x.to_bytes()).unwrap();
    assert!(back == x);
}

#[test]
fn block_time_range_round_trips_through_bytes() {
    let x = RpcTransactionsForAddressBlockTimeRange::new(None, None, Some(3), None, Some(77));
    let back = RpcTransactionsForAddressBlockTimeRange::from_bytes(&x.to_bytes()).unwrap();
    assert!(back == x);
}

#[test]
fn filters_round_trip_through_bytes() {
    let x = RpcTransactionsForAddressFilters::new(
        Some(RpcTransactionsForAddressSlotRange::new(Some(5), None, None, None)),
        None,
        None,
        Some(RpcTransactionsForAddressStatus::Failed),
        None,
    );
    let back = RpcTransactionsForAddressFilters::from_bytes(&x.to_bytes()).unwrap();
    assert!(back == x);
}

#[test]
fn address_history_config_round_trips_through_bytes() {
    let x = RpcTransactionsForAddressConfig::new(
        None,
        None,
        Some(CommitmentLevel::Finalized),
        Some(9),
        Some(100),
        Some("page-token with spaces and a ✓ mark".to_string()),
        Some(UiTransactionEncoding::JsonParsed),
        Some(255),
        None,
    );
    let back = RpcTransactionsForAddressConfig::from_bytes(&x.to_bytes()).unwrap();
    assert!(back == x);
}

#[test]
fn send_transaction_config_round_trips_through_bytes() {
    let x = RpcSendTransactionConfig::new(true, Some(CommitmentLevel::Processed), Some(4), None);
    let back = RpcSendTransactionConfig::from_bytes(&x.to_bytes()).unwrap();
    assert!(back == x);
    let d = RpcSendTransactionConfig::new_default();
    let back_d = RpcSendTransactionConfig::from_bytes(&d.to_bytes()).unwrap();
    assert!(back_d == d);
}

#[test]
fn simulate_bundle_configs_round_trip_through_bytes() {
    let capture = RpcSimulateBundleAccountsConfig::new(
        vec!["addr1".to_string(), "addr2".to_string()],
        Some(UiAccountEncoding::Base64Zstd),
    );
    let back_capture = RpcSimulateBundleAccountsConfig::from_bytes(&capture.to_bytes()).unwrap();
    assert!(back_capture == capture);

    let bank = Json::Obj(vec![("slot".to_string(), Json::UInt(42))]);
    let x = RpcSimulateBundleConfig::new(
        vec![Some(capture), None],
        vec![None],
        Some(UiTransactionEncoding::Base58),
        Some(&bank),
        true,
        false,
    )
    .unwrap();
    let back = RpcSimulateBundleConfig::from_bytes(&x.to_bytes()).unwrap();
    assert!(back == x);
}

#[test]
fn program_accounts_configs_round_trip_through_bytes() {
    let account = RpcAccountInfoConfig::new(
        Some(UiAccountEncoding::Base58),
        Some(UiDataSliceConfig::new(16, 32)),
        Some(CommitmentLevel::Confirmed),
        Some(1),
    );
    let back_account = RpcAccountInfoConfig::from_bytes(&account.to_bytes()).unwrap();
    assert!(back_account == account);

    let v1 = RpcProgramAccountsConfig::new(
        account,
        Some(vec![
            RpcFilterType::DataSize(165),
            RpcFilterType::Memcmp { offset: 8, bytes: "3Mc6vR".to_string() },
        ]),
        Some(true),
        None,
    );
    let back_v1 = RpcProgramAccountsConfig::from_bytes(&v1.to_bytes()).unwrap();
    assert!(back_v1 == v1);

    let v2 = RpcProgramAccountsV2Config::new(
        account,
        Some(vec![RpcFilterType::DataSize(0)]),
        None,
        Some(false),
        Some(1000),
        Some("opaque-cursor".to_string()),
        Some(123456789),
    );
    let back_v2 = RpcProgramAccountsV2Config::from_bytes(&v2.to_bytes()).unwrap();
    assert!(back_v2 == v2);
}

#[test]
fn program_accounts_config_flattens_account_fields_on_the_wire() {
    let account = RpcAccountInfoConfig::new(Some(UiAccountEncoding::Base64), None, None, Some(2));
    let v1 = RpcProgramAccountsConfig::new(account, None, Some(true), None);
    assert_eq!(
        render(&v1.to_json()),
        "{\"encoding\":\"base64\",\"minContextSlot\":2,\"withContext\":true}"
    );
}

#[test]
fn truncated_input_is_a_decode_error() {
    // A string node whose count field is cut off.
    let bytes = vec![4u8];
    assert!(matches!(decode(&bytes), Err(DecodeError::Truncated)));
    let empty: Vec<u8> = vec![];
    assert!(matches!(decode(&empty), Err(DecodeError::Truncated)));
}

#[test]
fn unknown_tag_is_a_decode_error() {
    let bytes = vec![9u8];
    assert!(matches!(decode(&bytes), Err(DecodeError::InvalidTag)));
}

#[test]
fn invalid_character_code_is_a_decode_error() {
    // A one-character string holding a surrogate code.
    let bytes = vec![4u8, 1, 0, 0, 0, 0, 0, 0, 0, 0x00, 0xd8, 0, 0];
    assert!(matches!(decode(&bytes), Err(DecodeError::InvalidChar)));
}

#[test]
fn bytes_past_the_encoded_value_are_a_decode_error() {
    let mut bytes = encode(&Json::Null);
    bytes.push(0);
    assert!(matches!(decode(&bytes), Err(DecodeError::TrailingData)));
}

#[test]
fn generic_trees_round_trip_through_the_codec() {
    let tree = Json::Obj(vec![
        (
            "list".to_string(),
            Json::Arr(vec![Json::Null, Json::Bool(false), Json::UInt(7), Json::Str("héllo ✓".to_string())]),
        ),
        ("empty".to_string(), Json::Obj(vec![])),
    ]);
    let text = render(&tree);
    let back = decode(&encode(&tree)).unwrap();
    assert_eq!(render(&back), text);
}
