use rpc_config::json::{DecodeError, Json};
use rpc_config::primitives::{CommitmentLevel, Signature, TransactionDetails, UiTransactionEncoding};
use rpc_config::simulate_bundle::RpcSimulateBundleSimulationBank;
use rpc_config::text::render;
use rpc_config::txs_for_address::{
    RpcTransactionsForAddressConfig, RpcTransactionsForAddressFilters,
    RpcTransactionsForAddressSignatureRange, RpcTransactionsForAddressSlotRange,
    RpcTransactionsForAddressSortOrder, RpcTransactionsForAddressStatus,
    RpcTransactionsForAddressTokenAccounts,
};

fn obj(pairs: Vec<(&str, Json)>) -> Json {
    Json::Obj(pairs.into_iter().map(|(k, v)| (k.to_string(), v)).collect())
}

#[test]
fn default_slot_range_renders_to_empty_object() {
    let range = RpcTransactionsForAddressSlotRange::new_default();
    assert_eq!(render(&range.to_json()), "{}");
    assert_eq!(range.json_text(), "{}");
}

#[test]
fn slot_range_keeps_present_bounds_and_omits_absent_ones() {
    let range = RpcTransactionsForAddressSlotRange::new(Some(7), None, Some(9), None);
    assert_eq!(render(&range.to_json()), "{\"gte\":7,\"lte\":9}");
}

#[test]
fn filters_with_only_failed_status_render_to_single_member() {
    let filters = RpcTransactionsForAddressFilters::new(
        None,
        None,
        None,
        Some(RpcTransactionsForAddressStatus::Failed),
        None,
    );
    let wire = filters.to_json();
    assert_eq!(render(&wire), "{\"status\":\"failed\"}");
    let back = RpcTransactionsForAddressFilters::from_json(&wire).unwrap();
    assert!(back == filters);
}

#[test]
fn enum_wire_literals_match_their_documentation() {
    assert_eq!(CommitmentLevel::Processed.wire_name(), "processed");
    assert_eq!(CommitmentLevel::Confirmed.wire_name(), "confirmed");
    assert_eq!(CommitmentLevel::Finalized.wire_name(), "finalized");
    assert_eq!(RpcTransactionsForAddressSortOrder::Asc.wire_name(), "asc");
    assert_eq!(RpcTransactionsForAddressSortOrder::Desc.wire_name(), "desc");
    assert_eq!(RpcTransactionsForAddressStatus::Any.wire_name(), "any");
    assert_eq!(RpcTransactionsForAddressTokenAccounts::None_.wire_name(), "none");
    assert_eq!(
        RpcTransactionsForAddressTokenAccounts::BalanceChanged.wire_name(),
        "balanceChanged"
    );
    assert_eq!(TransactionDetails::None_.wire_name(), "none");
}

#[test]
fn commitment_literal_outside_the_set_is_a_decode_error() {
    let r = CommitmentLevel::from_json(&Json::Str("bogus".to_string()));
    assert_eq!(r, Err(DecodeError::InvalidCommitment));
}

#[test]
fn enum_literal_outside_the_set_is_a_decode_error() {
    let r = RpcTransactionsForAddressSortOrder::from_json(&Json::Str("up".to_string()));
    assert_eq!(r, Err(DecodeError::UnknownVariant));
}

#[test]
fn field_of_wrong_kind_is_a_decode_error() {
    let r = RpcTransactionsForAddressSlotRange::from_json(&obj(vec![(
        "gte",
        Json::Str("seven".to_string()),
    )]));
    assert_eq!(r, Err(DecodeError::WrongType));
    let r2 = RpcTransactionsForAddressSlotRange::from_json(&Json::UInt(3));
    assert_eq!(r2, Err(DecodeError::WrongType));
}

#[test]
fn simulation_bank_parses_tip_literal() {
    let r = RpcSimulateBundleSimulationBank::from_json(&Json::Str("tip".to_string()));
    assert_eq!(r, Ok(RpcSimulateBundleSimulationBank::Tip));
}

#[test]
fn simulation_bank_parses_slot_shape() {
    let r = RpcSimulateBundleSimulationBank::from_json(&obj(vec![("slot", Json::UInt(12345))]));
    assert_eq!(r, Ok(RpcSimulateBundleSimulationBank::Slot(12345)));
}

#[test]
fn simulation_bank_parses_nested_commitment_shape() {
    let inner = obj(vec![("commitment", Json::Str("finalized".to_string()))]);
    let r = RpcSimulateBundleSimulationBank::from_json(&obj(vec![("commitment", inner)]));
    assert_eq!(
        r,
        Ok(RpcSimulateBundleSimulationBank::Commitment(CommitmentLevel::Finalized))
    );
}

#[test]
fn simulation_bank_rejects_unknown_shape() {
    let r = RpcSimulateBundleSimulationBank::from_json(&obj(vec![("unknown", Json::Bool(true))]));
    assert_eq!(r, Err(DecodeError::UnknownShape));
}

#[test]
fn simulation_bank_renders_each_canonical_shape() {
    assert_eq!(render(&RpcSimulateBundleSimulationBank::Tip.to_json()), "\"tip\"");
    assert_eq!(
        render(&RpcSimulateBundleSimulationBank::Slot(5).to_json()),
        "{\"slot\":5}"
    );
    assert_eq!(
        render(&RpcSimulateBundleSimulationBank::Commitment(CommitmentLevel::Processed).to_json()),
        "{\"commitment\":{\"commitment\":\"processed\"}}"
    );
}

#[test]
fn address_history_config_renders_present_fields_under_camel_case_names() {
    let config = RpcTransactionsForAddressConfig::new(
        Some(TransactionDetails::Full),
        Some(RpcTransactionsForAddressSortOrder::Desc),
        Some(CommitmentLevel::Confirmed),
        None,
        Some(50),
        Some("cursor-1".to_string()),
        Some(UiTransactionEncoding::Base64),
        Some(0),
        None,
    );
    assert_eq!(
        render(&config.to_json()),
        "{\"transactionDetails\":\"full\",\"sortOrder\":\"desc\",\"commitment\":\"confirmed\",\
         \"limit\":50,\"paginationToken\":\"cursor-1\",\"encoding\":\"base64\",\
         \"maxSupportedTransactionVersion\":0}"
    );
}

#[test]
fn address_history_config_round_trips_through_wire_json() {
    let slot = RpcTransactionsForAddressSlotRange::new(Some(1), None, None, Some(4));
    let signature = RpcTransactionsForAddressSignatureRange::new(
        Some(Signature::new("5VERYSIG".to_string())),
        None,
        None,
        None,
    );
    let filters = RpcTransactionsForAddressFilters::new(
        Some(slot),
        None,
        Some(signature),
        Some(RpcTransactionsForAddressStatus::Succeeded),
        Some(RpcTransactionsForAddressTokenAccounts::All),
    );
    let config = RpcTransactionsForAddressConfig::new(
        None,
        Some(RpcTransactionsForAddressSortOrder::Asc),
        Some(CommitmentLevel::Processed),
        Some(11),
        None,
        None,
        None,
        None,
        Some(filters),
    );
    let back = RpcTransactionsForAddressConfig::from_json(&config.to_json()).unwrap();
    assert!(back == config);
}

#[test]
fn invalid_commitment_inside_config_is_surfaced_not_coerced() {
    let wire = obj(vec![("commitment", Json::Str("strongest".to_string()))]);
    let r = RpcTransactionsForAddressConfig::from_json(&wire);
    assert_eq!(r, Err(DecodeError::InvalidCommitment));
}

#[test]
fn rendering_escapes_quotes_and_backslashes() {
    let j = Json::Str("a\"b\\c".to_string());
    assert_eq!(render(&j), "\"a\\\"b\\\\c\"");
}

#[test]
fn rendering_numbers_and_nesting_is_exact() {
    assert_eq!(render(&Json::UInt(0)), "0");
    assert_eq!(render(&Json::UInt(18446744073709551615)), "18446744073709551615");
    let j = obj(vec![
        ("a", Json::Arr(vec![Json::Null, Json::Bool(true), Json::UInt(12)])),
        ("b", obj(vec![])),
    ]);
    assert_eq!(render(&j), "{\"a\":[null,true,12],\"b\":{}}");
}
