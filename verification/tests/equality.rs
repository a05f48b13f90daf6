use rpc_config::primitives::{CommitmentLevel, Signature, UiAccountEncoding, UiTransactionEncoding};
use rpc_config::program_accounts::{RpcAccountInfoConfig, UiDataSliceConfig};
use rpc_config::send_transaction::RpcSendTransactionConfig;
use rpc_config::simulate_bundle::RpcSimulateBundleAccountsConfig;
use rpc_config::txs_for_address::{
    RpcTransactionsForAddressBlockTimeRange, RpcTransactionsForAddressConfig,
    RpcTransactionsForAddressFilters, RpcTransactionsForAddressSignatureRange,
    RpcTransactionsForAddressSlotRange, RpcTransactionsForAddressStatus,
};

#[test]
fn independently_constructed_equal_configs_compare_equal() {
    let a = RpcSendTransactionConfig::new(true, Some(CommitmentLevel::Confirmed), Some(3), Some(8));
    let b = RpcSendTransactionConfig::new(true, Some(CommitmentLevel::Confirmed), Some(3), Some(8));
    assert!(a == b);
}

#[test]
fn changing_any_field_breaks_equality() {
    let base = RpcSendTransactionConfig::new(true, Some(CommitmentLevel::Confirmed), Some(3), Some(8));
    assert!(base != RpcSendTransactionConfig::new(false, Some(CommitmentLevel::Confirmed), Some(3), Some(8)));
    assert!(base != RpcSendTransactionConfig::new(true, None, Some(3), Some(8)));
    assert!(base != RpcSendTransactionConfig::new(true, Some(CommitmentLevel::Confirmed), Some(4), Some(8)));
    assert!(base != RpcSendTransactionConfig::new(true, Some(CommitmentLevel::Confirmed), Some(3), None));
}

#[test]
fn range_equality_considers_absence() {
    let a = RpcTransactionsForAddressSlotRange::new(Some(1), None, None, None);
    let b = RpcTransactionsForAddressSlotRange::new(Some(1), None, None, None);
    let c = RpcTransactionsForAddressSlotRange::new(Some(1), Some(1), None, None);
    assert!(a == b);
    assert!(a != c);
    let d = RpcTransactionsForAddressBlockTimeRange::new(None, None, None, None, Some(5));
    let e = RpcTransactionsForAddressBlockTimeRange::new(None, None, None, None, None);
    assert!(d != e);
}

#[test]
fn signature_ranges_compare_by_canonical_text() {
    let a = RpcTransactionsForAddressSignatureRange::new(
        Some(Signature::new("sigA".to_string())),
        None,
        None,
        None,
    );
    let b = RpcTransactionsForAddressSignatureRange::new(
        Some(Signature::new("sigA".to_string())),
        None,
        None,
        None,
    );
    let c = RpcTransactionsForAddressSignatureRange::new(
        Some(Signature::new("sigB".to_string())),
        None,
        None,
        None,
    );
    assert!(a == b);
    assert!(a != c);
}

#[test]
fn equality_is_independent_of_construction_path() {
    let direct = RpcTransactionsForAddressFilters::new(None, None, None, None, None);
    let defaulted = RpcTransactionsForAddressFilters::default();
    assert!(direct == defaulted);
    let cfg = RpcTransactionsForAddressConfig::new_default();
    assert!(cfg == RpcTransactionsForAddressConfig::default());
    assert!(cfg.clone() == cfg);
}

#[test]
fn accounts_config_equality_covers_the_address_list() {
    let a = RpcSimulateBundleAccountsConfig::new(vec!["x".to_string()], None);
    let b = RpcSimulateBundleAccountsConfig::new(vec!["x".to_string()], None);
    let c = RpcSimulateBundleAccountsConfig::new(vec!["y".to_string()], None);
    let d = RpcSimulateBundleAccountsConfig::new(
        vec!["x".to_string()],
        Some(UiAccountEncoding::Binary),
    );
    assert!(a == b);
    assert!(a != c);
    assert!(a != d);
}

#[test]
fn default_send_transaction_config_forces_base64_encoding() {
    let built = RpcSendTransactionConfig::new(false, None, None, None);
    assert_eq!(built.skip_preflight(), false);
    assert_eq!(built.encoding(), Some(UiTransactionEncoding::Base64));
    let defaulted = RpcSendTransactionConfig::new_default();
    assert_eq!(defaulted.skip_preflight(), false);
    assert_eq!(defaulted.encoding(), Some(UiTransactionEncoding::Base64));
    assert!(built == defaulted);
}

#[test]
fn getters_echo_constructed_values() {
    let slice = UiDataSliceConfig::new(4, 12);
    assert_eq!(slice.offset(), 4);
    assert_eq!(slice.length(), 12);
    let account = RpcAccountInfoConfig::new(
        Some(UiAccountEncoding::JsonParsed),
        Some(slice),
        Some(CommitmentLevel::Processed),
        Some(77),
    );
    assert_eq!(account.encoding(), Some(UiAccountEncoding::JsonParsed));
    assert!(account.data_slice() == Some(slice));
    assert_eq!(account.commitment(), Some(CommitmentLevel::Processed));
    assert_eq!(account.min_context_slot(), Some(77));
    let filters = RpcTransactionsForAddressFilters::new(
        None,
        None,
        None,
        Some(RpcTransactionsForAddressStatus::Any),
        None,
    );
    assert_eq!(filters.status(), Some(RpcTransactionsForAddressStatus::Any));
    assert!(filters.slot().is_none());
}
