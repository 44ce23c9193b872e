use alloy_fireblocks::errors::FireblocksError;
use alloy_fireblocks::provider::{
    choose_account_address, get_user_agent, is_final_status, is_successful_status,
    resolve_rpc_url, vault_accounts_with_asset,
};
use alloy_fireblocks::types::{
    ApiBaseUrl, AssetResponse, ChainId, DepositAddressResponse, FireblocksProviderConfig,
    PagedVaultAccountsResponse, TransactionStatus, VaultAccountResponse,
};

fn asset(id: &str) -> AssetResponse {
    AssetResponse {
        id: id.to_string(),
        total: "0".to_string(),
        balance: None,
        locked_amount: None,
        available: None,
        pending: None,
        self_staked_cpu: None,
        self_staked_network: None,
        pending_refund_cpu: None,
        pending_refund_network: None,
        total_staked_cpu: None,
        total_staked_network: None,
    }
}

fn account(id: &str, assets: Vec<AssetResponse>) -> VaultAccountResponse {
    VaultAccountResponse {
        id: id.to_string(),
        name: "Test".to_string(),
        hidden_on_ui: false,
        assets,
        customer_ref_id: None,
        auto_fuel: false,
    }
}

fn paged(accounts: Vec<VaultAccountResponse>) -> PagedVaultAccountsResponse {
    PagedVaultAccountsResponse { accounts, paging: None, previous_url: None, next_url: None }
}

fn deposit(addr: &str) -> DepositAddressResponse {
    DepositAddressResponse {
        asset_id: "ETH".to_string(),
        address: addr.to_string(),
        tag: None,
        description: None,
        kind: "Permanent".to_string(),
        legacy_address: None,
        customer_ref_id: None,
        address_format: None,
    }
}

#[test]
fn test_user_agent_without_custom_fragment() {
    assert_eq!(get_user_agent("0.1.0", None), "alloy-fireblocks/0.1.0");
}

#[test]
fn test_user_agent_with_custom_fragment() {
    let custom = "test".to_string();
    assert_eq!(
        get_user_agent("0.1.0", Some(&custom)),
        "alloy-fireblocks/0.1.0 test"
    );
}

#[test]
fn test_vault_accounts_with_asset_filters_and_parses() {
    let response = paged(vec![
        account("1", vec![asset("ETH")]),
        account("2", vec![asset("BTC")]),
        account("3", vec![asset("BTC"), asset("ETH")]),
        account("9000", vec![]),
    ]);
    let ids = vault_accounts_with_asset(&response, &"ETH".to_string()).unwrap();
    assert_eq!(ids, vec![1, 3]);
}

#[test]
fn test_vault_accounts_with_asset_rejects_bad_id() {
    let response = paged(vec![
        account("1", vec![asset("ETH")]),
        account("not-a-number", vec![asset("ETH")]),
    ]);
    let r = vault_accounts_with_asset(&response, &"ETH".to_string());
    assert!(matches!(r, Err(FireblocksError::ParseError(_))));
}

#[test]
fn test_vault_accounts_ignores_bad_id_without_the_asset() {
    let response = paged(vec![
        account("not-a-number", vec![asset("BTC")]),
        account("5", vec![asset("ETH")]),
    ]);
    let ids = vault_accounts_with_asset(&response, &"ETH".to_string()).unwrap();
    assert_eq!(ids, vec![5]);
}

#[test]
fn test_choose_account_address() {
    assert_eq!(choose_account_address(&Vec::new()), None);
    let addrs = vec![
        deposit("0x52908400098527886E0F7030069857D2E4169EE7"),
        deposit("0x0000000000000000000000000000000000000001"),
    ];
    assert_eq!(
        choose_account_address(&addrs).as_deref(),
        Some("0x52908400098527886E0F7030069857D2E4169EE7")
    );
}

#[test]
fn test_final_and_successful_statuses() {
    // Terminal: the success boundary and every terminal failure.
    assert!(is_final_status(&TransactionStatus::BROADCASTING));
    assert!(is_final_status(&TransactionStatus::COMPLETED));
    assert!(is_final_status(&TransactionStatus::BLOCKED));
    assert!(is_final_status(&TransactionStatus::CANCELLED));
    assert!(is_final_status(&TransactionStatus::FAILED));
    assert!(is_final_status(&TransactionStatus::REJECTED));
    assert!(is_final_status(&TransactionStatus::TIMEOUT));
    assert!(!is_final_status(&TransactionStatus::PENDING));
    assert!(!is_final_status(&TransactionStatus::SUBMITTED));
    assert!(!is_final_status(&TransactionStatus::CONFIRMING));
    assert!(!is_final_status(&TransactionStatus::CANCELLING));

    // The success boundary deliberately includes BROADCASTING.
    assert!(is_successful_status(&TransactionStatus::COMPLETED));
    assert!(is_successful_status(&TransactionStatus::BROADCASTING));
    assert!(!is_successful_status(&TransactionStatus::FAILED));
    assert!(!is_successful_status(&TransactionStatus::BLOCKED));
    assert!(!is_successful_status(&TransactionStatus::PENDING));
    assert!(!is_successful_status(&TransactionStatus::TIMEOUT));
}

#[test]
fn test_resolve_rpc_url() {
    let mut cfg = FireblocksProviderConfig::new(
        "api".to_string(),
        "pem".to_string(),
        ApiBaseUrl::Sandbox,
        ChainId::SEPOLIA,
    );
    assert_eq!(resolve_rpc_url(&cfg), "https://rpc.sepolia.org");
    cfg.rpc_url = Some("https://custom.example".to_string());
    assert_eq!(resolve_rpc_url(&cfg), "https://custom.example");
    cfg.rpc_url = None;
    assert_eq!(resolve_rpc_url(&cfg), "https://rpc.sepolia.org");
}
