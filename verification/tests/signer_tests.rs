use rsa::pkcs8::{EncodePrivateKey, LineEnding};

use alloy_fireblocks::errors::FireblocksError;
use alloy_fireblocks::jwt::DEFAULT_TOKEN_WINDOW_SECS;
use alloy_fireblocks::signer::{asset_id_for_chain, Config, FireblocksSigner};

/// A configuration whose key slot carries unvalidated bytes: enough for
/// every test that never signs, since DER key material is checked only
/// when a signature is produced.
fn unsigned_config(chain_id: u64) -> Config {
    Config {
        key: jsonwebtoken::EncodingKey::from_rsa_der(b"unchecked test key"),
        api_key: "api-key".to_string(),
        chain_id,
        account_id: "0".to_string(),
    }
}

#[test]
fn test_asset_id_for_chain_mapping() {
    assert_eq!(asset_id_for_chain(1).as_deref(), Some("ETH"));
    assert_eq!(asset_id_for_chain(3).as_deref(), Some("ETH_TEST3"));
    assert_eq!(asset_id_for_chain(5).as_deref(), Some("ETH_TEST5"));
    assert_eq!(asset_id_for_chain(42).as_deref(), Some("ETH_TEST2"));
    assert_eq!(asset_id_for_chain(2), None);
    assert_eq!(asset_id_for_chain(11155111), None);
}

#[test]
fn test_config_new() {
    // A freshly generated RSA key is exactly the material the constructor
    // must accept.
    let mut rng = rand::thread_rng();
    let private = rsa::RsaPrivateKey::new(&mut rng, 2048).unwrap();
    let pem = private.to_pkcs8_pem(LineEnding::LF).unwrap().to_string();
    let cfg = Config::new(pem.as_bytes(), "api-key", "0", 5).unwrap();
    assert_eq!(cfg.api_key, "api-key");
    assert_eq!(cfg.account_id, "0");
    assert_eq!(cfg.chain_id, 5);
}

#[test]
fn test_config_rejects_bad_key_material() {
    let r = Config::new(b"garbage", "api-key", "0", 5);
    assert!(matches!(r, Err(FireblocksError::SignJWTError(_))));
}

#[test]
fn test_signer_assembly() {
    let signer = FireblocksSigner::new(
        unsigned_config(5),
        "0x52908400098527886E0F7030069857D2E4169EE7".to_string(),
    );
    assert_eq!(signer.chain_id, 5);
    assert_eq!(signer.asset_id, "ETH_TEST5");
    assert_eq!(signer.address, "0x52908400098527886E0F7030069857D2E4169EE7");
    assert_eq!(signer.account_id, "0");
    assert_eq!(signer.timeout, 60_000);
    assert!(signer.account_ids.is_empty());
    assert_eq!(signer.fireblocks.api_key, "api-key");
    assert_eq!(signer.fireblocks.expiry_window, DEFAULT_TOKEN_WINDOW_SECS);
}

#[test]
fn test_timeout_setter() {
    let mut signer = FireblocksSigner::new(unsigned_config(1), "0xabc".to_string());
    signer.timeout(2_500);
    assert_eq!(signer.timeout, 2_500);
    assert_eq!(signer.asset_id, "ETH");
}

#[test]
fn test_add_account_and_lookup() {
    let mut signer = FireblocksSigner::new(unsigned_config(1), "0xabc".to_string());
    let a1 = "0x0000000000000000000000000000000000000001".to_string();
    let a2 = "0x0000000000000000000000000000000000000002".to_string();
    signer.add_account("10".to_string(), a1.clone());
    signer.add_account("20".to_string(), a2.clone());
    assert_eq!(signer.account_for(&a1).map(String::as_str), Some("10"));
    assert_eq!(signer.account_for(&a2).map(String::as_str), Some("20"));
    assert_eq!(
        signer.account_for(&"0x0000000000000000000000000000000000000003".to_string()),
        None
    );
    // A later registration for the same address wins, as a map insert would.
    signer.add_account("11".to_string(), a1.clone());
    assert_eq!(signer.account_for(&a1).map(String::as_str), Some("11"));
}
