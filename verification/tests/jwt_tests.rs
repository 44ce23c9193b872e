use std::collections::HashSet;
use std::sync::OnceLock;

use rsa::pkcs8::{EncodePrivateKey, EncodePublicKey, LineEnding};

use alloy_fireblocks::client::FireblocksClient;
use alloy_fireblocks::errors::FireblocksError;
use alloy_fireblocks::jwt::{fresh_nonce, Claims, JwtSigner, DEFAULT_TOKEN_WINDOW_SECS};
use alloy_fireblocks::types::ApiBaseUrl;

/// SHA-256 of the empty byte sequence, in lowercase hex.
const EMPTY_SHA256_HEX: &str = "e3b0c44298fc1c149afbf4c8996fb92427ae41e4649b934ca495991b7852b855";

/// SHA-256 of the three bytes `abc`, in lowercase hex.
const ABC_SHA256_HEX: &str = "ba7816bf8f01cfea414140de5dae2223b00361a396177a9cb410ff61f20015ad";

/// A throwaway RSA keypair generated for this test run: the private and the
/// public key, both as PEM text.
fn test_keys() -> &'static (String, String) {
    static KEYS: OnceLock<(String, String)> = OnceLock::new();
    KEYS.get_or_init(|| {
        let mut rng = rand::thread_rng();
        let private = rsa::RsaPrivateKey::new(&mut rng, 2048).unwrap();
        let public = rsa::RsaPublicKey::from(&private);
        let private_pem = private.to_pkcs8_pem(LineEnding::LF).unwrap().to_string();
        let public_pem = public.to_public_key_pem(LineEnding::LF).unwrap();
        (private_pem, public_pem)
    })
}

fn decode_claims(token: &str) -> serde_json::Value {
    let (_, public_pem) = test_keys();
    let key = jsonwebtoken::DecodingKey::from_rsa_pem(public_pem.as_bytes()).unwrap();
    let validation = jsonwebtoken::Validation::new(jsonwebtoken::Algorithm::RS256);
    jsonwebtoken::decode::<serde_json::Value>(token, &key, &validation)
        .unwrap()
        .claims
}

fn test_client() -> FireblocksClient {
    let (private_pem, _) = test_keys();
    FireblocksClient::new(
        private_pem.clone(),
        "my-api-key".to_string(),
        ApiBaseUrl::Sandbox,
    )
}

#[test]
fn test_body_hash_of_body_bytes() {
    let c = Claims::build(
        "/v1/transactions",
        "sub",
        Some("abc"),
        "nonce".to_string(),
        1_700_000_000,
        30,
    );
    assert_eq!(c.body_hash, ABC_SHA256_HEX);
}

#[test]
fn test_body_hash_of_missing_body() {
    let c = Claims::build(
        "/v1/transactions",
        "sub",
        None,
        "nonce".to_string(),
        1_700_000_000,
        30,
    );
    assert_eq!(c.body_hash, EMPTY_SHA256_HEX);
}

#[test]
fn test_window_is_exact() {
    let c = Claims::build("/p", "s", None, "n".to_string(), 1_700_000_000, 30);
    assert_eq!(c.exp - c.iat, 30);
    let c55 = Claims::new("/p", "s", None, 55).unwrap();
    assert_eq!(c55.exp - c55.iat, 55);
}

#[test]
fn test_fresh_claims_fields() {
    let c = Claims::new("/v1/vault/accounts_paged", "key-id", Some("abc"), 30).unwrap();
    assert_eq!(c.uri, "/v1/vault/accounts_paged");
    assert_eq!(c.sub, "key-id");
    assert_eq!(c.body_hash, ABC_SHA256_HEX);
    assert_eq!(c.exp - c.iat, 30);
    assert_eq!(c.nonce.len(), 36);
}

#[test]
fn test_fresh_nonce_form_and_freshness() {
    let n1 = fresh_nonce();
    let n2 = fresh_nonce();
    assert_eq!(n1.len(), 36);
    assert_eq!(n2.len(), 36);
    assert_ne!(n1, n2);
}

#[test]
fn test_nonces_distinct_over_ten_thousand_calls() {
    let mut nonces: HashSet<String> = HashSet::new();
    for _ in 0..10_000 {
        let c = Claims::new("/p", "s", None, 30).unwrap();
        nonces.insert(c.nonce);
    }
    assert_eq!(nonces.len(), 10_000);
}

#[test]
fn test_sign_jwt_roundtrip() {
    let client = test_client();

    // A GET has no body: the token must carry the digest of the empty
    // byte sequence and the full set of claim bindings.
    let token = client.sign_jwt("/v1/vault/accounts_paged", None).unwrap();
    assert_eq!(token.split('.').count(), 3);
    let claims = decode_claims(&token);
    assert_eq!(claims["uri"], "/v1/vault/accounts_paged");
    assert_eq!(claims["sub"], "my-api-key");
    assert_eq!(claims["bodyHash"], EMPTY_SHA256_HEX);
    let iat = claims["iat"].as_i64().unwrap();
    let exp = claims["exp"].as_i64().unwrap();
    assert_eq!(exp - iat, DEFAULT_TOKEN_WINDOW_SECS);
    assert_eq!(claims["nonce"].as_str().unwrap().len(), 36);

    // A POST binds the digest of its exact body bytes.
    let with_body = client.sign_jwt("/v1/transactions", Some("abc")).unwrap();
    assert_eq!(decode_claims(&with_body)["bodyHash"], ABC_SHA256_HEX);

    // Text that needs JSON escaping survives the trip unchanged.
    let path = "/v1/\"quoted\"\\back\ttab";
    let escaped = client.sign_jwt(path, None).unwrap();
    assert_eq!(decode_claims(&escaped)["uri"], path);

    // Each call draws its own nonce.
    let t1 = client.sign_jwt("/p", None).unwrap();
    let t2 = client.sign_jwt("/p", None).unwrap();
    let n1 = decode_claims(&t1)["nonce"].as_str().unwrap().to_string();
    let n2 = decode_claims(&t2)["nonce"].as_str().unwrap().to_string();
    assert_ne!(n1, n2);
}

#[test]
fn test_sign_jwt_rejects_malformed_key() {
    let client = FireblocksClient::new(
        "not a pem at all".to_string(),
        "my-api-key".to_string(),
        ApiBaseUrl::Sandbox,
    );
    let r = client.sign_jwt("/v1/vault/accounts_paged", None);
    assert!(matches!(r, Err(FireblocksError::SignJWTError(_))));
}

#[test]
fn test_jwt_signer_roundtrip() {
    let (private_pem, _) = test_keys();
    let key = jsonwebtoken::EncodingKey::from_rsa_pem(private_pem.as_bytes()).unwrap();
    let signer = JwtSigner::new(key, "key-id");
    assert_eq!(signer.expiry_window, DEFAULT_TOKEN_WINDOW_SECS);

    // The window is configuration, and the token carries it exactly.
    let signer = signer.with_expiry_window(55);
    assert_eq!(signer.expiry_window, 55);
    let token = signer.sign("/v1/transactions", Some("abc")).unwrap();
    let claims = decode_claims(&token);
    assert_eq!(claims["sub"], "key-id");
    assert_eq!(claims["bodyHash"], ABC_SHA256_HEX);
    let iat = claims["iat"].as_i64().unwrap();
    let exp = claims["exp"].as_i64().unwrap();
    assert_eq!(exp - iat, 55);

    // This signer's nonce is a decimal rendering of a random draw, fresh
    // on every call.
    let t1 = signer.sign("/p", None).unwrap();
    let t2 = signer.sign("/p", None).unwrap();
    let n1 = decode_claims(&t1)["nonce"].as_str().unwrap().to_string();
    let n2 = decode_claims(&t2)["nonce"].as_str().unwrap().to_string();
    assert!(n1.chars().all(|c| c.is_ascii_digit()));
    assert!(n2.chars().all(|c| c.is_ascii_digit()));
    assert_ne!(n1, n2);
}

#[test]
fn test_jwt_signer_rejects_wrong_key_family() {
    // An HMAC secret is not RSA key material, so RS256 signing must fail.
    let key = jsonwebtoken::EncodingKey::from_secret(b"not-an-rsa-key");
    let signer = JwtSigner::new(key, "key-id");
    let r = signer.sign("/p", None);
    assert!(matches!(r, Err(alloy_fireblocks::errors::JwtError::Jwt(_))));
}
