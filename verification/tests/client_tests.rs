use alloy_fireblocks::client::{
    bearer_header_value, classify_get_response, classify_post_response, deposit_addresses_path,
    vault_account_path, vault_asset_path, vault_balance_path, FireblocksClient,
};
use alloy_fireblocks::encoding::{b64url_encode, dec_i64_bytes, dec_u64_bytes, json_escape_push,
    parse_u64};
use alloy_fireblocks::errors::FireblocksError;
use alloy_fireblocks::types::ApiBaseUrl;

#[test]
fn test_paths() {
    assert_eq!(vault_account_path("7"), "/v1/vault/accounts/7");
    assert_eq!(vault_asset_path("7", "ETH"), "/v1/vault/accounts/7/ETH");
    assert_eq!(
        deposit_addresses_path("0", "ETH"),
        "/v1/vault/accounts/0/ETH/addresses"
    );
    assert_eq!(
        vault_balance_path("0", "ETH"),
        "/v1/vault/accounts/0/ETH/balance"
    );
}

#[test]
fn test_bearer_header() {
    assert_eq!(bearer_header_value("tok.en.x"), "Bearer tok.en.x");
}

#[test]
fn test_request_url() {
    let client = FireblocksClient::new(
        "pem".to_string(),
        "api".to_string(),
        ApiBaseUrl::Sandbox,
    );
    assert_eq!(
        client.request_url("/v1/supported_assets"),
        "https://sandbox-api.fireblocks.io/v1/supported_assets"
    );
}

#[test]
fn test_classify_get_response() {
    let ok = classify_get_response(200, Ok("body".to_string()));
    assert_eq!(ok.unwrap(), "body");

    let not_found = classify_get_response(404, Ok("ignored".to_string()));
    match not_found {
        Err(FireblocksError::GetError(m, s)) => {
            assert_eq!(m, "GET Unsuccessful");
            assert_eq!(s, 404);
        }
        other => panic!("expected a GET error, got {:?}", other),
    }

    let unreadable = classify_get_response(200, Err("read failed".to_string()));
    match unreadable {
        Err(FireblocksError::GetError(m, s)) => {
            assert_eq!(m, "read failed");
            assert_eq!(s, 200);
        }
        other => panic!("expected a GET error, got {:?}", other),
    }

    assert!(classify_get_response(299, Ok(String::new())).is_ok());
    assert!(classify_get_response(300, Ok(String::new())).is_err());
    assert!(classify_get_response(199, Ok(String::new())).is_err());
}

#[test]
fn test_classify_post_response() {
    assert_eq!(
        classify_post_response(201, Ok("created".to_string())).unwrap(),
        "created"
    );
    match classify_post_response(500, Ok("ignored".to_string())) {
        Err(FireblocksError::PostError(m, s)) => {
            assert_eq!(m, "POST Unsuccessful");
            assert_eq!(s, 500);
        }
        other => panic!("expected a POST error, got {:?}", other),
    }
}

#[test]
fn test_decimal_rendering() {
    assert_eq!(dec_u64_bytes(0), b"0".to_vec());
    assert_eq!(dec_u64_bytes(1234567890), b"1234567890".to_vec());
    assert_eq!(dec_u64_bytes(u64::MAX), b"18446744073709551615".to_vec());
    assert_eq!(dec_i64_bytes(-123), b"-123".to_vec());
    assert_eq!(dec_i64_bytes(i64::MIN), b"-9223372036854775808".to_vec());
    assert_eq!(dec_i64_bytes(1_700_000_000), b"1700000000".to_vec());
}

#[test]
fn test_decimal_parsing() {
    assert_eq!(parse_u64(&"0".to_string()), Some(0));
    assert_eq!(parse_u64(&"007".to_string()), Some(7));
    assert_eq!(
        parse_u64(&"18446744073709551615".to_string()),
        Some(u64::MAX)
    );
    assert_eq!(parse_u64(&"18446744073709551616".to_string()), None);
    assert_eq!(parse_u64(&String::new()), None);
    assert_eq!(parse_u64(&"12a".to_string()), None);
    assert_eq!(parse_u64(&"-5".to_string()), None);
    assert_eq!(parse_u64(&"\u{ff11}\u{ff12}".to_string()), None);
}

#[test]
fn test_base64url_vectors() {
    assert_eq!(b64url_encode(b""), b"".to_vec());
    assert_eq!(b64url_encode(b"f"), b"Zg".to_vec());
    assert_eq!(b64url_encode(b"fo"), b"Zm8".to_vec());
    assert_eq!(b64url_encode(b"foo"), b"Zm9v".to_vec());
    assert_eq!(b64url_encode(b"foob"), b"Zm9vYg".to_vec());
    assert_eq!(b64url_encode(b"fooba"), b"Zm9vYmE".to_vec());
    assert_eq!(b64url_encode(b"foobar"), b"Zm9vYmFy".to_vec());
    // Bytes that force the URL-safe alphabet characters.
    assert_eq!(b64url_encode(&[0xfb, 0xff]), b"-_8".to_vec());
}

#[test]
fn test_json_escaping() {
    let mut out: Vec<u8> = Vec::new();
    json_escape_push(&mut out, b"a\"b\\c\ndef");
    assert_eq!(out, b"a\\\"b\\\\c\\u000adef".to_vec());

    let mut tab: Vec<u8> = Vec::new();
    json_escape_push(&mut tab, b"\t");
    assert_eq!(tab, b"\\u0009".to_vec());

    let mut plain: Vec<u8> = Vec::new();
    json_escape_push(&mut plain, "caf\u{e9}".as_bytes());
    assert_eq!(plain, "caf\u{e9}".as_bytes().to_vec());
}
