//! The API client: request signing, path and header assembly, and response
//! status classification. The HTTP transport that carries the requests is a
//! collaborator of the caller's choosing.

use vstd::prelude::*;

use crate::errors::{FireblocksError, JwtError};
use crate::jwt::{
    body_bytes_of, encode_rs256, jwt_error_message, rsa_key_from_pem, rsa_pem_ok,
    spec_signed_request_token, spec_token_of, Claims, DEFAULT_TOKEN_WINDOW_SECS,
};
use vstd::string::StringSliceAdditionalSpecFns;
use crate::types::ApiBaseUrl;

verus! {

/// A client for the remote signing service: RSA key material in PEM form,
/// the caller's API key, and the environment to talk to. It holds no
/// mutable state, so one client is safe to share.
#[derive(Clone)]
pub struct FireblocksClient {
    /// RSA private key in PEM form, as handed over by the service.
    pub private_key: String,
    /// The API key identifying the caller.
    pub api_key: String,
    /// The environment whose base URL requests go to.
    pub api_url: ApiBaseUrl,
    /// The token validity window, in seconds.
    pub expiry_window: i64,
}

impl FireblocksClient {
    /// Creates a client from credentials, with the default token window.
    pub fn new(private_key: String, api_key: String, api_url: ApiBaseUrl) -> (c: Self)
        ensures
            c.private_key == private_key,
            c.api_key == api_key,
            c.api_url == api_url,
            c.expiry_window == DEFAULT_TOKEN_WINDOW_SECS,
    {
        FireblocksClient {
            private_key,
            api_key,
            api_url,
            expiry_window: DEFAULT_TOKEN_WINDOW_SECS,
        }
    }

    /// Reconfigures the token validity window.
    pub fn with_expiry_window(self, secs: i64) -> (c: Self)
        requires
            0 <= secs,
        ensures
            c.private_key == self.private_key,
            c.api_key == self.api_key,
            c.api_url == self.api_url,
            c.expiry_window == secs,
    {
        FireblocksClient { expiry_window: secs, ..self }
    }

    /// Signs one outbound request: produces a token that binds the path,
    /// the API key, the digest of the exact body bytes, and a fresh nonce
    /// and issue time, valid for exactly the configured window. Key
    /// material that the signing library rejects, or a negative window,
    /// forces an error; on an error no token exists and the caller must
    /// abort the request.
    pub fn sign_jwt(&self, path: &str, body: Option<&str>) -> (r: Result<String, FireblocksError>)
        ensures
            r matches Ok(t) ==> spec_signed_request_token(
                t@,
                path@,
                self.api_key@,
                body_bytes_of(body),
                self.expiry_window as int,
            ),
            r matches Ok(t) ==> rsa_pem_ok(vstd::utf8::encode_utf8(self.private_key@))
                && self.expiry_window >= 0,
            self.expiry_window < 0 ==> r is Err,
            !rsa_pem_ok(vstd::utf8::encode_utf8(self.private_key@)) ==> r is Err,
            r matches Err(e) ==> e is SignJWTError,
    {
        if self.expiry_window < 0 {
            return Err(FireblocksError::SignJWTError(String::from_str(
                "negative expiry window",
            )));
        }
        let key = match rsa_key_from_pem(self.private_key.as_str().as_bytes()) {
            Ok(k) => k,
            Err(e) => {
                return Err(FireblocksError::SignJWTError(jwt_error_message(&e)));
            },
        };
        let claims = match Claims::new(path, &self.api_key, body, self.expiry_window) {
            Ok(c) => c,
            Err(e) => {
                return Err(FireblocksError::SignJWTError(match e {
                    JwtError::Time(m) => m,
                    JwtError::Jwt(m) => m,
                }));
            },
        };
        match encode_rs256(&claims, &key) {
            Ok(t) => {
                proof {
                    assert(spec_token_of(claims, t@));
                }
                Ok(t)
            },
            Err(e) => Err(FireblocksError::SignJWTError(match e {
                JwtError::Time(m) => m,
                JwtError::Jwt(m) => m,
            })),
        }
    }

    /// The absolute URL of a request: the environment's base URL, then the
    /// path.
    pub fn request_url(&self, path: &str) -> (r: String)
        ensures
            r@ == self.api_url.spec_value() + path@,
    {
        String::from_str(self.api_url.value()).concat(path)
    }
}

/// The value of the authorization header carrying a token.
pub fn bearer_header_value(token: &str) -> (r: String)
    ensures
        r@ == "Bearer "@ + token@,
{
    String::from_str("Bearer ").concat(token)
}

/// The path of one vault account.
pub fn vault_account_path(vault_id: &str) -> (r: String)
    ensures
        r@ == "/v1/vault/accounts/"@ + vault_id@,
{
    String::from_str("/v1/vault/accounts/").concat(vault_id)
}

/// The path of one asset inside a vault account.
pub fn vault_asset_path(vault_id: &str, asset_id: &str) -> (r: String)
    ensures
        r@ == "/v1/vault/accounts/"@ + vault_id@ + "/"@ + asset_id@,
{
    String::from_str("/v1/vault/accounts/").concat(vault_id).concat("/").concat(asset_id)
}

/// The path of the deposit addresses of an asset inside a vault account.
pub fn deposit_addresses_path(vault_id: &str, asset_id: &str) -> (r: String)
    ensures
        r@ == "/v1/vault/accounts/"@ + vault_id@ + "/"@ + asset_id@ + "/addresses"@,
{
    String::from_str("/v1/vault/accounts/").concat(vault_id).concat("/").concat(asset_id).concat(
        "/addresses",
    )
}

/// The path that refreshes the balance of an asset inside a vault account.
pub fn vault_balance_path(vault_id: &str, asset_id: &str) -> (r: String)
    ensures
        r@ == "/v1/vault/accounts/"@ + vault_id@ + "/"@ + asset_id@ + "/balance"@,
{
    String::from_str("/v1/vault/accounts/").concat(vault_id).concat("/").concat(asset_id).concat(
        "/balance",
    )
}

/// Whether an HTTP status code reports success.
pub open spec fn spec_is_success_code(status: u16) -> bool {
    200 <= status < 300
}

/// Settles a GET exchange: the response text on a successful status, a
/// `GetError` carrying the status code otherwise — either the fixed text
/// for an unsuccessful status, or the transport's own text when the body
/// could not be read.
pub fn classify_get_response(status: u16, body: Result<String, String>) -> (r: Result<
    String,
    FireblocksError,
>)
    ensures
        match r {
            Ok(t) => spec_is_success_code(status) && (body matches Ok(b) && t == b),
            Err(e) => e matches FireblocksError::GetError(m, s) && s == status && if spec_is_success_code(
                status,
            ) {
                body matches Err(berr) && m == berr
            } else {
                m@ == "GET Unsuccessful"@
            },
        },
{
    if !(status >= 200 && status < 300) {
        return Err(FireblocksError::GetError(String::from_str("GET Unsuccessful"), status));
    }
    match body {
        Ok(t) => Ok(t),
        Err(m) => Err(FireblocksError::GetError(m, status)),
    }
}

/// Settles a POST exchange, as `classify_get_response` does for GET.
pub fn classify_post_response(status: u16, body: Result<String, String>) -> (r: Result<
    String,
    FireblocksError,
>)
    ensures
        match r {
            Ok(t) => spec_is_success_code(status) && (body matches Ok(b) && t == b),
            Err(e) => e matches FireblocksError::PostError(m, s) && s == status && if spec_is_success_code(
                status,
            ) {
                body matches Err(berr) && m == berr
            } else {
                m@ == "POST Unsuccessful"@
            },
        },
{
    if !(status >= 200 && status < 300) {
        return Err(FireblocksError::PostError(String::from_str("POST Unsuccessful"), status));
    }
    match body {
        Ok(t) => Ok(t),
        Err(m) => Err(FireblocksError::PostError(m, status)),
    }
}

} // verus!
