//! The request signer: short-lived claims bound to one request, rendered as
//! a signed compact token.
//!
//! Everything that frames the token — the claims JSON, the base64 parts and
//! their joining — is built and verified here; only the digest, the random
//! nonce, the clock and the RSA signature itself come from outside crates,
//! each behind a contract.

use vstd::prelude::*;
use vstd::string::StringSliceAdditionalSpecFns;

use sha2::Digest;

use crate::encoding::{
    ascii_chars_of, ascii_to_string, b64url_bytes, b64url_encode, dec_i64_bytes, dec_int_bytes,
    dec_u64_bytes, dec_digits, hex_encode, hex_of, json_escape_bytes, json_escape_push,
    lemma_b64url_ascii,
};
use crate::errors::JwtError;

verus! {

/// How long a token stays valid, in seconds: `exp` is always `iat` plus the
/// signer's configured window, and this is the default window.
pub const DEFAULT_TOKEN_WINDOW_SECS: i64 = 30;

/// The digest that `sha2::Sha256` assigns to a byte sequence.
pub uninterp spec fn sha256_of(data: Seq<u8>) -> Seq<u8>;

/// Relies on `sha2::Sha256::digest`: a 32-byte digest that depends on the
/// input bytes alone.
#[verifier::external_body]
fn sha256_digest(data: &[u8]) -> (r: Vec<u8>)
    ensures
        r@ == sha256_of(data@),
        r@.len() == 32,
{
    sha2::Sha256::digest(data).to_vec()
}

#[verifier::external_type_specification]
#[verifier::external_body]
pub struct ExEncodingKey(jsonwebtoken::EncodingKey);

#[verifier::external_type_specification]
#[verifier::external_body]
pub struct ExJwtLibError(jsonwebtoken::errors::Error);

/// Relies on `jsonwebtoken::EncodingKey`'s `Clone`: an opaque copy of the
/// key material; nothing further is claimed of it.
pub assume_specification[ <jsonwebtoken::EncodingKey as core::clone::Clone>::clone ](
    k: &jsonwebtoken::EncodingKey,
) -> jsonwebtoken::EncodingKey;

/// Whether `jsonwebtoken::EncodingKey::from_rsa_pem` accepts these bytes as
/// RSA PEM key material.
pub uninterp spec fn rsa_pem_ok(pem: Seq<u8>) -> bool;

/// Relies on `jsonwebtoken::EncodingKey::from_rsa_pem`: pure parsing, so
/// whether it succeeds depends on the given bytes alone, here named
/// `rsa_pem_ok`; it succeeds exactly on well-formed RSA PEM key material.
#[verifier::external_body]
pub(crate) fn rsa_key_from_pem(pem: &[u8]) -> (r: Result<
    jsonwebtoken::EncodingKey,
    jsonwebtoken::errors::Error,
>)
    ensures
        r is Ok <==> rsa_pem_ok(pem@),
{
    jsonwebtoken::EncodingKey::from_rsa_pem(pem)
}

/// Relies on `jsonwebtoken::crypto::sign` with RS256: produces the encoded
/// signature text over exactly the given message bytes, or an error the
/// library alone decides.
#[verifier::external_body]
fn rs256_sign(message: &[u8], key: &jsonwebtoken::EncodingKey) -> (r: Result<
    String,
    jsonwebtoken::errors::Error,
>)
{
    jsonwebtoken::crypto::sign(message, key, jsonwebtoken::Algorithm::RS256)
}

/// Relies on the `Display` form of `jsonwebtoken::errors::Error` for the
/// human-readable failure text.
#[verifier::external_body]
pub(crate) fn jwt_error_message(e: &jsonwebtoken::errors::Error) -> (r: String) {
    e.to_string()
}

/// Relies on `uuid::Uuid::new_v4` and its `Display` form: a fresh random
/// UUID rendered as 36 hyphenated lowercase hex characters.
#[verifier::external_body]
fn fresh_uuid_string() -> (r: String)
    ensures
        r@.len() == 36,
{
    uuid::Uuid::new_v4().to_string()
}

/// Draws a fresh single-use nonce: a newly generated random UUID, rendered
/// in its 36-character hyphenated form. Nothing further can be said of a
/// random draw; what a claims record does with a drawn nonce is said by
/// [`Claims::build`].
pub fn fresh_nonce() -> (r: String)
    ensures
        r@.len() == 36,
{
    fresh_uuid_string()
}

/// Relies on `chrono::Utc::now().timestamp()`: the wall clock in unix
/// seconds; nothing can be promised of its value.
#[verifier::external_body]
fn unix_now_seconds() -> (r: i64) {
    chrono::Utc::now().timestamp()
}

/// Relies on `rand::random`: a uniformly random value; nothing can be
/// promised of it.
#[verifier::external_body]
fn random_u64() -> (r: u64) {
    rand::random::<u64>()
}

/// The exact bytes a request body contributes to the token: the body's own
/// bytes, or the empty sequence when there is no body.
pub open spec fn body_bytes_of(body: Option<&str>) -> Seq<u8> {
    match body {
        Some(b) => b.spec_bytes(),
        None => Seq::empty(),
    }
}

/// The claims of one signed request. Every field is bound into the token:
/// `uri` is the request path, `nonce` a single-use random value, `iat` and
/// `exp` the unix-second validity bounds, `sub` the caller identity, and
/// `body_hash` the hex digest of the exact request body bytes.
pub struct Claims {
    pub uri: String,
    pub nonce: String,
    pub iat: i64,
    pub exp: i64,
    pub sub: String,
    pub body_hash: String,
}

/// The JSON rendering of a claims record, with every text field escaped.
pub open spec fn spec_claims_json(c: Claims) -> Seq<u8> {
    vstd::utf8::encode_utf8("{\"uri\":\""@) + json_escape_bytes(vstd::utf8::encode_utf8(c.uri@))
        + vstd::utf8::encode_utf8("\",\"nonce\":\""@) + json_escape_bytes(
        vstd::utf8::encode_utf8(c.nonce@),
    ) + vstd::utf8::encode_utf8("\",\"iat\":"@) + dec_int_bytes(c.iat as int)
        + vstd::utf8::encode_utf8(",\"exp\":"@) + dec_int_bytes(c.exp as int)
        + vstd::utf8::encode_utf8(",\"sub\":\""@) + json_escape_bytes(
        vstd::utf8::encode_utf8(c.sub@),
    ) + vstd::utf8::encode_utf8("\",\"bodyHash\":\""@) + json_escape_bytes(
        vstd::utf8::encode_utf8(c.body_hash@),
    ) + vstd::utf8::encode_utf8("\"}"@)
}

/// The fixed token header: RS256, JWT.
pub open spec fn spec_header_json() -> Seq<u8> {
    vstd::utf8::encode_utf8("{\"alg\":\"RS256\",\"typ\":\"JWT\"}"@)
}

/// The bytes that get signed: base64 of the header, a dot, base64 of the
/// claims JSON.
pub open spec fn spec_signing_input(c: Claims) -> Seq<u8> {
    b64url_bytes(spec_header_json()) + seq![46u8] + b64url_bytes(spec_claims_json(c))
}

/// Whether `tok` is a compact token carrying exactly the claims `c`: the
/// signing input for `c`, a dot, and some signature text.
pub open spec fn spec_token_of(c: Claims, tok: Seq<char>) -> bool {
    exists|sig: Seq<char>| tok == ascii_chars_of(spec_signing_input(c)) + "."@ + sig
}

/// Whether `tok` is a signed request token binding the path `uri`, the
/// caller `sub`, the body bytes `body` and the validity window `window`:
/// some claims record with exactly those bindings — its `body_hash` the hex
/// digest of `body`, its `exp` exactly `window` past its `iat` — rendered
/// and signed as a compact token.
pub open spec fn spec_signed_request_token(
    tok: Seq<char>,
    uri: Seq<char>,
    sub: Seq<char>,
    body: Seq<u8>,
    window: int,
) -> bool {
    exists|c: Claims|
        #[trigger] spec_token_of(c, tok) && c.uri@ == uri && c.sub@ == sub && c.body_hash@
            == hex_of(sha256_of(body)) && c.exp - c.iat == window
}

impl Claims {
    /// Builds the claims of one request from already-drawn freshness
    /// values: the nonce and the issue time.
    pub fn build(
        uri: &str,
        sub: &str,
        body: Option<&str>,
        nonce: String,
        iat: i64,
        window: i64,
    ) -> (c: Claims)
        requires
            0 <= window,
            iat <= i64::MAX - window,
        ensures
            c.uri@ == uri@,
            c.sub@ == sub@,
            c.nonce == nonce,
            c.iat == iat,
            c.exp == iat + window,
            c.body_hash@ == hex_of(sha256_of(body_bytes_of(body))),
            c.body_hash@.len() == 64,
    {
        let digest = match body {
            Some(b) => sha256_digest(b.as_bytes()),
            None => {
                let empty: Vec<u8> = Vec::new();
                proof {
                    assert(empty@ =~= body_bytes_of(None));
                }
                sha256_digest(empty.as_slice())
            },
        };
        let body_hash = hex_encode(digest.as_slice());
        proof {
            crate::encoding::lemma_hex_of_len(sha256_of(body_bytes_of(body)));
        }
        Claims {
            uri: uri.to_owned(),
            nonce,
            iat,
            exp: iat + window,
            sub: sub.to_owned(),
            body_hash,
        }
    }

    /// Draws a fresh random nonce and the current time, and builds the
    /// claims of one request. Fails only when the clock cannot be combined
    /// with the window without overflow.
    pub fn new(uri: &str, sub: &str, body: Option<&str>, window: i64) -> (r: Result<
        Claims,
        JwtError,
    >)
        requires
            0 <= window,
        ensures
            match r {
                Ok(c) => c.uri@ == uri@ && c.sub@ == sub@ && c.body_hash@ == hex_of(
                    sha256_of(body_bytes_of(body)),
                ) && c.body_hash@.len() == 64 && c.exp - c.iat == window && c.nonce@.len() == 36,
                Err(e) => e is Time,
            },
    {
        let now = unix_now_seconds();
        if now > i64::MAX - window {
            return Err(JwtError::Time(String::from_str(
                "issue time too large for the expiry window",
            )));
        }
        let nonce = fresh_nonce();
        Ok(Claims::build(uri, sub, body, nonce, now, window))
    }
}

/// Renders the claims as their JSON object, field order fixed, text fields
/// escaped.
pub fn claims_json(c: &Claims) -> (r: Vec<u8>)
    ensures
        r@ == spec_claims_json(*c),
{
    let mut out: Vec<u8> = Vec::new();
    out.extend_from_slice("{\"uri\":\"".as_bytes());
    json_escape_push(&mut out, c.uri.as_str().as_bytes());
    out.extend_from_slice("\",\"nonce\":\"".as_bytes());
    json_escape_push(&mut out, c.nonce.as_str().as_bytes());
    out.extend_from_slice("\",\"iat\":".as_bytes());
    let mut iat = dec_i64_bytes(c.iat);
    out.append(&mut iat);
    out.extend_from_slice(",\"exp\":".as_bytes());
    let mut exp = dec_i64_bytes(c.exp);
    out.append(&mut exp);
    out.extend_from_slice(",\"sub\":\"".as_bytes());
    json_escape_push(&mut out, c.sub.as_str().as_bytes());
    out.extend_from_slice("\",\"bodyHash\":\"".as_bytes());
    json_escape_push(&mut out, c.body_hash.as_str().as_bytes());
    out.extend_from_slice("\"}".as_bytes());
    proof {
        assert(out@ =~= spec_claims_json(*c));
    }
    out
}

/// Signs a claims record with an RSA key: verified framing around the
/// library's RS256 signature.
pub fn encode_rs256(c: &Claims, key: &jsonwebtoken::EncodingKey) -> (r: Result<String, JwtError>)
    ensures
        r matches Ok(t) ==> spec_token_of(*c, t@),
        r matches Err(e) ==> e is Jwt,
{
    let header = "{\"alg\":\"RS256\",\"typ\":\"JWT\"}";
    let mut msg: Vec<u8> = b64url_encode(header.as_bytes());
    msg.push(46);
    let cj = claims_json(c);
    let mut cb = b64url_encode(cj.as_slice());
    msg.append(&mut cb);
    proof {
        assert(msg@ =~= spec_signing_input(*c));
    }
    let signature = match rs256_sign(msg.as_slice(), key) {
        Ok(s) => s,
        Err(e) => {
            return Err(JwtError::Jwt(jwt_error_message(&e)));
        },
    };
    proof {
        lemma_b64url_ascii(spec_header_json());
        lemma_b64url_ascii(spec_claims_json(*c));
        assert forall|i: int| 0 <= i < msg@.len() implies msg@[i] < 128 by {
            let hlen = b64url_bytes(spec_header_json()).len() as int;
            if i < hlen {
                assert(msg@[i] == b64url_bytes(spec_header_json())[i]);
            } else if i == hlen {
                assert(msg@[i] == 46u8);
            } else {
                assert(msg@[i] == b64url_bytes(spec_claims_json(*c))[i - hlen - 1]);
            }
        }
    }
    let ghost prefix = msg@;
    let mut token = ascii_to_string(msg);
    token.append(".");
    token.append(signature.as_str());
    proof {
        assert(token@ == ascii_chars_of(spec_signing_input(*c)) + "."@ + signature@);
        assert(spec_token_of(*c, token@));
    }
    Ok(token)
}

/// A reusable signer holding parsed RSA key material and the caller
/// identity. It keeps no mutable state: every `sign` call draws its own
/// freshness values, so one signer is safe to share.
#[derive(Clone)]
pub struct JwtSigner {
    pub key: jsonwebtoken::EncodingKey,
    pub api_key: String,
    pub expiry_window: i64,
}

impl JwtSigner {
    /// Wraps parsed key material and the caller identity, with the default
    /// validity window.
    pub fn new(key: jsonwebtoken::EncodingKey, api_key: &str) -> (s: Self)
        ensures
            s.api_key@ == api_key@,
            s.expiry_window == DEFAULT_TOKEN_WINDOW_SECS,
    {
        JwtSigner {
            key,
            api_key: api_key.to_owned(),
            expiry_window: DEFAULT_TOKEN_WINDOW_SECS,
        }
    }

    /// Reconfigures the validity window.
    pub fn with_expiry_window(self, secs: i64) -> (s: Self)
        requires
            0 <= secs,
        ensures
            s.api_key == self.api_key,
            s.key == self.key,
            s.expiry_window == secs,
    {
        JwtSigner { expiry_window: secs, ..self }
    }

    /// Signs one request: draws a fresh random nonce and the current time,
    /// binds them with the path, the caller identity and the digest of the
    /// body bytes, and returns the signed compact token.
    pub fn sign(&self, path: &str, body: Option<&str>) -> (r: Result<String, JwtError>)
        ensures
            r matches Ok(t) ==> spec_signed_request_token(
                t@,
                path@,
                self.api_key@,
                body_bytes_of(body),
                self.expiry_window as int,
            ),
            self.expiry_window < 0 ==> r is Err,
            r matches Err(e) ==> (e is Time || e is Jwt),
    {
        let window = self.expiry_window;
        if window < 0 {
            return Err(JwtError::Time(String::from_str("negative expiry window")));
        }
        let now = unix_now_seconds();
        if now > i64::MAX - window {
            return Err(JwtError::Time(String::from_str(
                "issue time too large for the expiry window",
            )));
        }
        let nonce_value = random_u64();
        let nonce_digits = dec_u64_bytes(nonce_value);
        proof {
            lemma_dec_digits_ascii(nonce_value as nat);
        }
        let nonce = ascii_to_string(nonce_digits);
        let claims = Claims::build(path, &self.api_key, body, nonce, now, window);
        let token = match encode_rs256(&claims, &self.key) {
            Ok(t) => t,
            Err(e) => {
                return Err(e);
            },
        };
        proof {
            assert(spec_token_of(claims, token@));
            assert(spec_signed_request_token(
                token@,
                path@,
                self.api_key@,
                body_bytes_of(body),
                window as int,
            ));
        }
        Ok(token)
    }
}

/// Decimal digits are ASCII.
proof fn lemma_dec_digits_ascii(n: nat)
    ensures
        forall|i: int| 0 <= i < dec_digits(n).len() ==> dec_digits(n)[i] < 128,
    decreases n,
{
    if n >= 10 {
        lemma_dec_digits_ascii(n / 10);
        assert forall|i: int| 0 <= i < dec_digits(n).len() implies dec_digits(n)[i] < 128 by {
            if i < dec_digits(n / 10).len() {
                assert(dec_digits(n)[i] == dec_digits(n / 10)[i]);
            }
        }
    }
}

} // verus!
