//! The pieces of a token exchange: the claims asserted, the signing key, the
//! request body, and the credential made from the endpoint's answer.
use crate::credentials::{GCSCredential, GCSCredentialProvider};
use crate::encoding::{encode_form_value, form_encoded};
use crate::errors::{is_success, GcsError};
use openssl::error::ErrorStack;
use vstd::prelude::*;
use vstd::string::*;
use vstd::utf8::encode_utf8;

verus! {

#[verifier::external_type_specification]
#[verifier::external_body]
pub struct ExErrorStack(ErrorStack);

/// The OAuth scope for read-only access to storage.
pub const READ_ONLY_SCOPE: &'static str = "https://www.googleapis.com/auth/devstorage.readonly";

/// The OAuth scope for read-write access to storage.
pub const READ_WRITE_SCOPE: &'static str = "https://www.googleapis.com/auth/devstorage.read_write";

/// The token endpoint, which is also the audience of every assertion.
pub const TOKEN_URL: &'static str = "https://www.googleapis.com/oauth2/v4/token";

/// The grant type of a signed-assertion exchange.
pub const JWT_BEARER_GRANT: &'static str = "urn:ietf:params:oauth:grant-type:jwt-bearer";

/// A service-account key document.
pub struct ServiceAccountKey {
    pub key_type: String,
    pub project_id: String,
    pub private_key_id: String,
    pub private_key: String,
    pub client_email: String,
    pub client_id: String,
    pub auth_uri: String,
    pub token_uri: String,
    pub auth_provider_x509_cert_url: String,
}

/// The claims of a token-exchange assertion.
pub struct JwtClaims {
    pub issuer: String,
    pub scope: String,
    pub audience: String,
    pub expiration: i64,
    pub issued_at: i64,
}

/// The token endpoint's answer.
pub struct TokenMsg {
    pub access_token: String,
    pub token_type: String,
    pub expires_in: usize,
}

/// The scope asked for, by access mode.
pub open spec fn scope_of(read_only: bool) -> Seq<char> {
    if read_only {
        READ_ONLY_SCOPE@
    } else {
        READ_WRITE_SCOPE@
    }
}

/// The form body of an exchange of `assertion`.
pub open spec fn token_request_body_of(assertion: Seq<char>) -> Seq<char> {
    "grant_type="@ + form_encoded(encode_utf8(JWT_BEARER_GRANT@)) + "&assertion="@ + form_encoded(
        encode_utf8(assertion),
    )
}

/// The DER form of the RSA private key in the PEM text `pem`, read with an
/// empty passphrase, or `None` where `pem` holds no key that can be so read.
pub uninterp spec fn rsa_private_der(pem: Seq<u8>) -> Option<Seq<u8>>;

/// The longest PEM text that openssl reads: its buffers are indexed by `int`.
pub const MAX_PEM_LEN: usize = 0x7fff_ffff;

/// Relies on openssl's `Rsa::private_key_from_pem_passphrase` with an empty
/// passphrase, followed by `private_key_to_der`: the DER encoding of the key
/// that the PEM text holds, or the library's error where it holds none. The
/// reader panics on a text longer than `c_int::MAX` bytes.
#[verifier::external_body]
fn pem_to_der(pem: &[u8]) -> (r: Result<Vec<u8>, ErrorStack>)
    requires
        pem@.len() <= MAX_PEM_LEN,
    ensures
        r is Ok <==> rsa_private_der(pem@) is Some,
        r is Ok ==> rsa_private_der(pem@) == Some(r->Ok_0@),
{
    openssl::rsa::Rsa::private_key_from_pem_passphrase(pem, b"")?.private_key_to_der()
}

/// The key that signs assertions for `key`: its private key in DER form; a
/// configuration error where the PEM text is too long to read or holds no RSA
/// private key.
pub fn signing_key(key: &ServiceAccountKey) -> (r: Result<Vec<u8>, GcsError>)
    ensures
        encode_utf8(key.private_key@).len() > MAX_PEM_LEN ==> r is Err,
        encode_utf8(key.private_key@).len() <= MAX_PEM_LEN ==> (r is Ok <==> rsa_private_der(
            encode_utf8(key.private_key@),
        ) is Some),
        r is Ok ==> rsa_private_der(encode_utf8(key.private_key@)) == Some(r->Ok_0@),
        r is Err ==> r->Err_0 is Config,
{
    let pem = key.private_key.as_str().as_bytes();
    if pem.len() > MAX_PEM_LEN {
        return Err(GcsError::Config { message: String::from_str("private key is too long") });
    }
    match pem_to_der(pem) {
        Ok(der) => Ok(der),
        Err(e) => Err(GcsError::Config { message: e.to_string() }),
    }
}

/// The form body that exchanges the signed `assertion` for a token.
pub fn token_request_body(assertion: &str) -> (r: String)
    ensures
        r@ == token_request_body_of(assertion@),
{
    let grant = encode_form_value(JWT_BEARER_GRANT.as_bytes());
    let value = encode_form_value(assertion.as_bytes());
    let mut r = String::from_str("grant_type=");
    r.append(grant.as_str());
    r.append("&assertion=");
    r.append(value.as_str());
    r
}

/// What an answer of the token endpoint with `status` means: success for
/// 200..=299, else an exchange error carrying the status.
pub fn check_exchange_status(status: u16) -> (r: Result<(), GcsError>)
    ensures
        r is Ok <==> is_success(status),
        r is Err ==> r->Err_0 == (GcsError::AuthExchange { status }),
{
    if 200 <= status && status <= 299 {
        Ok(())
    } else {
        Err(GcsError::AuthExchange { status })
    }
}

/// The credential made from the endpoint's answer. Its expiry is the one that
/// was asserted, `expires_at`, never the lifetime that the endpoint declares.
pub fn credential_from_token(msg: TokenMsg, expires_at: i64) -> (r: GCSCredential)
    ensures
        r.token == msg.access_token,
        r.expiration_time == expires_at,
{
    GCSCredential { token: msg.access_token, expiration_time: expires_at }
}

impl GCSCredentialProvider {
    /// The scope that this provider asks for.
    pub fn scope(&self) -> (r: &'static str)
        ensures
            r@ == scope_of(self@.read_only),
    {
        if self.read_only() {
            READ_ONLY_SCOPE
        } else {
            READ_WRITE_SCOPE
        }
    }

    /// The claims asserted for `key` by an exchange begun at `issued_at` that
    /// asks for a credential valid until `expires_at`.
    pub fn claims(&self, key: &ServiceAccountKey, issued_at: i64, expires_at: i64) -> (r:
        JwtClaims)
        ensures
            r.issuer@ == key.client_email@,
            r.scope@ == scope_of(self@.read_only),
            r.audience@ == TOKEN_URL@,
            r.expiration == expires_at,
            r.issued_at == issued_at,
    {
        JwtClaims {
            issuer: key.client_email.clone(),
            scope: String::from_str(self.scope()),
            audience: String::from_str(TOKEN_URL),
            expiration: expires_at,
            issued_at,
        }
    }
}

} // verus!
