use gcs_cache::bucket::Bucket;
use gcs_cache::cache::{GCSCache, Lookup};
use gcs_cache::credentials::{
    Access, CredentialState, GCSCredential, GCSCredentialProvider, TOKEN_LIFETIME_SECS,
};
use gcs_cache::errors::GcsError;
use gcs_cache::token::{
    check_exchange_status, credential_from_token, signing_key, token_request_body,
    ServiceAccountKey, TokenMsg, READ_ONLY_SCOPE, READ_WRITE_SCOPE, TOKEN_URL,
};

fn provider() -> GCSCredentialProvider {
    GCSCredentialProvider::new(false, "/nonexistent/key.json".to_string())
}

fn credential(token: &str, expiration_time: i64) -> GCSCredential {
    GCSCredential { token: token.to_string(), expiration_time }
}

fn service_key(pem: &str) -> ServiceAccountKey {
    ServiceAccountKey {
        key_type: "service_account".to_string(),
        project_id: "project".to_string(),
        private_key_id: "id".to_string(),
        private_key: pem.to_string(),
        client_email: "builder@project.iam.gserviceaccount.com".to_string(),
        client_id: "1".to_string(),
        auth_uri: "https://accounts.google.com/o/oauth2/auth".to_string(),
        token_uri: TOKEN_URL.to_string(),
        auth_provider_x509_cert_url: "https://www.googleapis.com/oauth2/v1/certs".to_string(),
    }
}

fn refresh_flight(a: &Access) -> (u64, i64) {
    match a {
        Access::Refresh { flight, expires_at } => (*flight, *expires_at),
        _ => panic!("expected a refresh"),
    }
}

#[test]
fn new_provider_is_empty() {
    let p = GCSCredentialProvider::new(true, "key.json".to_string());
    assert!(p.read_only());
    assert_eq!(p.credentials_path(), "key.json");
    assert!(matches!(p.state(), CredentialState::Empty));
}

#[test]
fn concurrent_requests_on_empty_slot_share_one_exchange() {
    let mut p = provider();
    let first = p.credentials(1000);
    let (flight, expires_at) = refresh_flight(&first);
    assert_eq!(expires_at, 1000 + 3540);
    for now in [1000, 1001, 1500, 5000] {
        match p.credentials(now) {
            Access::Join { flight: f } => assert_eq!(f, flight),
            _ => panic!("a second exchange was started"),
        }
    }
    p.complete(flight, Ok::<GCSCredential, GcsError>(credential("tok", expires_at)));
    match p.credentials(2000) {
        Access::Ready { credential } => {
            assert_eq!(credential.token, "tok");
            assert_eq!(credential.expiration_time, 4540);
        }
        _ => panic!("expected the minted credential"),
    }
}

#[test]
fn expired_credential_is_never_handed_out() {
    let mut p = provider();
    let (flight, _) = refresh_flight(&p.credentials(0));
    p.complete(flight, Ok::<GCSCredential, GcsError>(credential("old", 100)));
    assert!(matches!(p.credentials(99), Access::Ready { .. }));
    let (second, expires_at) = refresh_flight(&p.credentials(100));
    assert_ne!(second, flight);
    assert_eq!(expires_at, 100 + TOKEN_LIFETIME_SECS);
    assert!(matches!(p.credentials(100), Access::Join { flight } if flight == second));
    assert!(matches!(p.credentials(250), Access::Join { flight } if flight == second));
}

#[test]
fn failed_exchange_empties_slot_and_next_request_retries() {
    let mut p = provider();
    let (flight, _) = refresh_flight(&p.credentials(10));
    p.complete(flight, Err::<GCSCredential, GcsError>(GcsError::AuthExchange { status: 500 }));
    assert!(matches!(p.state(), CredentialState::Empty));
    let (again, _) = refresh_flight(&p.credentials(11));
    assert_ne!(again, flight);
}

#[test]
fn stale_completion_is_ignored() {
    let mut p = provider();
    let (flight, _) = refresh_flight(&p.credentials(10));
    p.complete(flight + 7, Ok::<GCSCredential, GcsError>(credential("x", 1000)));
    assert!(matches!(p.state(), CredentialState::Refreshing { flight: f } if *f == flight));
}

#[test]
fn expiry_saturates_at_the_last_instant() {
    let mut p = provider();
    let (_, expires_at) = refresh_flight(&p.credentials(i64::MAX - 10));
    assert_eq!(expires_at, i64::MAX);
}

#[test]
fn credential_validity_is_strict() {
    let c = credential("t", 50);
    assert!(c.is_valid_at(49));
    assert!(!c.is_valid_at(50));
    assert!(!c.is_valid_at(51));
}

#[test]
fn missing_key_file_fails_refresh_but_lookup_is_a_miss() {
    let mut p = provider();
    let (flight, _) = refresh_flight(&p.credentials(0));
    let failure = GcsError::Config { message: "Couldn't stat GCS credentials file".to_string() };
    p.complete(flight, Err::<GCSCredential, GcsError>(failure.duplicate()));
    assert!(matches!(p.state(), CredentialState::Empty));
    assert!(matches!(GCSCache::get(Err(failure)), Lookup::Miss));
}

#[test]
fn token_endpoint_error_fails_get_as_miss_and_put_as_error() {
    let mut p = provider();
    let (flight, _) = refresh_flight(&p.credentials(0));
    let get_flight = match p.credentials(0) {
        Access::Join { flight } => flight,
        _ => panic!("expected to join"),
    };
    let put_flight = match p.credentials(0) {
        Access::Join { flight } => flight,
        _ => panic!("expected to join"),
    };
    assert_eq!(get_flight, flight);
    assert_eq!(put_flight, flight);
    let failure = check_exchange_status(500).unwrap_err();
    assert!(matches!(failure, GcsError::AuthExchange { status: 500 }));
    p.complete(flight, Err::<GCSCredential, GcsError>(failure.duplicate()));
    assert!(matches!(GCSCache::get(Err(failure.duplicate())), Lookup::Miss));
    assert!(matches!(GCSCache::put(Err(failure)), Err(GcsError::AuthExchange { status: 500 })));
}

#[test]
fn not_found_is_a_miss() {
    let fetched = Bucket::check_status(404).map(|_| Vec::new());
    assert!(matches!(fetched, Err(GcsError::BadStatus { status: 404 })));
    assert!(matches!(GCSCache::get(fetched), Lookup::Miss));
}

#[test]
fn valid_credential_serves_concurrent_gets_without_exchange() {
    let mut p = provider();
    let (flight, expires_at) = refresh_flight(&p.credentials(0));
    p.complete(flight, Ok::<GCSCredential, GcsError>(credential("shared", expires_at)));
    let a = p.credentials(5);
    let b = p.credentials(6);
    for access in [a, b] {
        match access {
            Access::Ready { credential } => assert_eq!(credential.token, "shared"),
            _ => panic!("an exchange was started"),
        }
    }
}

#[test]
fn successful_download_is_a_hit_with_the_bytes() {
    match GCSCache::get(Ok(vec![1, 2, 3])) {
        Lookup::Hit { data } => assert_eq!(data, vec![1, 2, 3]),
        Lookup::Miss => panic!("expected a hit"),
    }
}

#[test]
fn transport_failure_on_get_is_a_miss() {
    let e = GcsError::Transport { message: "connection refused".to_string() };
    assert!(matches!(GCSCache::get(Err(e)), Lookup::Miss));
}

#[test]
fn put_succeeds_only_on_success_status() {
    assert!(GCSCache::put(Ok(200)).is_ok());
    assert!(GCSCache::put(Ok(204)).is_ok());
    assert!(GCSCache::put(Ok(299)).is_ok());
    assert!(matches!(GCSCache::put(Ok(300)), Err(GcsError::BadStatus { status: 300 })));
    assert!(matches!(GCSCache::put(Ok(403)), Err(GcsError::BadStatus { status: 403 })));
    assert!(matches!(GCSCache::put(Ok(199)), Err(GcsError::BadStatus { status: 199 })));
}

#[test]
fn put_hands_on_transport_failure_verbatim() {
    let e = GcsError::Transport { message: "reset".to_string() };
    match GCSCache::put(Err(e)) {
        Err(GcsError::Transport { message }) => assert_eq!(message, "reset"),
        _ => panic!("expected the transport failure"),
    }
}

#[test]
fn download_url_escapes_reserved_characters() {
    let b = Bucket::new("my bucket".to_string(), "https://storage.googleapis.com".to_string());
    assert_eq!(
        b.download_url("a b/c?d"),
        "https://storage.googleapis.com/download/storage/v1/b/my%20bucket/o/a%20b%2Fc%3Fd?alt=media"
    );
}

#[test]
fn upload_url_form_encodes_key() {
    let b = Bucket::new("my bucket".to_string(), "https://storage.googleapis.com".to_string());
    assert_eq!(
        b.upload_url("a b/c?d"),
        "https://storage.googleapis.com/upload/storage/v1/b/my%20bucket/o?name=a+b%2Fc%3Fd&uploadType=media"
    );
}

#[test]
fn upload_url_escapes_query_delimiters_and_percent() {
    let b = Bucket::new("c".to_string(), "e".to_string());
    assert_eq!(b.upload_url("a&b"), "e/upload/storage/v1/b/c/o?name=a%26b&uploadType=media");
    assert_eq!(b.upload_url("%41"), "e/upload/storage/v1/b/c/o?name=%2541&uploadType=media");
    assert_eq!(b.upload_url("a+b"), "e/upload/storage/v1/b/c/o?name=a%2Bb&uploadType=media");
    assert_eq!(b.upload_url("k=v"), "e/upload/storage/v1/b/c/o?name=k%3Dv&uploadType=media");
    assert_eq!(b.download_url("%41"), "e/download/storage/v1/b/c/o/%2541?alt=media");
}

#[test]
fn plain_key_addresses_same_object_for_get_and_put() {
    let b = Bucket::new("cache".to_string(), "http://localhost".to_string());
    let key = "0a1b2c3d4e5f";
    assert_eq!(b.download_url(key), "http://localhost/download/storage/v1/b/cache/o/0a1b2c3d4e5f?alt=media");
    assert_eq!(b.upload_url(key), "http://localhost/upload/storage/v1/b/cache/o?name=0a1b2c3d4e5f&uploadType=media");
}

#[test]
fn non_ascii_key_is_escaped_bytewise() {
    let b = Bucket::new("c".to_string(), "e".to_string());
    assert_eq!(b.download_url("\u{e9}"), "e/download/storage/v1/b/c/o/%C3%A9?alt=media");
    assert_eq!(b.upload_url("#\u{e9}"), "e/upload/storage/v1/b/c/o?name=%23%C3%A9&uploadType=media");
}

fn uploaded_name(upload: &str) -> String {
    let query = upload.split('?').nth(1).unwrap();
    let (_, name) = url::form_urlencoded::parse(query.as_bytes())
        .find(|(k, _)| k == "name")
        .unwrap();
    name.into_owned()
}

fn downloaded_name(download: &str) -> String {
    let segment = download.split("/o/").nth(1).unwrap().split('?').next().unwrap();
    url::percent_encoding::percent_decode(segment.as_bytes()).decode_utf8().unwrap().into_owned()
}

#[test]
fn round_trip_against_a_faked_store() {
    let b = Bucket::new("bkt".to_string(), "http://store".to_string());
    for key in ["dir/entry 1?v", "a&b", "%41", "a+b", "k=v#f", "0a1b2c"] {
        let mut store = std::collections::HashMap::new();
        store.insert(uploaded_name(&b.upload_url(key)), vec![9u8, 8, 7]);
        assert!(GCSCache::put(Ok(200)).is_ok());
        let name = downloaded_name(&b.download_url(key));
        assert_eq!(name, key);
        let fetched = store.get(&name).cloned().ok_or(GcsError::BadStatus { status: 404 });
        match GCSCache::get(fetched) {
            Lookup::Hit { data } => assert_eq!(data, vec![9, 8, 7]),
            Lookup::Miss => panic!("expected a hit for {}", key),
        }
    }
}

#[test]
fn bucket_description_and_location() {
    let b = Bucket::new("bkt".to_string(), "https://x".to_string());
    assert_eq!(b.describe(), "Bucket(name=bkt, base_url=https://x)");
    let c = GCSCache::new("bkt".to_string(), "https://x".to_string(), provider());
    assert_eq!(c.location(), "GCS, bucket: Bucket(name=bkt, base_url=https://x)");
    assert_eq!(c.current_size(), None);
    assert_eq!(c.max_size(), None);
    assert_eq!(c.get_bucket().name, "bkt");
}

#[test]
fn scope_follows_access_mode() {
    assert_eq!(GCSCredentialProvider::new(true, String::new()).scope(), READ_ONLY_SCOPE);
    assert_eq!(
        GCSCredentialProvider::new(false, String::new()).scope(),
        "https://www.googleapis.com/auth/devstorage.read_write"
    );
    assert_eq!(READ_WRITE_SCOPE, "https://www.googleapis.com/auth/devstorage.read_write");
}

#[test]
fn claims_carry_issuer_scope_and_times() {
    let p = GCSCredentialProvider::new(true, String::new());
    let key = service_key("pem");
    let claims = p.claims(&key, 1000, 1000 + TOKEN_LIFETIME_SECS);
    assert_eq!(claims.issuer, "builder@project.iam.gserviceaccount.com");
    assert_eq!(claims.scope, READ_ONLY_SCOPE);
    assert_eq!(claims.audience, "https://www.googleapis.com/oauth2/v4/token");
    assert_eq!(claims.issued_at, 1000);
    assert_eq!(claims.expiration, 4540);
}

#[test]
fn token_request_body_is_form_encoded() {
    assert_eq!(
        token_request_body("a.b-c_d"),
        "grant_type=urn%3Aietf%3Aparams%3Aoauth%3Agrant-type%3Ajwt-bearer&assertion=a.b-c_d"
    );
    assert!(token_request_body("x y+z/=").ends_with("&assertion=x+y%2Bz%2F%3D"));
}

#[test]
fn exchange_status_classes() {
    assert!(check_exchange_status(200).is_ok());
    assert!(matches!(check_exchange_status(401), Err(GcsError::AuthExchange { status: 401 })));
}

#[test]
fn credential_expiry_is_the_asserted_one() {
    let msg = TokenMsg {
        access_token: "ya29.token".to_string(),
        token_type: "Bearer".to_string(),
        expires_in: 3600,
    };
    let c = credential_from_token(msg, 7540);
    assert_eq!(c.token, "ya29.token");
    assert_eq!(c.expiration_time, 7540);
}

#[test]
fn encrypted_private_key_without_passphrase_is_a_config_error() {
    let rsa = openssl::rsa::Rsa::generate(1024).unwrap();
    let pem = rsa
        .private_key_to_pem_passphrase(openssl::symm::Cipher::aes_128_cbc(), b"secret")
        .unwrap();
    let pem = String::from_utf8(pem).unwrap();
    assert!(matches!(signing_key(&service_key(&pem)), Err(GcsError::Config { .. })));
}

#[test]
fn malformed_private_key_is_a_config_error() {
    assert!(matches!(signing_key(&service_key("not a key")), Err(GcsError::Config { .. })));
}

#[test]
fn pem_private_key_becomes_der() {
    let rsa = openssl::rsa::Rsa::generate(1024).unwrap();
    let pem = String::from_utf8(rsa.private_key_to_pem().unwrap()).unwrap();
    let der = signing_key(&service_key(&pem)).ok().unwrap();
    assert_eq!(der, rsa.private_key_to_der().unwrap());
    assert_ne!(der, pem.into_bytes());
}
