use uxrp::error::Error;
use uxrp::hasher::{hash_password, new_salt, verify_password, HASH_LEN, SALT_LEN};
use uxrp::session::{bearer_token, SessionStore, UserPrincipal};
use uxrp::store::Table;
use uxrp::user::{check_credentials, UserCredentials, UserStore, UserStoreConfig};

fn plain_store(skip_email_verification: bool) -> UserStore {
    UserStore::new(UserStoreConfig { randomise_id_prefix: false, skip_email_verification })
}

#[test]
fn error_status_codes_and_kinds() {
    assert_eq!(Error::UserExists.status_code(), 409);
    assert_eq!(Error::InvalidCredentials.status_code(), 401);
    assert_eq!(Error::UserUnverified.status_code(), 403);
    assert_eq!(Error::Internal("db down".to_owned()).status_code(), 500);
    assert_eq!(Error::UserExists.kind(), "user_exists");
    assert_eq!(Error::InvalidCredentials.kind(), "invalid_credentials");
    assert_eq!(Error::UserUnverified.kind(), "user_unverified");
    assert_eq!(Error::Internal("db down".to_owned()).kind(), "internal_error");
}

#[test]
fn item_keys() {
    let store = plain_store(true);
    assert_eq!(store.creds_item_id("a@x.com"), "auth/email/a@x.com");
    assert_eq!(store.verification_item_id("tok"), "verification/tok");
    let sessions = SessionStore::new();
    assert_eq!(sessions.session_key("tok"), "sessions:tok");
}

#[test]
fn randomised_prefix_keys() {
    let store = UserStore::new(UserStoreConfig { randomise_id_prefix: true, skip_email_verification: true });
    let key = store.creds_item_id("a@x.com");
    assert_eq!(key.len(), 37 + "auth/email/a@x.com".len());
    assert!(key.ends_with("/auth/email/a@x.com"));
    let other = UserStore::new(UserStoreConfig { randomise_id_prefix: true, skip_email_verification: true });
    assert_ne!(other.creds_item_id("a@x.com"), key);
}

#[test]
fn bearer_token_parsing() {
    assert_eq!(bearer_token("Bearer abc"), Some("abc"));
    assert_eq!(bearer_token("Bearer "), Some(""));
    assert_eq!(bearer_token("Bearer  x"), Some(" x"));
    assert_eq!(bearer_token("Bearer"), None);
    assert_eq!(bearer_token("Basic abc"), None);
    assert_eq!(bearer_token(""), None);
}

#[test]
fn password_hash_round_trip() {
    let salt = new_salt();
    assert_eq!(salt.len(), SALT_LEN);
    let hash = hash_password(b"correct horse", &salt).expect("hash failed");
    assert_eq!(hash.len(), HASH_LEN);
    assert_ne!(&hash[..], &b"correct horse"[..]);
    assert!(verify_password(b"correct horse", &salt, &hash).expect("verify failed"));
    assert!(!verify_password(b"correct horsf", &salt, &hash).expect("verify failed"));
    assert!(!verify_password(b"correct hors", &salt, &hash).expect("verify failed"));
    let other_salt = new_salt();
    assert_ne!(salt, other_salt);
    assert!(!verify_password(b"correct horse", &other_salt, &hash).expect("verify failed"));
}

#[test]
fn single_bit_flips_of_password_are_rejected() {
    let salt = new_salt();
    let password = b"pw".to_vec();
    let hash = hash_password(&password, &salt).expect("hash failed");
    for byte in 0..password.len() {
        for bit in 0..8 {
            let mut altered = password.clone();
            altered[byte] ^= 1 << bit;
            assert!(!verify_password(&altered, &salt, &hash).expect("verify failed"));
        }
    }
}

#[test]
fn argon2_refusals_are_internal() {
    assert!(matches!(hash_password(b"pw", b"short"), Err(Error::Internal(_))));
    let salt = new_salt();
    assert!(matches!(verify_password(b"pw", &salt, b"abc"), Err(Error::Internal(_))));
    assert!(matches!(verify_password(b"pw", b"short", &[0u8; 32]), Err(Error::Internal(_))));
}

#[test]
fn check_credentials_outcomes() {
    let salt = new_salt();
    let hash = hash_password(b"pw", &salt).expect("hash failed");
    let mut creds = UserCredentials {
        id: "auth/email/a@x.com".to_owned(),
        user_id: "uid".to_owned(),
        password_hash: hash,
        password_salt: salt,
        email_verified: false,
    };
    assert!(matches!(check_credentials(&creds, b"pw"), Err(Error::UserUnverified)));
    creds.email_verified = true;
    assert_eq!(check_credentials(&creds, b"pw").expect("check failed"), "uid");
    assert!(matches!(check_credentials(&creds, b"px"), Err(Error::InvalidCredentials)));
    creds.password_hash = vec![1, 2];
    assert!(matches!(check_credentials(&creds, b"pw"), Err(Error::Internal(_))));
}

#[test]
fn skip_verification_marks_accounts_verified() {
    let mut store = plain_store(true);
    let id = store.create("a@x.com", "pw").expect("create failed");
    assert_eq!(id.len(), 36);
    assert!(store.pending_messages().is_empty());
    assert_eq!(store.authenticate("a@x.com", "pw").expect("authenticate failed"), id);
}

#[test]
fn registration_queues_one_message() {
    let mut store = plain_store(false);
    store.create("a@x.com", "pw").expect("create failed");
    store.create("b@x.com", "pw").expect("create failed");
    let pending = store.pending_messages();
    assert_eq!(pending.len(), 2);
    assert_eq!(pending[0].email, "a@x.com");
    assert_eq!(pending[1].email, "b@x.com");
    assert_ne!(pending[0].token, pending[1].token);
}

#[test]
fn table_operations() {
    let mut t: Table<u32> = Table::new();
    let k = "k".to_owned();
    assert_eq!(t.get(&k), None);
    assert!(t.insert_if_absent(k.clone(), 1));
    assert!(!t.insert_if_absent(k.clone(), 2));
    assert_eq!(t.get(&k), Some(&1));
    t.put(k.clone(), 3);
    assert_eq!(t.get(&k), Some(&3));
    t.put("j".to_owned(), 4);
    assert_eq!(t.remove(&k), Some(3));
    assert_eq!(t.remove(&k), None);
    assert_eq!(t.get(&"j".to_owned()), Some(&4));
}

#[test]
fn principal_duplicate_keeps_id() {
    let p = UserPrincipal { id: "x".to_owned() };
    assert_eq!(p.duplicate().id, "x");
}
