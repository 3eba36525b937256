use vstd::prelude::*;
use rand::RngCore;
use crate::error::Error;

verus! {

/// Length in bytes of the random salt stored with each credential record.
pub const SALT_LEN: usize = 128;

/// Length in bytes of the stored password hash (the default output length).
pub const HASH_LEN: usize = 32;

/// Largest password, salt or hash length that argon2 takes.
pub const ARGON2_MAX_LEN: usize = 0xFFFF_FFFF;

/// The raw Argon2 digest, `len` bytes long, of a password under a salt, in
/// the default configuration. It depends on its arguments alone.
pub uninterp spec fn argon2_digest(password: Seq<u8>, salt: Seq<u8>, len: nat) -> Seq<u8>;

/// The lengths that argon2 takes: a password of at most `ARGON2_MAX_LEN`
/// bytes, a salt of at least 8 bytes, an output of at least 4 bytes.
pub open spec fn argon2_accepts(password: Seq<u8>, salt: Seq<u8>, len: nat) -> bool {
    &&& password.len() <= ARGON2_MAX_LEN
    &&& 8 <= salt.len() <= ARGON2_MAX_LEN
    &&& 4 <= len <= ARGON2_MAX_LEN
}

/// Whether `hash` is the digest of `password` under `salt` at the hash's own
/// length: what checking a password against a stored record decides.
pub open spec fn password_matches(password: Seq<u8>, salt: Seq<u8>, hash: Seq<u8>) -> bool {
    hash == argon2_digest(password, salt, hash.len())
}

/// Relies on `argon2::hash_raw` with `argon2::Config::default()`, whose
/// output length is 32: it fails exactly when a length lies outside argon2's
/// limits (its error, which says which limit, is dropped), and otherwise
/// returns the digest of the password under the salt.
#[verifier::external_body]
fn argon2_hash_raw(password: &[u8], salt: &[u8]) -> (r: Option<Vec<u8>>)
    ensures
        r is Some <==> argon2_accepts(password@, salt@, HASH_LEN as nat),
        r matches Some(h) ==> h@ == argon2_digest(password@, salt@, HASH_LEN as nat),
        r matches Some(h) ==> h@.len() == HASH_LEN,
{
    argon2::hash_raw(password, salt, &argon2::Config::default()).ok()
}

/// Relies on `argon2::verify_raw` with `argon2::Config::default()`: it
/// recomputes the digest at the length of `hash` and compares the two in
/// constant time; it fails exactly when a length lies outside argon2's limits
/// (its error is dropped).
#[verifier::external_body]
fn argon2_verify_raw(password: &[u8], salt: &[u8], hash: &[u8]) -> (r: Option<bool>)
    requires
        hash@.len() <= ARGON2_MAX_LEN,
    ensures
        r is Some <==> argon2_accepts(password@, salt@, hash@.len()),
        r matches Some(b) ==> b == password_matches(password@, salt@, hash@),
{
    argon2::verify_raw(password, salt, hash, &argon2::Config::default()).ok()
}

/// Relies on `rand::thread_rng` (a cryptographically secure generator seeded
/// from the operating system) and its `RngCore::fill_bytes`, which overwrites
/// the buffer with random bytes; only its length is known after.
#[verifier::external_body]
fn fill_random(buf: &mut Vec<u8>)
    ensures
        final(buf)@.len() == old(buf)@.len(),
{
    rand::thread_rng().fill_bytes(buf)
}

/// A fresh random salt of `SALT_LEN` bytes.
pub fn new_salt() -> (r: Vec<u8>)
    ensures
        r@.len() == SALT_LEN,
{
    let mut salt = vec![0u8; SALT_LEN];
    fill_random(&mut salt);
    salt
}

/// Hashes a password under a salt. Succeeds exactly when argon2 takes the
/// lengths; the result is then the `HASH_LEN`-byte digest.
pub fn hash_password(password: &[u8], salt: &[u8]) -> (r: Result<Vec<u8>, Error>)
    ensures
        r is Ok <==> argon2_accepts(password@, salt@, HASH_LEN as nat),
        r matches Ok(h) ==> h@ == argon2_digest(password@, salt@, HASH_LEN as nat),
        r matches Ok(h) ==> h@.len() == HASH_LEN,
        r matches Err(e) ==> e is Internal,
{
    match argon2_hash_raw(password, salt) {
        Some(h) => Ok(h),
        None => Err(Error::Internal(String::from_str("password hashing failed"))),
    }
}

/// Checks a password against a stored salt and hash. Succeeds exactly when
/// argon2 takes the lengths, with whether the password matches; a refusal is
/// an internal error, never a wrong password.
pub fn verify_password(password: &[u8], salt: &[u8], hash: &[u8]) -> (r: Result<bool, Error>)
    ensures
        r is Ok <==> argon2_accepts(password@, salt@, hash@.len()),
        r matches Ok(b) ==> b == password_matches(password@, salt@, hash@),
        r matches Err(e) ==> e is Internal,
{
    if hash.len() > ARGON2_MAX_LEN {
        return Err(Error::Internal(String::from_str("stored hash too long")));
    }
    match argon2_verify_raw(password, salt, hash) {
        Some(b) => Ok(b),
        None => Err(Error::Internal(String::from_str("password verification failed"))),
    }
}

/// A password checks out against the hash that was made from it: the stored
/// salt and hash alone reproduce the decision, without the password kept.
pub proof fn lemma_hash_then_verify(password: Seq<u8>, salt: Seq<u8>, hash: Seq<u8>)
    requires
        hash == argon2_digest(password, salt, HASH_LEN as nat),
        hash.len() == HASH_LEN,
    ensures
        password_matches(password, salt, hash),
{
}

} // verus!
