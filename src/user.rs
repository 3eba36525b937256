use vstd::prelude::*;
use crate::error::Error;
use crate::hasher::{
    argon2_accepts, argon2_digest, hash_password, new_salt, password_matches, verify_password,
    ARGON2_MAX_LEN, HASH_LEN, SALT_LEN,
};
use crate::store::Table;
use vstd::utf8::encode_utf8;
use crate::token::{new_token, TOKEN_LEN};

verus! {

/// How a credential store is set up.
pub struct UserStoreConfig {
    /// Put every key of this store under a fresh random namespace, so that
    /// stores made for separate tests never share a key.
    pub randomise_id_prefix: bool,
    /// Mark accounts verified at registration and issue no verification
    /// tokens.
    pub skip_email_verification: bool,
}

/// The credential record kept for one email.
pub struct UserCredentials {
    pub id: String,
    pub user_id: String,
    pub password_hash: Vec<u8>,
    pub password_salt: Vec<u8>,
    pub email_verified: bool,
}

/// The record behind one verification token.
pub struct Verification {
    pub id: String,
    pub email: String,
}

/// A verification link waiting to be mailed to its address.
pub struct VerificationMessage {
    pub email: String,
    pub token: String,
}

/// Key of the credential record of `email`. The fixed part between prefix and
/// email keeps it apart from verification keys, and the email stands last,
/// so two emails share a key only where they are equal.
pub open spec fn creds_key(prefix: Seq<char>, email: Seq<char>) -> Seq<char> {
    prefix + "auth/email/"@ + email
}

/// Key of the verification record of `token`.
pub open spec fn verification_key(prefix: Seq<char>, token: Seq<char>) -> Seq<char> {
    prefix + "verification/"@ + token
}

/// What a stored credential record reads after its email was verified.
pub open spec fn verified_record(c: UserCredentials) -> UserCredentials {
    UserCredentials { email_verified: true, ..c }
}

/// The outcome of checking `password` against the record `c`, whose email is
/// known: unverified accounts are refused before any hashing; a refusal of
/// argon2 is internal; a wrong password is `InvalidCredentials`.
pub open spec fn credential_check(c: UserCredentials, password: Seq<u8>, r: Result<String, Error>) -> bool {
    if !c.email_verified {
        r == Err::<String, Error>(Error::UserUnverified)
    } else if !argon2_accepts(password, c.password_salt@, c.password_hash@.len()) {
        r matches Err(Error::Internal(_))
    } else if password_matches(password, c.password_salt@, c.password_hash@) {
        r matches Ok(id) && id@ == c.user_id@
    } else {
        r == Err::<String, Error>(Error::InvalidCredentials)
    }
}

/// What a registration does to the store and returns. A verification record
/// and its message come first (unless verification is skipped); then an
/// over-long password is an internal error, a taken email is `UserExists`,
/// and otherwise a new account stands under the email's key.
pub open spec fn registration(
    pre: UserStore,
    post: UserStore,
    email: Seq<char>,
    password: Seq<u8>,
    r: Result<String, Error>,
) -> bool {
    &&& post.prefix() == pre.prefix()
    &&& post.skips_verification() == pre.skips_verification()
    &&& if pre.skips_verification() {
        post.verifications() == pre.verifications() && post.outbox() == pre.outbox()
    } else {
        issued_verification(pre, post, email)
    }
    &&& if password.len() > ARGON2_MAX_LEN {
        r matches Err(Error::Internal(_)) && post.credentials() == pre.credentials()
    } else if pre.email_taken(email) {
        r == Err::<String, Error>(Error::UserExists) && post.credentials() == pre.credentials()
    } else {
        r matches Ok(id) && new_account(pre, post, email, password, id@)
    }
}

/// A fresh verification token for `email` was recorded and queued for mailing.
pub open spec fn issued_verification(pre: UserStore, post: UserStore, email: Seq<char>) -> bool {
    let m = post.outbox().last();
    let vk = verification_key(pre.prefix(), m.token@);
    &&& post.outbox() == pre.outbox().push(m)
    &&& m.email@ == email
    &&& m.token@.len() == TOKEN_LEN
    &&& post.verifications() == pre.verifications().insert(vk, post.verifications()[vk])
    &&& post.verifications()[vk].email@ == email
}

/// The one new credential record of a registration: the new user id, the
/// verified flag as configured, and the digest of the password under the
/// record's fresh salt.
pub open spec fn new_account(
    pre: UserStore,
    post: UserStore,
    email: Seq<char>,
    password: Seq<u8>,
    user_id: Seq<char>,
) -> bool {
    let ck = creds_key(pre.prefix(), email);
    let c = post.credentials()[ck];
    &&& post.credentials() == pre.credentials().insert(ck, c)
    &&& user_id.len() == TOKEN_LEN
    &&& c.user_id@ == user_id
    &&& c.email_verified == pre.skips_verification()
    &&& c.password_hash@ == argon2_digest(password, c.password_salt@, HASH_LEN as nat)
    &&& c.password_salt@.len() == SALT_LEN
    &&& c.password_hash@.len() == HASH_LEN
}

/// What a login check returns: `InvalidCredentials` for an email without an
/// account, else the outcome of checking the password against its record.
pub open spec fn authenticated(store: UserStore, email: Seq<char>, password: Seq<u8>, r: Result<String, Error>) -> bool {
    if store.email_taken(email) {
        credential_check(store.credentials()[creds_key(store.prefix(), email)], password, r)
    } else {
        r == Err::<String, Error>(Error::InvalidCredentials)
    }
}

/// What redeeming a verification token does: an unknown or spent token is
/// `InvalidCredentials` and changes nothing; a live one is consumed and marks
/// the credential record of its email verified.
pub open spec fn redemption(pre: UserStore, post: UserStore, token: Seq<char>, r: Result<(), Error>) -> bool {
    let vk = verification_key(pre.prefix(), token);
    &&& post.prefix() == pre.prefix()
    &&& post.skips_verification() == pre.skips_verification()
    &&& post.outbox() == pre.outbox()
    &&& if !pre.verifications().contains_key(vk) {
        &&& r == Err::<(), Error>(Error::InvalidCredentials)
        &&& post.verifications() == pre.verifications()
        &&& post.credentials() == pre.credentials()
    } else {
        let ck = creds_key(pre.prefix(), pre.verifications()[vk].email@);
        &&& r is Ok
        &&& post.verifications() == pre.verifications().remove(vk)
        &&& post.credentials() == if pre.credentials().contains_key(ck) {
            pre.credentials().insert(ck, verified_record(pre.credentials()[ck]))
        } else {
            pre.credentials()
        }
    }
}

/// Decides a login against the record found for its email. This is the part
/// of `UserStore::authenticate` after the lookup.
pub fn check_credentials(creds: &UserCredentials, password: &[u8]) -> (r: Result<String, Error>)
    ensures
        credential_check(*creds, password@, r),
{
    if !creds.email_verified {
        return Err(Error::UserUnverified);
    }
    match verify_password(password, creds.password_salt.as_slice(), creds.password_hash.as_slice()) {
        Ok(true) => Ok(creds.user_id.clone()),
        Ok(false) => Err(Error::InvalidCredentials),
        Err(e) => Err(e),
    }
}

/// The credential store: one credential record per email, single-use
/// verification tokens, and the verification messages still to be sent.
pub struct UserStore {
    id_prefix: String,
    skip_email_verification: bool,
    credentials: Table<UserCredentials>,
    verifications: Table<Verification>,
    outbox: Vec<VerificationMessage>,
}

impl UserStore {
    /// The namespace in front of every key of this store.
    pub closed spec fn prefix(&self) -> Seq<char> {
        self.id_prefix@
    }

    /// Whether accounts are verified at registration.
    pub closed spec fn skips_verification(&self) -> bool {
        self.skip_email_verification
    }

    /// The credential records, by key.
    pub closed spec fn credentials(&self) -> Map<Seq<char>, UserCredentials> {
        self.credentials@
    }

    /// The verification records not yet redeemed, by key.
    pub closed spec fn verifications(&self) -> Map<Seq<char>, Verification> {
        self.verifications@
    }

    /// The verification messages not yet handed out for delivery.
    pub closed spec fn outbox(&self) -> Seq<VerificationMessage> {
        self.outbox@
    }

    /// The store's invariant: each record stands under its own key, and all
    /// credential records carry a salt and a hash of the fixed lengths.
    pub closed spec fn wf(&self) -> bool {
        &&& self.credentials.wf()
        &&& self.verifications.wf()
        &&& forall|k: Seq<char>|
            #[trigger] self.credentials@.contains_key(k) ==> {
                let c = self.credentials@[k];
                &&& c.id@ == k
                &&& c.password_salt@.len() == SALT_LEN
                &&& c.password_hash@.len() == HASH_LEN
            }
        &&& forall|k: Seq<char>|
            #[trigger] self.verifications@.contains_key(k) ==> self.verifications@[k].id@ == k
    }

    /// Whether an account is registered under `email`.
    pub open spec fn email_taken(&self, email: Seq<char>) -> bool {
        self.credentials().contains_key(creds_key(self.prefix(), email))
    }

    /// An empty store.
    pub fn new(config: UserStoreConfig) -> (r: Self)
        ensures
            r.wf(),
            r.credentials() == Map::<Seq<char>, UserCredentials>::empty(),
            r.verifications() == Map::<Seq<char>, Verification>::empty(),
            r.outbox() == Seq::<VerificationMessage>::empty(),
            r.skips_verification() == config.skip_email_verification,
            !config.randomise_id_prefix ==> r.prefix() == Seq::<char>::empty(),
            config.randomise_id_prefix ==> r.prefix().len() == TOKEN_LEN + 1
                && r.prefix().last() == '/',
    {
        let id_prefix = if config.randomise_id_prefix {
            let mut p = new_token();
            p.append("/");
            proof {
                reveal_strlit("/");
            }
            p
        } else {
            String::new()
        };
        UserStore {
            id_prefix,
            skip_email_verification: config.skip_email_verification,
            credentials: Table::new(),
            verifications: Table::new(),
            outbox: Vec::new(),
        }
    }

    /// The key of the credential record of `email`.
    pub fn creds_item_id(&self, email: &str) -> (r: String)
        ensures
            r@ == creds_key(self.prefix(), email@),
    {
        let mut id = self.id_prefix.clone();
        id.append("auth/email/");
        id.append(email);
        id
    }

    /// The key of the verification record of `token`.
    pub fn verification_item_id(&self, token: &str) -> (r: String)
        ensures
            r@ == verification_key(self.prefix(), token@),
    {
        let mut id = self.id_prefix.clone();
        id.append("verification/");
        id.append(token);
        id
    }
    /// Registers `email` with `password` and returns the new user id.
    pub fn create(&mut self, email: &str, password: &str) -> (r: Result<String, Error>)
        requires
            old(self).wf(),
        ensures
            final(self).wf(),
            registration(*old(self), *final(self), email@, encode_utf8(password@), r),
    {
        if !self.skip_email_verification {
            let token = new_token();
            let id = self.verification_item_id(token.as_str());
            let record = Verification { id: id.clone(), email: email.to_owned() };
            self.verifications.put(id, record);
            self.outbox.push(VerificationMessage { email: email.to_owned(), token });
        }
        let user_id = new_token();
        let salt = new_salt();
        let password_hash = match hash_password(password.as_bytes(), salt.as_slice()) {
            Ok(h) => h,
            Err(e) => {
                return Err(e);
            },
        };
        let id = self.creds_item_id(email);
        let record = UserCredentials {
            id: id.clone(),
            user_id: user_id.clone(),
            password_hash,
            password_salt: salt,
            email_verified: self.skip_email_verification,
        };
        if self.credentials.insert_if_absent(id, record) {
            Ok(user_id)
        } else {
            Err(Error::UserExists)
        }
    }

    /// Checks `password` for the account of `email` and returns its user id.
    pub fn authenticate(&self, email: &str, password: &str) -> (r: Result<String, Error>)
        requires
            self.wf(),
        ensures
            authenticated(*self, email@, encode_utf8(password@), r),
    {
        let id = self.creds_item_id(email);
        match self.credentials.get(&id) {
            None => Err(Error::InvalidCredentials),
            Some(creds) => check_credentials(creds, password.as_bytes()),
        }
    }

    /// Redeems a verification token: marks the account of its email verified
    /// and spends the token.
    pub fn verify(&mut self, token: &str) -> (r: Result<(), Error>)
        requires
            old(self).wf(),
        ensures
            final(self).wf(),
            redemption(*old(self), *final(self), token@, r),
    {
        let vid = self.verification_item_id(token);
        let ghost pre_v = self.verifications@;
        match self.verifications.remove(&vid) {
            None => {
                assert(self.verifications@ =~= pre_v);
                Err(Error::InvalidCredentials)
            },
            Some(v) => {
                let cid = self.creds_item_id(v.email.as_str());
                let ghost pre = self.credentials@;
                match self.credentials.remove(&cid) {
                    Some(c) => {
                        let mut c = c;
                        c.email_verified = true;
                        self.credentials.put(cid, c);
                        assert(self.credentials@ =~= pre.insert(cid@, verified_record(pre[cid@])));
                    },
                    None => {
                        assert(self.credentials@ =~= pre);
                    },
                }
                Ok(())
            },
        }
    }

    /// The verification messages waiting for delivery.
    pub fn pending_messages(&self) -> (r: &Vec<VerificationMessage>)
        ensures
            r@ == self.outbox(),
    {
        &self.outbox
    }

    /// Hands the waiting verification messages out for delivery and empties
    /// the queue.
    pub fn take_messages(&mut self) -> (r: Vec<VerificationMessage>)
        requires
            old(self).wf(),
        ensures
            final(self).wf(),
            r@ == old(self).outbox(),
            final(self).outbox() == Seq::<VerificationMessage>::empty(),
            final(self).credentials() == old(self).credentials(),
            final(self).verifications() == old(self).verifications(),
            final(self).prefix() == old(self).prefix(),
            final(self).skips_verification() == old(self).skips_verification(),
    {
        let mut out = Vec::new();
        std::mem::swap(&mut out, &mut self.outbox);
        out
    }
}

/// A login succeeds exactly when an account exists for the email, is
/// verified, and the password hashes under its stored salt to its stored
/// hash; every other case fails.
pub proof fn lemma_authentication_iff(store: UserStore, email: Seq<char>, password: Seq<u8>, r: Result<String, Error>)
    requires
        store.wf(),
        password.len() <= ARGON2_MAX_LEN,
        authenticated(store, email, password, r),
    ensures
        r is Ok <==> {
            let c = store.credentials()[creds_key(store.prefix(), email)];
            &&& store.email_taken(email)
            &&& c.email_verified
            &&& password_matches(password, c.password_salt@, c.password_hash@)
        },
        r is Err ==> r == Err::<String, Error>(Error::InvalidCredentials) || r == Err::<String, Error>(
            Error::UserUnverified,
        ),
{
    let ck = creds_key(store.prefix(), email);
    if store.email_taken(email) {
        assert(store.credentials@.contains_key(ck));
    }
}

/// Two emails share a credential key only where they are equal.
pub proof fn lemma_creds_key_injective(prefix: Seq<char>, email1: Seq<char>, email2: Seq<char>)
    requires
        creds_key(prefix, email1) == creds_key(prefix, email2),
    ensures
        email1 == email2,
{
    let head = prefix + "auth/email/"@;
    let k1 = creds_key(prefix, email1);
    let k2 = creds_key(prefix, email2);
    assert(k1.subrange(head.len() as int, k1.len() as int) =~= email1);
    assert(k2.subrange(head.len() as int, k2.len() as int) =~= email2);
}

/// Registration and redemption keep every existing account, and never turn a
/// verified account back to unverified.
pub proof fn lemma_verified_flag_monotone(
    pre: UserStore,
    post: UserStore,
    email: Seq<char>,
    password: Seq<u8>,
    token: Seq<char>,
    r1: Result<String, Error>,
    r2: Result<(), Error>,
)
    requires
        registration(pre, post, email, password, r1) || redemption(pre, post, token, r2),
    ensures
        forall|k: Seq<char>|
            #[trigger] pre.credentials().contains_key(k) ==> post.credentials().contains_key(k)
                && (pre.credentials()[k].email_verified ==> post.credentials()[k].email_verified),
{
}

/// Registering one email twice: the first registration succeeds and the
/// second is refused with `UserExists`, whatever the passwords.
pub proof fn lemma_register_twice(
    s0: UserStore,
    s1: UserStore,
    s2: UserStore,
    email: Seq<char>,
    password1: Seq<u8>,
    password2: Seq<u8>,
    r1: Result<String, Error>,
    r2: Result<String, Error>,
)
    requires
        !s0.email_taken(email),
        password1.len() <= ARGON2_MAX_LEN,
        password2.len() <= ARGON2_MAX_LEN,
        registration(s0, s1, email, password1, r1),
        registration(s1, s2, email, password2, r2),
    ensures
        r1 is Ok,
        r2 == Err::<String, Error>(Error::UserExists),
        s2.credentials() == s1.credentials(),
{
}

/// A verification token works once: the first redemption succeeds and marks
/// the account of its email verified; a second one is `InvalidCredentials`
/// and changes no account.
pub proof fn lemma_redeem_once(
    s0: UserStore,
    s1: UserStore,
    s2: UserStore,
    token: Seq<char>,
    r1: Result<(), Error>,
    r2: Result<(), Error>,
)
    requires
        s0.verifications().contains_key(verification_key(s0.prefix(), token)),
        redemption(s0, s1, token, r1),
        redemption(s1, s2, token, r2),
    ensures
        r1 is Ok,
        ({
            let ck = creds_key(s0.prefix(), s0.verifications()[verification_key(s0.prefix(), token)].email@);
            s0.credentials().contains_key(ck) ==> s1.credentials()[ck].email_verified
        }),
        r2 == Err::<(), Error>(Error::InvalidCredentials),
        s2.credentials() == s1.credentials(),
{
}

/// The account that a registration creates, once verified, accepts the
/// password it was registered with and yields the registered user id: the
/// stored salt and hash reproduce the check without the password kept.
pub proof fn lemma_registered_password_accepted(
    s0: UserStore,
    s1: UserStore,
    email: Seq<char>,
    password: Seq<u8>,
    user_id: String,
    r: Result<String, Error>,
)
    requires
        s1.wf(),
        !s0.email_taken(email),
        password.len() <= ARGON2_MAX_LEN,
        registration(s0, s1, email, password, Ok(user_id)),
        credential_check(verified_record(s1.credentials()[creds_key(s1.prefix(), email)]), password, r),
    ensures
        r matches Ok(id) && id@ == user_id@,
{
    let ck = creds_key(s1.prefix(), email);
    assert(s1.credentials().contains_key(ck));
}

} // verus!
