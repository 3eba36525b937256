use vstd::prelude::*;
use vstd::utf8::encode_utf8;
use crate::error::Error;
use crate::session::{
    bearer_prefix, lemma_create_then_resolve, resolution, session_key, SessionStore, UserPrincipal,
};
use crate::hasher::{password_matches, ARGON2_MAX_LEN};
use crate::token::TOKEN_LEN;
use crate::user::{
    authenticated, creds_key, lemma_register_twice, redemption, registration, verification_key, UserCredentials, UserStore, UserStoreConfig, Verification,
    VerificationMessage,
};

verus! {

pub struct RegisterRequest {
    pub email: String,
    pub password: String,
}

pub struct RegisterResponse {}

pub struct LoginRequest {
    pub email: String,
    pub password: String,
}

pub struct LoginResponse {
    pub token: String,
}

pub struct TestRequest {}

pub struct TestResponse {
    pub principal_id: String,
}

pub struct VerifyRequest {
    pub token: String,
}

pub struct VerifyResponse {}

/// The four operations offered to a transport.
pub trait Service {
    /// Whether the service is in a state to serve requests.
    spec fn ready(&self) -> bool;

    /// What `register` does, from `self` to `post`, when it returns `r`.
    spec fn register_post(&self, post: &Self, req: &RegisterRequest, r: Result<RegisterResponse, Error>) -> bool;

    /// What `login` does, from `self` to `post`, when it returns `r`.
    spec fn login_post(&self, post: &Self, req: &LoginRequest, r: Result<LoginResponse, Error>) -> bool;

    /// What `test` returns for `caller`.
    spec fn test_post(&self, caller: &UserPrincipal, r: Result<TestResponse, Error>) -> bool;

    /// What `verify` does, from `self` to `post`, when it returns `r`.
    spec fn verify_post(&self, post: &Self, req: &VerifyRequest, r: Result<VerifyResponse, Error>) -> bool;

    fn register(&mut self, req: &RegisterRequest) -> (r: Result<RegisterResponse, Error>)
        requires
            old(self).ready(),
        ensures
            final(self).ready(),
            old(self).register_post(final(self), req, r),
    ;

    fn login(&mut self, req: &LoginRequest) -> (r: Result<LoginResponse, Error>)
        requires
            old(self).ready(),
        ensures
            final(self).ready(),
            old(self).login_post(final(self), req, r),
    ;

    fn test(&self, req: &TestRequest, caller: &UserPrincipal) -> (r: Result<TestResponse, Error>)
        requires
            self.ready(),
        ensures
            self.test_post(caller, r),
    ;

    fn verify(&mut self, req: &VerifyRequest) -> (r: Result<VerifyResponse, Error>)
        requires
            old(self).ready(),
        ensures
            final(self).ready(),
            old(self).verify_post(final(self), req, r),
    ;
}

/// Whether two results agree in success, and in the error where both fail.
pub open spec fn same_outcome<A, B>(a: Result<A, Error>, b: Result<B, Error>) -> bool {
    match (a, b) {
        (Ok(_), Ok(_)) => true,
        (Err(x), Err(y)) => x == y,
        _ => false,
    }
}

/// What a registration through the service does: the outcome is that of the
/// credential store's registration, and the sessions stay as they were.
pub open spec fn registers(
    pre: AuthService,
    post: AuthService,
    req: RegisterRequest,
    r: Result<RegisterResponse, Error>,
) -> bool {
    &&& post.session_store == pre.session_store
    &&& exists|u: Result<String, Error>|
        #[trigger] registration(pre.user_store, post.user_store, req.email@, encode_utf8(req.password@), u)
            && same_outcome(u, r)
}

/// What a login through the service does: the credential check decides; on
/// success one new session under the returned token holds the account's
/// principal, and on failure its error comes back and nothing changes.
pub open spec fn logs_in(
    pre: AuthService,
    post: AuthService,
    req: LoginRequest,
    r: Result<LoginResponse, Error>,
) -> bool {
    &&& post.user_store == pre.user_store
    &&& exists|u: Result<String, Error>|
        #[trigger] authenticated(pre.user_store, req.email@, encode_utf8(req.password@), u) && match u {
            Ok(id) => r matches Ok(resp) && resp.token@.len() == TOKEN_LEN
                && post.session_store.sessions() == pre.session_store.sessions().insert(
                session_key(resp.token@),
                UserPrincipal { id },
            ),
            Err(e) => r == Err::<LoginResponse, Error>(e) && post.session_store == pre.session_store,
        }
}

/// What the identity echo returns: the caller's id.
pub open spec fn echoes(caller: UserPrincipal, r: Result<TestResponse, Error>) -> bool {
    r matches Ok(resp) && resp.principal_id@ == caller.id@
}

/// What a verification through the service does: the outcome is that of the
/// credential store's redemption, and the sessions stay as they were.
pub open spec fn redeems(
    pre: AuthService,
    post: AuthService,
    req: VerifyRequest,
    r: Result<VerifyResponse, Error>,
) -> bool {
    &&& post.session_store == pre.session_store
    &&& redemption(
        pre.user_store,
        post.user_store,
        req.token@,
        match r {
            Ok(_) => Ok::<(), Error>(()),
            Err(e) => Err::<(), Error>(e),
        },
    )
}

/// The service: a composition of the credential store and the session store
/// that passes their errors on unchanged.
pub struct AuthService {
    pub session_store: SessionStore,
    pub user_store: UserStore,
}

impl AuthService {
    pub open spec fn wf(&self) -> bool {
        self.session_store.wf() && self.user_store.wf()
    }

    /// A service over empty stores.
    pub fn new(config: UserStoreConfig) -> (r: Self)
        ensures
            r.wf(),
            r.session_store.sessions() == Map::<Seq<char>, UserPrincipal>::empty(),
            r.user_store.credentials() == Map::<Seq<char>, UserCredentials>::empty(),
            r.user_store.verifications() == Map::<Seq<char>, Verification>::empty(),
            r.user_store.outbox() == Seq::<VerificationMessage>::empty(),
            r.user_store.skips_verification() == config.skip_email_verification,
            !config.randomise_id_prefix ==> r.user_store.prefix() == Seq::<char>::empty(),
            config.randomise_id_prefix ==> r.user_store.prefix().len() == TOKEN_LEN + 1
                && r.user_store.prefix().last() == '/',
    {
        let user_store = UserStore::new(config);
        AuthService { session_store: SessionStore::new(), user_store }
    }

    /// Registers an account; the outcome is that of the credential store's
    /// registration.
    pub fn register(&mut self, req: &RegisterRequest) -> (r: Result<RegisterResponse, Error>)
        requires
            old(self).wf(),
        ensures
            final(self).wf(),
            registers(*old(self), *final(self), *req, r),
    {
        let res = self.user_store.create(req.email.as_str(), req.password.as_str());
        match res {
            Ok(_) => Ok(RegisterResponse {}),
            Err(e) => Err(e),
        }
    }

    /// Checks the credentials and opens a session for the account's
    /// principal; the token of the new session is returned.
    pub fn login(&mut self, req: &LoginRequest) -> (r: Result<LoginResponse, Error>)
        requires
            old(self).wf(),
        ensures
            final(self).wf(),
            logs_in(*old(self), *final(self), *req, r),
    {
        let id = match self.user_store.authenticate(req.email.as_str(), req.password.as_str()) {
            Ok(id) => id,
            Err(e) => {
                return Err(e);
            },
        };
        let token = self.session_store.create(UserPrincipal { id });
        Ok(LoginResponse { token })
    }

    /// Echoes the id of the resolved caller.
    pub fn test(&self, req: &TestRequest, caller: &UserPrincipal) -> (r: Result<TestResponse, Error>)
        ensures
            echoes(*caller, r),
    {
        Ok(TestResponse { principal_id: caller.id.clone() })
    }

    /// Redeems a verification token; the outcome is that of the credential
    /// store's redemption.
    pub fn verify(&mut self, req: &VerifyRequest) -> (r: Result<VerifyResponse, Error>)
        requires
            old(self).wf(),
        ensures
            final(self).wf(),
            redeems(*old(self), *final(self), *req, r),
    {
        match self.user_store.verify(req.token.as_str()) {
            Ok(()) => Ok(VerifyResponse {}),
            Err(e) => Err(e),
        }
    }
}

impl Service for AuthService {
    open spec fn ready(&self) -> bool {
        self.wf()
    }

    open spec fn register_post(&self, post: &Self, req: &RegisterRequest, r: Result<RegisterResponse, Error>) -> bool {
        registers(*self, *post, *req, r)
    }

    open spec fn login_post(&self, post: &Self, req: &LoginRequest, r: Result<LoginResponse, Error>) -> bool {
        logs_in(*self, *post, *req, r)
    }

    open spec fn test_post(&self, caller: &UserPrincipal, r: Result<TestResponse, Error>) -> bool {
        echoes(*caller, r)
    }

    open spec fn verify_post(&self, post: &Self, req: &VerifyRequest, r: Result<VerifyResponse, Error>) -> bool {
        redeems(*self, *post, *req, r)
    }

    fn register(&mut self, req: &RegisterRequest) -> Result<RegisterResponse, Error> {
        AuthService::register(self, req)
    }

    fn login(&mut self, req: &LoginRequest) -> Result<LoginResponse, Error> {
        AuthService::login(self, req)
    }

    fn test(&self, req: &TestRequest, caller: &UserPrincipal) -> Result<TestResponse, Error> {
        AuthService::test(self, req, caller)
    }

    fn verify(&mut self, req: &VerifyRequest) -> Result<VerifyResponse, Error> {
        AuthService::verify(self, req)
    }
}

/// End to end: an account registered with a password, then verified with the
/// token its registration issued (where verification is required), logs in
/// with that password; the token handed out resolves, in a bearer header, to
/// a principal whose id is the user id that the registration returned.
pub proof fn lemma_register_verify_login_resolve(
    u0: UserStore,
    u1: UserStore,
    u2: UserStore,
    pre: AuthService,
    post: AuthService,
    email: Seq<char>,
    user_id: String,
    verified: Result<(), Error>,
    req: LoginRequest,
    r: Result<LoginResponse, Error>,
)
    requires
        u1.wf(),
        !u0.email_taken(email),
        encode_utf8(req.password@).len() <= ARGON2_MAX_LEN,
        req.email@ == email,
        registration(u0, u1, email, encode_utf8(req.password@), Ok(user_id)),
        u1.skips_verification() ==> u2 == u1,
        !u1.skips_verification() ==> redemption(u1, u2, u1.outbox().last().token@, verified),
        pre.wf(),
        pre.user_store == u2,
        logs_in(pre, post, req, r),
    ensures
        r matches Ok(resp) && resolution(
            post.session_store.sessions(),
            Some(bearer_prefix() + resp.token@),
        ) matches Some(p) && p.id@ == user_id@,
{
    let password = encode_utf8(req.password@);
    let ck = creds_key(u0.prefix(), email);
    assert(u1.credentials().contains_key(ck));
    let c = u1.credentials()[ck];
    if !u1.skips_verification() {
        let vk = verification_key(u1.prefix(), u1.outbox().last().token@);
        assert(u1.verifications().contains_key(vk));
    }
    assert(u2.credentials().contains_key(ck));
    assert(u2.credentials()[ck].email_verified);
    assert(password_matches(password, u2.credentials()[ck].password_salt@, u2.credentials()[ck].password_hash@));
    let u = choose|u: Result<String, Error>|
        #[trigger] authenticated(pre.user_store, req.email@, password, u) && match u {
            Ok(id) => r matches Ok(resp) && resp.token@.len() == TOKEN_LEN
                && post.session_store.sessions() == pre.session_store.sessions().insert(
                session_key(resp.token@),
                UserPrincipal { id },
            ),
            Err(e) => r == Err::<LoginResponse, Error>(e) && post.session_store == pre.session_store,
        };
    assert(u matches Ok(id) && id@ == user_id@);
    let id = u->Ok_0;
    let resp = r->Ok_0;
    lemma_create_then_resolve(pre.session_store.sessions(), UserPrincipal { id }, resp.token@);
}

/// Registering one email twice through the service: the first registration
/// succeeds, the second is `UserExists` and leaves every account as it was.
pub proof fn lemma_service_register_twice(
    a0: AuthService,
    a1: AuthService,
    a2: AuthService,
    req1: RegisterRequest,
    req2: RegisterRequest,
    r1: Result<RegisterResponse, Error>,
    r2: Result<RegisterResponse, Error>,
)
    requires
        !a0.user_store.email_taken(req1.email@),
        req2.email@ == req1.email@,
        encode_utf8(req1.password@).len() <= ARGON2_MAX_LEN,
        encode_utf8(req2.password@).len() <= ARGON2_MAX_LEN,
        registers(a0, a1, req1, r1),
        registers(a1, a2, req2, r2),
    ensures
        r1 is Ok,
        r2 == Err::<RegisterResponse, Error>(Error::UserExists),
        a2.user_store.credentials() == a1.user_store.credentials(),
{
    let u1 = choose|u: Result<String, Error>|
        #[trigger] registration(a0.user_store, a1.user_store, req1.email@, encode_utf8(req1.password@), u)
            && same_outcome(u, r1);
    let u2 = choose|u: Result<String, Error>|
        #[trigger] registration(a1.user_store, a2.user_store, req2.email@, encode_utf8(req2.password@), u)
            && same_outcome(u, r2);
    lemma_register_twice(
        a0.user_store,
        a1.user_store,
        a2.user_store,
        req1.email@,
        encode_utf8(req1.password@),
        encode_utf8(req2.password@),
        u1,
        u2,
    );
}

} // verus!
