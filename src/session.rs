use vstd::prelude::*;
use crate::error::Error;
use crate::store::Table;
use crate::token::{new_token, TOKEN_LEN};

verus! {

/// The authenticated identity: the user id assigned at registration.
pub struct UserPrincipal {
    pub id: String,
}

impl UserPrincipal {
    /// A copy of the principal.
    pub fn duplicate(&self) -> (r: UserPrincipal)
        ensures
            r == *self,
    {
        UserPrincipal { id: self.id.clone() }
    }
}

/// The capability of turning the authorization of an inbound request into
/// a principal: resolved, or refused with an error.
pub trait HttpPrincipalResolver<P> {
    /// Whether the resolver is in a state to serve requests.
    spec fn ready(&self) -> bool;

    /// The principal that an authorization header resolves to, if any.
    spec fn resolves(&self, header: Option<Seq<char>>) -> Option<P>;

    /// Resolves the authorization header of a request: the principal it
    /// resolves to, or `InvalidCredentials`.
    fn resolve(&self, authorization: Option<&str>) -> (r: Result<P, Error>)
        requires
            self.ready(),
        ensures
            match self.resolves(header_view(authorization)) {
                Some(p) => r == Ok::<P, Error>(p),
                None => r == Err::<P, Error>(Error::InvalidCredentials),
            },
    ;
}

/// Key of the session of `token`.
pub open spec fn session_key(token: Seq<char>) -> Seq<char> {
    "sessions:"@ + token
}

/// The text in front of the token in an authorization header.
pub open spec fn bearer_prefix() -> Seq<char> {
    "Bearer "@
}

/// The token of an authorization header of the form `Bearer <token>`.
pub open spec fn bearer_token_of(header: Seq<char>) -> Option<Seq<char>> {
    let n = bearer_prefix().len();
    if header.len() >= n && header.subrange(0, n as int) == bearer_prefix() {
        Some(header.subrange(n as int, header.len() as int))
    } else {
        None
    }
}

/// The text of an optional header.
pub open spec fn header_view(authorization: Option<&str>) -> Option<Seq<char>> {
    match authorization {
        Some(h) => Some(h@),
        None => None,
    }
}

/// The principal that an authorization header resolves to among `sessions`:
/// none where the header is missing, is not a bearer header, or names a
/// token without a session.
pub open spec fn resolution(
    sessions: Map<Seq<char>, UserPrincipal>,
    header: Option<Seq<char>>,
) -> Option<UserPrincipal> {
    match header {
        None => None,
        Some(h) => match bearer_token_of(h) {
            None => None,
            Some(t) => if sessions.contains_key(session_key(t)) {
                Some(sessions[session_key(t)])
            } else {
                None
            },
        },
    }
}

/// Takes the token out of a bearer authorization header.
pub fn bearer_token(header: &str) -> (r: Option<&str>)
    ensures
        r matches Some(t) ==> bearer_token_of(header@) == Some(t@),
        r is None ==> bearer_token_of(header@) is None,
{
    let prefix = "Bearer ";
    proof {
        reveal_strlit("Bearer ");
    }
    let n = prefix.unicode_len();
    let len = header.unicode_len();
    if len < n {
        return None;
    }
    let mut i: usize = 0;
    while i < n
        invariant
            n == prefix@.len(),
            prefix@ == bearer_prefix(),
            len == header@.len(),
            n <= len,
            i <= n,
            forall|j: int| 0 <= j < i ==> header@[j] == prefix@[j],
        decreases n - i,
    {
        if header.get_char(i) != prefix.get_char(i) {
            assert(header@.subrange(0, n as int)[i as int] != bearer_prefix()[i as int]);
            return None;
        }
        i = i + 1;
    }
    assert(header@.subrange(0, n as int) =~= bearer_prefix());
    Some(header.substring_char(n, len))
}

/// The session store: opaque random bearer tokens, each bound to a principal.
pub struct SessionStore {
    sessions: Table<UserPrincipal>,
}

impl SessionStore {
    /// The live sessions, by key.
    pub closed spec fn sessions(&self) -> Map<Seq<char>, UserPrincipal> {
        self.sessions@
    }

    pub closed spec fn wf(&self) -> bool {
        self.sessions.wf()
    }

    /// An empty store.
    pub fn new() -> (r: Self)
        ensures
            r.wf(),
            r.sessions() == Map::<Seq<char>, UserPrincipal>::empty(),
    {
        SessionStore { sessions: Table::new() }
    }

    /// The key of the session of `token`.
    pub fn session_key(&self, token: &str) -> (r: String)
        ensures
            r@ == session_key(token@),
    {
        let mut key = String::from_str("sessions:");
        key.append(token);
        key
    }

    /// Opens a session for `user` under a fresh random token and returns the
    /// token.
    pub fn create(&mut self, user: UserPrincipal) -> (r: String)
        requires
            old(self).wf(),
        ensures
            final(self).wf(),
            r@.len() == TOKEN_LEN,
            final(self).sessions() == old(self).sessions().insert(session_key(r@), user),
    {
        let token = new_token();
        let key = self.session_key(token.as_str());
        self.sessions.put(key, user);
        token
    }

    /// Ends the session of `token`, if there is one.
    pub fn remove(&mut self, token: &str)
        requires
            old(self).wf(),
        ensures
            final(self).wf(),
            final(self).sessions() == old(self).sessions().remove(session_key(token@)),
    {
        let key = self.session_key(token);
        let _ = self.sessions.remove(&key);
    }

    /// Resolves an authorization header to the principal of its session;
    /// a missing or malformed header, or a token without a session, is
    /// `InvalidCredentials`.
    pub fn resolve_header(&self, authorization: Option<&str>) -> (r: Result<UserPrincipal, Error>)
        requires
            self.wf(),
        ensures
            match resolution(self.sessions(), header_view(authorization)) {
                Some(p) => r == Ok::<UserPrincipal, Error>(p),
                None => r == Err::<UserPrincipal, Error>(Error::InvalidCredentials),
            },
    {
        let header = match authorization {
            Some(h) => h,
            None => {
                return Err(Error::InvalidCredentials);
            },
        };
        let token = match bearer_token(header) {
            Some(t) => t,
            None => {
                return Err(Error::InvalidCredentials);
            },
        };
        let key = self.session_key(token);
        match self.sessions.get(&key) {
            Some(p) => Ok(p.duplicate()),
            None => Err(Error::InvalidCredentials),
        }
    }
}

impl HttpPrincipalResolver<UserPrincipal> for SessionStore {
    open spec fn ready(&self) -> bool {
        self.wf()
    }

    open spec fn resolves(&self, header: Option<Seq<char>>) -> Option<UserPrincipal> {
        resolution(self.sessions(), header)
    }

    fn resolve(&self, authorization: Option<&str>) -> Result<UserPrincipal, Error> {
        self.resolve_header(authorization)
    }
}

/// A token handed out by `create` resolves, in a bearer header, to the
/// principal it was created for.
pub proof fn lemma_create_then_resolve(sessions: Map<Seq<char>, UserPrincipal>, p: UserPrincipal, token: Seq<char>)
    ensures
        resolution(sessions.insert(session_key(token), p), Some(bearer_prefix() + token)) == Some(p),
{
    let h = bearer_prefix() + token;
    assert(h.subrange(0, bearer_prefix().len() as int) =~= bearer_prefix());
    assert(h.subrange(bearer_prefix().len() as int, h.len() as int) =~= token);
}

/// A token without a session, never issued or since removed, resolves to no
/// principal.
pub proof fn lemma_unknown_token_refused(sessions: Map<Seq<char>, UserPrincipal>, token: Seq<char>)
    requires
        !sessions.contains_key(session_key(token)),
    ensures
        resolution(sessions, Some(bearer_prefix() + token)) is None,
{
    let h = bearer_prefix() + token;
    assert(h.subrange(0, bearer_prefix().len() as int) =~= bearer_prefix());
    assert(h.subrange(bearer_prefix().len() as int, h.len() as int) =~= token);
}

/// A token whose session was removed resolves to no principal.
pub proof fn lemma_removed_token_refused(sessions: Map<Seq<char>, UserPrincipal>, token: Seq<char>)
    ensures
        resolution(sessions.remove(session_key(token)), Some(bearer_prefix() + token)) is None,
{
    lemma_unknown_token_refused(sessions.remove(session_key(token)), token);
}

} // verus!
