//! The identity store and the authentication backend.

use vstd::prelude::*;

verus! {

/// The byte sequence that a session token stores to detect secret changes:
/// the UTF-8 encoding of the secret itself.  Two identities carry the same
/// seed exactly when they carry the same secret (see
/// [`lemma_seed_tracks_secret`]).
pub open spec fn seed_of(secret: Seq<char>) -> Seq<u8> {
    vstd::utf8::encode_utf8(secret)
}

/// The single account recognized by the system: an id, a username and a
/// plaintext secret.  It is constructed once at startup and never mutated
/// afterwards.
#[derive(Debug)]
pub struct User {
    id: i64,
    pub username: String,
    password: String,
}

impl User {
    pub closed spec fn spec_id(&self) -> i64 {
        self.id
    }

    pub closed spec fn spec_username(&self) -> Seq<char> {
        self.username@
    }

    pub closed spec fn spec_secret(&self) -> Seq<char> {
        self.password@
    }

    /// Builds an identity from an injected configuration value.
    pub fn new(id: i64, username: String, password: String) -> (user: User)
        ensures
            user.spec_id() == id,
            user.spec_username() == username@,
            user.spec_secret() == password@,
    {
        User { id, username, password }
    }

    /// The statically configured account.
    pub fn from_env() -> (user: User)
        ensures
            user.spec_id() == 1,
            user.spec_username() == "admin"@,
            user.spec_secret() == "password"@,
    {
        User { id: 1, username: "admin".to_owned(), password: "password".to_owned() }
    }

    pub fn id(&self) -> (id: i64)
        ensures
            id == self.spec_id(),
    {
        self.id
    }

    /// The session-integrity seed: the bytes of the current secret.  The
    /// session layer stores this value beside the bound id; when the secret
    /// changes, the stored seed no longer matches and the session is
    /// invalidated on its next validation pass.
    pub fn session_auth_hash(&self) -> (seed: &[u8])
        ensures
            seed@ == seed_of(self.spec_secret()),
    {
        self.password.as_str().as_bytes()
    }
}

impl Clone for User {
    fn clone(&self) -> (other: Self)
        ensures
            other == *self,
    {
        User {
            id: self.id,
            username: self.username.clone(),
            password: self.password.clone(),
        }
    }
}

/// An opaque backend-level error for infrastructure faults.  A credential
/// mismatch is never an error: it is the normal "no identity" outcome.  The
/// minimal backend has no fault path, so no verified function here ever
/// constructs one, but the signatures keep the fault channel that callers
/// rely on.
#[derive(Debug)]
pub struct AuthError {
    message: String,
}

impl AuthError {
    pub closed spec fn spec_message(&self) -> Seq<char> {
        self.message@
    }

    pub fn new(message: String) -> (error: AuthError)
        ensures
            error.spec_message() == message@,
    {
        AuthError { message }
    }

    pub fn message(&self) -> (message: &String)
        ensures
            message@ == self.spec_message(),
    {
        &self.message
    }
}

/// A login submission: the credential pair as decoded from the form, plus an
/// optional redirect target to return to after a successful login.
#[derive(Debug)]
pub struct Credentials {
    pub username: String,
    pub password: String,
    pub next: Option<String>,
}

impl Clone for Credentials {
    fn clone(&self) -> (other: Self)
        ensures
            other == *self,
    {
        Credentials {
            username: self.username.clone(),
            password: self.password.clone(),
            next: match &self.next {
                Some(next) => Some(next.clone()),
                None => None,
            },
        }
    }
}

/// The authentication backend: the gatekeeper between raw credentials or
/// session-bound ids and the configured identity.
#[derive(Debug)]
pub struct Backend {
    user: User,
}

impl Clone for Backend {
    fn clone(&self) -> (other: Self)
        ensures
            other == *self,
    {
        Backend { user: self.user.clone() }
    }
}

impl Backend {
    pub closed spec fn spec_user(&self) -> User {
        self.user
    }

    /// Whether a credential pair matches the configured identity, by exact
    /// string equality on both the username and the secret.
    pub open spec fn credentials_match(&self, username: Seq<char>, secret: Seq<char>) -> bool {
        username == self.spec_user().spec_username() && secret == self.spec_user().spec_secret()
    }

    /// What `authenticate` yields: the identity exactly when the pair
    /// matches, absence otherwise.
    pub open spec fn spec_authenticate(&self, username: Seq<char>, secret: Seq<char>) -> Option<
        User,
    > {
        if self.credentials_match(username, secret) {
            Some(self.spec_user())
        } else {
            None
        }
    }

    /// What `get_user` yields: the identity exactly when the id is the
    /// configured one, absence otherwise.
    pub open spec fn spec_resolve(&self, user_id: i64) -> Option<User> {
        if user_id == self.spec_user().spec_id() {
            Some(self.spec_user())
        } else {
            None
        }
    }

    pub fn new(user: User) -> (backend: Backend)
        ensures
            backend.spec_user() == user,
    {
        Backend { user }
    }

    /// Answers whether the submitted credentials match the configured
    /// identity.  A mismatch is the normal absent outcome, never an error;
    /// the minimal backend has no infrastructure fault path, so the result
    /// is always the authoritative answer.
    pub fn authenticate(&self, creds: Credentials) -> (result: Result<Option<User>, AuthError>)
        ensures
            result == Ok::<Option<User>, AuthError>(
                self.spec_authenticate(creds.username@, creds.password@),
            ),
    {
        if creds.username == self.user.username && creds.password == self.user.password {
            Ok(Some(self.user.clone()))
        } else {
            Ok(None)
        }
    }

    /// Resolves a session-bound id back to the configured identity.  The
    /// session layer calls this on every authenticated request to confirm
    /// the bound identity still exists.
    pub fn get_user(&self, user_id: &i64) -> (result: Result<Option<User>, AuthError>)
        ensures
            result == Ok::<Option<User>, AuthError>(self.spec_resolve(*user_id)),
    {
        if *user_id == self.user.id {
            Ok(Some(self.user.clone()))
        } else {
            Ok(None)
        }
    }
}

/// Resolution is idempotent: the answer for an id is a function of the
/// backend and the id alone, so repeated calls to `get_user` with the same
/// id against the same backend return equal results.  `first` and `second`
/// stand for the results of two such calls, each as `get_user` promises it.
pub proof fn lemma_resolve_idempotent(
    backend: Backend,
    user_id: i64,
    first: Result<Option<User>, AuthError>,
    second: Result<Option<User>, AuthError>,
)
    requires
        first == Ok::<Option<User>, AuthError>(backend.spec_resolve(user_id)),
        second == Ok::<Option<User>, AuthError>(backend.spec_resolve(user_id)),
    ensures
        first == second,
{
}

/// The integrity seed tracks the secret exactly: two identities carry the
/// same seed if and only if they carry the same secret.  In particular two
/// calls to `session_auth_hash` on the same unmodified identity return equal
/// byte sequences, and a secret change always changes the seed.
pub proof fn lemma_seed_tracks_secret(first: User, second: User)
    ensures
        seed_of(first.spec_secret()) == seed_of(second.spec_secret()) <==> first.spec_secret()
            == second.spec_secret(),
{
    if seed_of(first.spec_secret()) == seed_of(second.spec_secret()) {
        vstd::utf8::encode_utf8_decode_utf8(first.spec_secret());
        vstd::utf8::encode_utf8_decode_utf8(second.spec_secret());
    }
}

} // verus!
