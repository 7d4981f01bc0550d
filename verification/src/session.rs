//! The session lifecycle: binding a client's session to an authenticated
//! identity, validating it on every request, and tearing it down on logout
//! or on a forced invalidation.

use vstd::prelude::*;
use vstd::string::StringExecFns;
use crate::auth::{seed_of, AuthError, Backend, Credentials, User};

verus! {

/// The two states a client's session cycles through for its lifetime.  An
/// authenticated session carries the bound identity's id together with the
/// integrity seed that was current when the session was created.
pub enum SessionState {
    Anonymous,
    Authenticated { user_id: i64, integrity_seed: Vec<u8> },
}

/// One client's session record.  The initial state is anonymous; a
/// successful login binds it, a logout or a failed validation pass forces it
/// back to anonymous.
pub struct Session {
    state: SessionState,
}

impl Session {
    pub closed spec fn spec_state(&self) -> SessionState {
        self.state
    }

    /// A session is bound to a backend's identity when it is authenticated,
    /// its bound id resolves to that identity, and its stored integrity seed
    /// equals the seed derived from the identity's current secret.  This is
    /// the condition under which a validation pass accepts the session.
    pub open spec fn spec_bound_to(&self, backend: &Backend) -> bool {
        &&& self.spec_state() matches SessionState::Authenticated { user_id, integrity_seed }
        &&& user_id == backend.spec_user().spec_id()
        &&& integrity_seed@ == seed_of(backend.spec_user().spec_secret())
    }

    pub fn new() -> (session: Session)
        ensures
            session.spec_state() is Anonymous,
    {
        Session { state: SessionState::Anonymous }
    }

    /// Binds the session to an authenticated identity: stores its id and the
    /// integrity seed derived from its current secret.
    pub fn login(&mut self, user: &User)
        ensures
            final(self).spec_state() matches SessionState::Authenticated {
                user_id,
                integrity_seed,
            } && user_id == user.spec_id() && integrity_seed@ == seed_of(user.spec_secret()),
    {
        let seed = vstd::slice::slice_to_vec(user.session_auth_hash());
        self.state = SessionState::Authenticated { user_id: user.id(), integrity_seed: seed };
    }

    /// Destroys the session binding.
    pub fn logout(&mut self)
        ensures
            final(self).spec_state() is Anonymous,
    {
        self.state = SessionState::Anonymous;
    }

    /// The validation pass run on every authenticated request: the session
    /// yields its identity exactly when it is still bound to the backend's
    /// identity, that is, the bound id still resolves and the stored
    /// integrity seed still matches the identity's current secret.  Any
    /// other session is forced back to anonymous.
    pub fn validate(&mut self, backend: &Backend) -> (user: Option<User>)
        ensures
            user is Some <==> old(self).spec_bound_to(backend),
            user matches Some(u) ==> u == backend.spec_user() && *final(self) == *old(self),
            user is None ==> final(self).spec_state() is Anonymous,
    {
        let accepted: Option<User> = match &self.state {
            SessionState::Anonymous => None,
            SessionState::Authenticated { user_id, integrity_seed } => {
                match backend.get_user(user_id) {
                    Ok(Some(user)) => {
                        if bytes_eq(integrity_seed.as_slice(), user.session_auth_hash()) {
                            Some(user)
                        } else {
                            None
                        }
                    },
                    Ok(None) => None,
                    Err(_) => None,
                }
            },
        };
        if accepted.is_none() {
            self.state = SessionState::Anonymous;
        }
        accepted
    }
}

/// The decision taken on a login submission.  Matching credentials bind the
/// session to the identity and redirect to the requested target, or to the
/// landing page when none was requested.  Anything else leaves the session
/// untouched and redirects back to the login page, preserving the requested
/// target as a query parameter.
pub fn handle_login(backend: &Backend, session: &mut Session, creds: Credentials) -> (target:
    String)
    ensures
        backend.credentials_match(creds.username@, creds.password@) ==> ({
            &&& final(session).spec_bound_to(backend)
            &&& creds.next matches Some(next) ==> target@ == next@
            &&& creds.next is None ==> target@ == "/"@
        }),
        !backend.credentials_match(creds.username@, creds.password@) ==> ({
            &&& *final(session) == *old(session)
            &&& creds.next matches Some(next) ==> target@ == "/login?next="@ + next@
            &&& creds.next is None ==> target@ == "/login"@
        }),
{
    let result = backend.authenticate(creds.clone());
    match result {
        Ok(Some(user)) => {
            session.login(&user);
            match creds.next {
                Some(next) => next,
                None => "/".to_owned(),
            }
        },
        Ok(None) => {
            match creds.next {
                Some(next) => "/login?next=".to_owned().concat(next.as_str()),
                None => "/login".to_owned(),
            }
        },
        Err(_) => "/login".to_owned(),
    }
}

/// The decision taken on a logout request: the session is destroyed and the
/// client is redirected back to the login page.
pub fn handle_logout(session: &mut Session) -> (target: String)
    ensures
        final(session).spec_state() is Anonymous,
        target@ == "/login"@,
{
    session.logout();
    "/login".to_owned()
}

/// Exact byte-for-byte comparison of two slices.
fn bytes_eq(left: &[u8], right: &[u8]) -> (equal: bool)
    ensures
        equal <==> left@ == right@,
{
    if left.len() != right.len() {
        return false;
    }
    let mut i: usize = 0;
    while i < left.len()
        invariant
            left@.len() == right@.len(),
            i <= left@.len(),
            forall|j: int| 0 <= j < i ==> left@[j] == right@[j],
        decreases left@.len() - i,
    {
        if left[i] != right[i] {
            return false;
        }
        i += 1;
    }
    proof {
        assert(left@ =~= right@);
    }
    true
}

} // verus!
