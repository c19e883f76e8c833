//! Sessions: the object of a long-lived portal session as a client sees it,
//! and the sessions a portal backend serves.

use vstd::prelude::*;
use crate::dbus_names::{all_name_chars, is_object_path};
use crate::error::PortalError;
use crate::handle_token::{is_fresh_token, HandleToken};
use crate::proxy::{desktop_destination, Proxy, ProxyView};
use crate::request::{handle_object_path, handle_path, sender_element, session_base};
use crate::text::str_equals;

verus! {

/// Shared by all portal interfaces that involve long lived sessions: the
/// session object at its path.
#[derive(Debug)]
pub struct Session {
    proxy: Proxy,
}

impl View for Session {
    type V = ProxyView;

    closed spec fn view(&self) -> ProxyView {
        self.proxy@
    }
}

impl Session {
    /// The session object at `path`.
    pub fn new(path: &str, version: u32) -> (s: Session)
        ensures
            s@.destination == desktop_destination(),
            s@.interface == "org.freedesktop.portal.Session"@,
            s@.path == path@,
            s@.version == version,
    {
        Session { proxy: Proxy::new_desktop_with_path("org.freedesktop.portal.Session", path, version) }
    }

    /// The session object that a portal creates for the caller with unique
    /// bus name `unique_name` and the session handle token `token`.
    pub fn from_unique_name(unique_name: &str, token: &HandleToken, version: u32) -> (s: Session)
        requires
            sender_element(unique_name@).len() >= 1,
            all_name_chars(sender_element(unique_name@)),
        ensures
            s@.interface == "org.freedesktop.portal.Session"@,
            s@.path == handle_path(session_base(), unique_name@, token@),
            is_object_path(s@.path),
            s@.version == version,
    {
        let base = "/org/freedesktop/portal/desktop/session";
        proof {
            reveal_strlit("/org/freedesktop/portal/desktop/session");
            assert(is_object_path(base@)) by {
                assert forall|i: int| 0 <= i < base@.len() implies (#[trigger] crate::dbus_names::is_name_char(base@[i]) || base@[i] == '/') by {}
            }
        }
        let path = handle_object_path(base, unique_name, token);
        Session::new(path.as_str(), version)
    }

    /// The object path of the session.
    pub fn path(&self) -> (p: &str)
        ensures
            p@ == self@.path,
    {
        self.proxy.path()
    }

    /// Whether the session handle that a portal answered is the path of this
    /// session, as it must be.
    pub fn has_handle(&self, session_handle: &str) -> (b: bool)
        ensures
            b == (self@.path == session_handle@),
    {
        str_equals(self.proxy.path(), session_handle)
    }
}

/// The session object a portal backend serves.
#[derive(Debug)]
pub struct BackendSession {}

impl BackendSession {
    /// The version of the session interface that the backend implements.
    pub fn version(&self) -> (v: u32)
        ensures
            v == 2,
    {
        2
    }

    /// Closes the session; this always succeeds.
    pub fn close(&self) -> (r: Result<(), PortalError>)
        ensures
            r is Ok,
    {
        Ok(())
    }
}

/// The message of the error a backend answers to a request to create a
/// session whose handle token is taken.
pub open spec fn session_exists_message(token: Seq<char>) -> Seq<char> {
    "A session with handle `"@ + token + "` already exists"@
}

/// Whether a backend serving the sessions `served` refuses to create one
/// with the handle token `token`.
pub open spec fn refuses_session(served: Set<Seq<char>>, token: Seq<char>) -> bool {
    served.contains(token)
}

/// The message of the error a backend answers to a request on a session
/// whose handle token it does not serve.
pub open spec fn session_unknown_message(token: Seq<char>) -> Seq<char> {
    "A session with handle `"@ + token + "` does not exist"@
}

/// Whether a backend serving the sessions `served` refuses a request on the
/// session with the handle token `token`.
pub open spec fn refuses_unknown_session(served: Set<Seq<char>>, token: Seq<char>) -> bool {
    !served.contains(token)
}

/// Through the life of a session: before it is created, requests on it are
/// refused and its creation is not; once created, its creation is refused a
/// second time and requests on it are taken; once removed, both are as at
/// first. Creating or removing one session changes nothing for the others.
pub proof fn lemma_session_lifecycle(served: Set<Seq<char>>, token: Seq<char>, other: Seq<char>)
    requires
        other != token,
        !served.contains(token),
    ensures
        refuses_unknown_session(served, token) && !refuses_session(served, token),
        refuses_session(served.insert(token), token),
        !refuses_unknown_session(served.insert(token), token),
        refuses_unknown_session(served.insert(token).remove(token), token),
        !refuses_session(served.insert(token).remove(token), token),
        refuses_session(served.insert(token), other) == refuses_session(served, other),
        refuses_session(served.remove(token), other) == refuses_session(served, other),
        refuses_unknown_session(served.insert(token), other) == refuses_unknown_session(served, other),
        refuses_unknown_session(served.remove(token), other) == refuses_unknown_session(served, other),
{
}

/// The texts of a list of tokens.
pub open spec fn token_texts(v: Seq<String>) -> Seq<Seq<char>> {
    v.map_values(|s: String| s@)
}

/// The sessions a portal backend serves, by the text of their handle
/// tokens, each once.
#[derive(Debug)]
pub struct SessionRegistry {
    tokens: Vec<String>,
}

impl View for SessionRegistry {
    type V = Set<Seq<char>>;

    closed spec fn view(&self) -> Set<Seq<char>> {
        token_texts(self.tokens@).to_set()
    }
}

impl SessionRegistry {
    #[verifier::type_invariant]
    spec fn inv(self) -> bool {
        forall|i: int, j: int| 0 <= i < j < self.tokens@.len() ==> self.tokens@[i]@ != self.tokens@[j]@
    }

    /// No sessions.
    pub fn new() -> (r: SessionRegistry)
        ensures
            r@ == Set::<Seq<char>>::empty(),
    {
        let r = SessionRegistry { tokens: Vec::new() };
        assert(r@ =~= Set::<Seq<char>>::empty());
        r
    }

    fn index_of(&self, token: &str) -> (r: Option<usize>)
        ensures
            match r {
                Some(i) => i < self.tokens@.len() && self.tokens@[i as int]@ == token@,
                None => forall|i: int| 0 <= i < self.tokens@.len() ==> self.tokens@[i]@ != token@,
            },
    {
        let mut i: usize = 0;
        while i < self.tokens.len()
            invariant
                i <= self.tokens@.len(),
                forall|j: int| 0 <= j < i ==> self.tokens@[j]@ != token@,
            decreases self.tokens@.len() - i,
        {
            if str_equals(self.tokens[i].as_str(), token) {
                return Some(i);
            }
            i = i + 1;
        }
        None
    }

    proof fn lemma_view_contains(&self, t: Seq<char>)
        ensures
            self@.contains(t) <==> exists|i: int| 0 <= i < self.tokens@.len() && self.tokens@[i]@ == t,
    {
        let m = token_texts(self.tokens@);
        if self@.contains(t) {
            let i = choose|i: int| 0 <= i < m.len() && m[i] == t;
            assert(self.tokens@[i]@ == t);
        }
        if exists|i: int| 0 <= i < self.tokens@.len() && self.tokens@[i]@ == t {
            let i = choose|i: int| 0 <= i < self.tokens@.len() && self.tokens@[i]@ == t;
            assert(m[i] == t);
        }
    }

    /// Whether a session with the given handle token is served.
    pub fn contains(&self, token: &HandleToken) -> (b: bool)
        ensures
            b == self@.contains(token@),
    {
        proof {
            self.lemma_view_contains(token@);
        }
        self.index_of(token.as_str()).is_some()
    }

    /// Refuses to create a session whose handle token is taken.
    pub fn check_new(&self, token: &HandleToken) -> (r: Result<(), PortalError>)
        ensures
            r is Err <==> refuses_session(self@, token@),
            r matches Err(e) ==> (e matches PortalError::Exist(m) && m@ == session_exists_message(token@)),
    {
        if self.contains(token) {
            let mut m = String::from_str("A session with handle `");
            m.append(token.as_str());
            m.append("` already exists");
            Err(PortalError::Exist(m))
        } else {
            Ok(())
        }
    }

    /// Refuses a request on a session whose handle token is not served.
    pub fn check_known(&self, token: &HandleToken) -> (r: Result<(), PortalError>)
        ensures
            r is Err <==> refuses_unknown_session(self@, token@),
            r matches Err(e) ==> (e matches PortalError::NotFound(m) && m@ == session_unknown_message(token@)),
    {
        if self.contains(token) {
            Ok(())
        } else {
            let mut m = String::from_str("A session with handle `");
            m.append(token.as_str());
            m.append("` does not exist");
            Err(PortalError::NotFound(m))
        }
    }

    /// Records what creating a session with the given handle token gave:
    /// the session is served where its creation succeeded.
    pub fn finish_create(&mut self, token: &HandleToken, succeeded: bool)
        ensures
            final(self)@ == (if succeeded {
                old(self)@.insert(token@)
            } else {
                old(self)@
            }),
    {
        if succeeded {
            self.add(token);
        }
    }

    /// Serves a session with the given handle token.
    pub fn add(&mut self, token: &HandleToken)
        ensures
            final(self)@ == old(self)@.insert(token@),
    {
        proof {
            use_type_invariant(&*self);
            self.lemma_view_contains(token@);
        }
        if self.index_of(token.as_str()).is_none() {
            let ghost before = self.tokens@;
            let mut tokens = Vec::new();
            std::mem::swap(&mut tokens, &mut self.tokens);
            tokens.push(token.to_string());
            assert(token_texts(tokens@) =~= token_texts(before).push(token@));
            proof {
                token_texts(before).lemma_push_to_set_commute(token@);
            }
            self.tokens = tokens;
        }
    }

    /// Stops serving the session with the given handle token.
    pub fn remove(&mut self, token: &HandleToken)
        ensures
            final(self)@ == old(self)@.remove(token@),
    {
        proof {
            use_type_invariant(&*self);
            self.lemma_view_contains(token@);
        }
        match self.index_of(token.as_str()) {
            Some(i) => {
                let ghost before = self.tokens@;
                let mut tokens = Vec::new();
                std::mem::swap(&mut tokens, &mut self.tokens);
                tokens.remove(i);
                assert forall|t: Seq<char>| #[trigger] token_texts(tokens@).to_set().contains(t) <==> token_texts(before).to_set().remove(token@).contains(t) by {
                    let m0 = token_texts(before);
                    let m1 = token_texts(tokens@);
                    if m1.to_set().contains(t) {
                        let k = choose|k: int| 0 <= k < m1.len() && m1[k] == t;
                        if k < i {
                            assert(m0[k] == t);
                        } else {
                            assert(m0[k + 1] == t);
                        }
                    }
                    if m0.to_set().contains(t) && t != token@ {
                        let k = choose|k: int| 0 <= k < m0.len() && m0[k] == t;
                        if k < i {
                            assert(m1[k] == t);
                        } else {
                            assert(k != i);
                            assert(m1[k - 1] == t);
                        }
                    }
                }
                assert(token_texts(tokens@).to_set() =~= token_texts(before).to_set().remove(token@));
                self.tokens = tokens;
            },
            None => {
                assert(self@ =~= self@.remove(token@));
            },
        }
    }
}

/// The options of a request that creates a session: a handle token for the
/// request and one for the session.
#[derive(Debug)]
pub struct SessionOptions {
    handle_token: HandleToken,
    session_handle_token: HandleToken,
}

impl SessionOptions {
    /// Options with two fresh handle tokens.
    pub fn default() -> (o: SessionOptions)
        ensures
            is_fresh_token(o.spec_token()),
            is_fresh_token(o.spec_session_token()),
    {
        SessionOptions { handle_token: HandleToken::default(), session_handle_token: HandleToken::default() }
    }

    /// The text of the request's handle token.
    pub closed spec fn spec_token(self) -> Seq<char> {
        self.handle_token@
    }

    /// The text of the session's handle token.
    pub closed spec fn spec_session_token(self) -> Seq<char> {
        self.session_handle_token@
    }

    /// The handle token of the request.
    pub fn handle_token(&self) -> (t: &HandleToken)
        ensures
            t@ == self.spec_token(),
    {
        &self.handle_token
    }

    /// The handle token of the session.
    pub fn session_handle_token(&self) -> (t: &HandleToken)
        ensures
            t@ == self.spec_session_token(),
    {
        &self.session_handle_token
    }
}

} // verus!
