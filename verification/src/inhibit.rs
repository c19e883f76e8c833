//! The inhibit portal: what a session may inhibit and the state of the
//! login session.

use vstd::prelude::*;
use crate::handle_token::{is_fresh_token, HandleToken};
use crate::proxy::{desktop_destination, desktop_path, Proxy, ProxyView};
use crate::text::{owned, opt_text};

verus! {

/// The actions to inhibit that can end the user's session.
#[derive(Debug, Clone, Copy, PartialEq, Eq, Structural)]
pub enum InhibitFlags {
    /// Logout.
    Logout,
    /// User switch.
    UserSwitch,
    /// Suspend.
    Suspend,
    /// Idle.
    Idle,
}

/// The bit that stands for a [`InhibitFlags`].
pub open spec fn inhibit_flags_bit(x: InhibitFlags) -> u32 {
    match x {
        InhibitFlags::Logout => 1,
        InhibitFlags::UserSwitch => 2,
        InhibitFlags::Suspend => 4,
        InhibitFlags::Idle => 8,
    }
}

/// What `inhibit_flags_bit` gives, value by value, each different from the others:
/// Logout is 1; UserSwitch is 2; Suspend is 4; Idle is 8.
pub proof fn lemma_inhibit_flags_bit_values(x: InhibitFlags)
    ensures
        (inhibit_flags_bit(x) == 1) == (x is Logout),
        (inhibit_flags_bit(x) == 2) == (x is UserSwitch),
        (inhibit_flags_bit(x) == 4) == (x is Suspend),
        (inhibit_flags_bit(x) == 8) == (x is Idle),
{
}

impl InhibitFlags {
    /// The bit that stands for the value.
    pub fn bits(self) -> (b: u32)
        ensures
            b == inhibit_flags_bit(self),
    {
        match self {
            InhibitFlags::Logout => 1,
            InhibitFlags::UserSwitch => 2,
            InhibitFlags::Suspend => 4,
            InhibitFlags::Idle => 8,
        }
    }

    /// The value that a single bit stands for.
    pub fn from_bit(bit: u32) -> (x: Option<InhibitFlags>)
        ensures
            match x {
                Some(v) => inhibit_flags_bit(v) == bit,
                None => bit != 1 && bit != 2 && bit != 4 && bit != 8,
            },
    {
        if bit == 1 {
            Some(InhibitFlags::Logout)
        } else if bit == 2 {
            Some(InhibitFlags::UserSwitch)
        } else if bit == 4 {
            Some(InhibitFlags::Suspend)
        } else if bit == 8 {
            Some(InhibitFlags::Idle)
        } else {
            None
        }
    }

    /// The bits of all values.
    pub fn all_bits() -> (b: u32)
        ensures
            b == 15,
    {
        15
    }
}

/// The current state of the user's session.
#[derive(Debug, Clone, Copy, PartialEq, Eq, Structural)]
pub enum SessionState {
    /// Running.
    Running,
    /// The user asked to end the session e.g logout.
    QueryEnd,
    /// The session is ending.
    Ending,
}

/// The number that stands for a [`SessionState`] on the bus.
pub open spec fn session_state_code(x: SessionState) -> u32 {
    match x {
        SessionState::Running => 1,
        SessionState::QueryEnd => 2,
        SessionState::Ending => 3,
    }
}

/// What `session_state_code` gives, value by value, each different from the others:
/// Running is 1; QueryEnd is 2; Ending is 3.
pub proof fn lemma_session_state_code_values(x: SessionState)
    ensures
        (session_state_code(x) == 1) == (x is Running),
        (session_state_code(x) == 2) == (x is QueryEnd),
        (session_state_code(x) == 3) == (x is Ending),
{
}

impl SessionState {
    /// The number that stands for the value on the bus.
    pub fn code(self) -> (n: u32)
        ensures
            n == session_state_code(self),
    {
        match self {
            SessionState::Running => 1,
            SessionState::QueryEnd => 2,
            SessionState::Ending => 3,
        }
    }

    /// The value that a number stands for on the bus.
    pub fn from_code(n: u32) -> (x: Option<SessionState>)
        ensures
            match x {
                Some(v) => session_state_code(v) == n,
                None => n != 1 && n != 2 && n != 3,
            },
    {
        if n == 1 {
            Some(SessionState::Running)
        } else if n == 2 {
            Some(SessionState::QueryEnd)
        } else if n == 3 {
            Some(SessionState::Ending)
        } else {
            None
        }
    }
}

/// Decoding the number of a value gives the value back.
pub proof fn lemma_session_state_code_round_trip(x: SessionState)
    ensures
        forall|y: SessionState| session_state_code(y) == session_state_code(x) ==> y == x,
{
}

/// The state of the screensaver and of the user's session, as the portal
/// reports it.
#[derive(Debug)]
pub struct InhibitState {
    session_handle: String,
    screensaver_active: bool,
    session_state: SessionState,
}

impl InhibitState {
    /// The state reported for the given session.
    pub fn new(session_handle: String, screensaver_active: bool, session_state: SessionState) -> (s: InhibitState)
        ensures
            s.spec_session_handle() == session_handle@,
            s.spec_screensaver_active() == screensaver_active,
            s.spec_session_state() == session_state,
    {
        InhibitState { session_handle, screensaver_active, session_state }
    }

    /// The session's object path.
    pub closed spec fn spec_session_handle(self) -> Seq<char> {
        self.session_handle@
    }

    /// Whether the screensaver is active.
    pub closed spec fn spec_screensaver_active(self) -> bool {
        self.screensaver_active
    }

    /// The session state.
    pub closed spec fn spec_session_state(self) -> SessionState {
        self.session_state
    }

    /// Whether the screensaver is on.
    pub fn screensaver_active(&self) -> (b: bool)
        ensures
            b == self.spec_screensaver_active(),
    {
        self.screensaver_active
    }

    /// The user's session state.
    pub fn session_state(&self) -> (s: SessionState)
        ensures
            s == self.spec_session_state(),
    {
        self.session_state
    }

    /// The session the state belongs to.
    pub fn session_handle(&self) -> (s: &str)
        ensures
            s@ == self.spec_session_handle(),
    {
        self.session_handle.as_str()
    }
}

/// The options of a request to inhibit session actions.
#[derive(Debug)]
pub struct InhibitOptions {
    handle_token: HandleToken,
    reason: Option<String>,
}

impl InhibitOptions {
    /// Options with a fresh handle token and no reason.
    pub fn default() -> (o: InhibitOptions)
        ensures
            o.spec_reason() is None,
            is_fresh_token(o.spec_token()),
    {
        InhibitOptions { handle_token: HandleToken::default(), reason: None }
    }

    /// The reason, if one is set.
    pub closed spec fn spec_reason(self) -> Option<Seq<char>> {
        opt_text(self.reason)
    }

    /// The handle token of the request.
    pub closed spec fn spec_token(self) -> Seq<char> {
        self.handle_token@
    }

    /// Sets a user-visible reason for the inhibition.
    pub fn reason(self, reason: &str) -> (o: InhibitOptions)
        ensures
            o.spec_reason() == Some(reason@),
            o.spec_token() == self.spec_token(),
    {
        let mut o = self;
        o.reason = Some(owned(reason));
        o
    }

    /// The handle token of the request.
    pub fn handle_token(&self) -> (t: &HandleToken)
        ensures
            t@ == self.spec_token(),
    {
        &self.handle_token
    }
}

/// Inhibit the user session from ending, suspending, idling or getting switched away.
///
/// Wrapper of the DBus interface `org.freedesktop.portal.Inhibit`.
#[derive(Debug)]
pub struct InhibitProxy {
    proxy: Proxy,
}

impl View for InhibitProxy {
    type V = ProxyView;

    closed spec fn view(&self) -> ProxyView {
        self.proxy@
    }
}

impl InhibitProxy {
    /// The portal, which implements the given version of its interface.
    pub fn new(version: u32) -> (p: InhibitProxy)
        ensures
            p@.destination == desktop_destination(),
            p@.interface == "org.freedesktop.portal.Inhibit"@,
            p@.path == desktop_path(),
            p@.version == version,
    {
        InhibitProxy { proxy: Proxy::new_desktop("org.freedesktop.portal.Inhibit", version) }
    }

    /// Where the portal's calls go.
    pub fn inner(&self) -> (p: &Proxy)
        ensures
            p@ == self@,
    {
        &self.proxy
    }
}

impl InhibitProxy {
    /// The options of a request to inhibit: the given reason.
    pub fn inhibit_options(reason: &str) -> (o: InhibitOptions)
        ensures
            o.spec_reason() == Some(reason@),
    {
        InhibitOptions::default().reason(reason)
    }
}

} // verus!
