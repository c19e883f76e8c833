//! The background portal: what a backend answers about running in the
//! background, and what an application asks and is told.

use vstd::prelude::*;
use crate::handle_token::{is_fresh_token, HandleToken};
use crate::proxy::{desktop_destination, desktop_path, Proxy, ProxyView};
use crate::text::{opt_owned, opt_str, opt_text, text_or_empty, string_or_empty};

verus! {

/// What an application is allowed to do in the background.
#[derive(Debug, Clone, Copy, PartialEq, Eq, Structural)]
pub enum Activity {
    /// Forbid the application to run in the background.
    Forbid,
    /// Allow the application to run in the background.
    Allow,
    /// Allow this instance of the application to run in the background.
    AllowInstance,
}

/// The number that stands for a [`Activity`] on the bus.
pub open spec fn activity_code(x: Activity) -> u32 {
    match x {
        Activity::Forbid => 0,
        Activity::Allow => 1,
        Activity::AllowInstance => 2,
    }
}

/// What `activity_code` gives, value by value, each different from the others:
/// Forbid is 0; Allow is 1; AllowInstance is 2.
pub proof fn lemma_activity_code_values(x: Activity)
    ensures
        (activity_code(x) == 0) == (x is Forbid),
        (activity_code(x) == 1) == (x is Allow),
        (activity_code(x) == 2) == (x is AllowInstance),
{
}

impl Activity {
    /// The number that stands for the value on the bus.
    pub fn code(self) -> (n: u32)
        ensures
            n == activity_code(self),
    {
        match self {
            Activity::Forbid => 0,
            Activity::Allow => 1,
            Activity::AllowInstance => 2,
        }
    }

    /// The value that a number stands for on the bus.
    pub fn from_code(n: u32) -> (x: Option<Activity>)
        ensures
            match x {
                Some(v) => activity_code(v) == n,
                None => n != 0 && n != 1 && n != 2,
            },
    {
        if n == 0 {
            Some(Activity::Forbid)
        } else if n == 1 {
            Some(Activity::Allow)
        } else if n == 2 {
            Some(Activity::AllowInstance)
        } else {
            None
        }
    }
}

/// Decoding the number of a value gives the value back.
pub proof fn lemma_activity_code_round_trip(x: Activity)
    ensures
        forall|y: Activity| activity_code(y) == activity_code(x) ==> y == x,
{
}

/// The answer of a backend to a notification that an application runs in
/// the background.
#[derive(Debug, Clone, Copy, PartialEq, Eq, Structural)]
pub struct Background {
    result: Activity,
}

impl Background {
    /// The answer with the given activity.
    pub fn new(activity: Activity) -> (b: Background)
        ensures
            b.spec_result() == activity,
    {
        Background { result: activity }
    }

    /// The activity of the answer.
    pub closed spec fn spec_result(self) -> Activity {
        self.result
    }

    /// The activity of the answer.
    pub fn result(&self) -> (a: Activity)
        ensures
            a == self.spec_result(),
    {
        self.result
    }
}

/// The state of an application.
#[derive(Debug, Clone, Copy, PartialEq, Eq, Structural)]
pub enum AppState {
    /// The application is in the background.
    Background,
    /// The application is running.
    Running,
    /// The application is active.
    Active,
}

/// The number that stands for a [`AppState`] on the bus.
pub open spec fn app_state_code(x: AppState) -> u32 {
    match x {
        AppState::Background => 0,
        AppState::Running => 1,
        AppState::Active => 2,
    }
}

/// What `app_state_code` gives, value by value, each different from the others:
/// Background is 0; Running is 1; Active is 2.
pub proof fn lemma_app_state_code_values(x: AppState)
    ensures
        (app_state_code(x) == 0) == (x is Background),
        (app_state_code(x) == 1) == (x is Running),
        (app_state_code(x) == 2) == (x is Active),
{
}

impl AppState {
    /// The number that stands for the value on the bus.
    pub fn code(self) -> (n: u32)
        ensures
            n == app_state_code(self),
    {
        match self {
            AppState::Background => 0,
            AppState::Running => 1,
            AppState::Active => 2,
        }
    }

    /// The value that a number stands for on the bus.
    pub fn from_code(n: u32) -> (x: Option<AppState>)
        ensures
            match x {
                Some(v) => app_state_code(v) == n,
                None => n != 0 && n != 1 && n != 2,
            },
    {
        if n == 0 {
            Some(AppState::Background)
        } else if n == 1 {
            Some(AppState::Running)
        } else if n == 2 {
            Some(AppState::Active)
        } else {
            None
        }
    }
}

/// Decoding the number of a value gives the value back.
pub proof fn lemma_app_state_code_round_trip(x: AppState)
    ensures
        forall|y: AppState| app_state_code(y) == app_state_code(x) ==> y == x,
{
}

/// The flags of an auto-start request.
#[derive(Debug, Clone, Copy, PartialEq, Eq, Structural)]
pub enum AutoStartFlags {
    /// Use D-Bus activation.
    DBusActivation,
}

/// The bit that stands for a [`AutoStartFlags`].
pub open spec fn auto_start_flags_bit(x: AutoStartFlags) -> u32 {
    match x {
        AutoStartFlags::DBusActivation => 1,
    }
}

/// What `auto_start_flags_bit` gives, value by value, each different from the others:
/// DBusActivation is 1.
pub proof fn lemma_auto_start_flags_bit_values(x: AutoStartFlags)
    ensures
        (auto_start_flags_bit(x) == 1) == (x is DBusActivation),
{
}

impl AutoStartFlags {
    /// The bit that stands for the value.
    pub fn bits(self) -> (b: u32)
        ensures
            b == auto_start_flags_bit(self),
    {
        match self {
            AutoStartFlags::DBusActivation => 1,
        }
    }

    /// The value that a single bit stands for.
    pub fn from_bit(bit: u32) -> (x: Option<AutoStartFlags>)
        ensures
            match x {
                Some(v) => auto_start_flags_bit(v) == bit,
                None => bit != 1,
            },
    {
        if bit == 1 {
            Some(AutoStartFlags::DBusActivation)
        } else {
            None
        }
    }

    /// The bits of all values.
    pub fn all_bits() -> (b: u32)
        ensures
            b == 1,
    {
        1
    }
}

/// The response of a request to run in the background.
#[derive(Debug, Clone, Copy, PartialEq, Eq, Structural)]
pub struct BackgroundResponse {
    background: bool,
    autostart: bool,
}

impl View for BackgroundResponse {
    type V = (bool, bool);

    closed spec fn view(&self) -> (bool, bool) {
        (self.background, self.autostart)
    }
}

impl BackgroundResponse {
    /// The response with the given permissions.
    pub fn new(background: bool, autostart: bool) -> (r: BackgroundResponse)
        ensures
            r@ == (background, autostart),
    {
        BackgroundResponse { background, autostart }
    }

    /// If the application is allowed to run in the background.
    pub fn run_in_background(&self) -> (b: bool)
        ensures
            b == self@.0,
    {
        self.background
    }

    /// If the application will be auto-started.
    pub fn auto_start(&self) -> (b: bool)
        ensures
            b == self@.1,
    {
        self.autostart
    }
}

/// The models of a list of strings.
pub open spec fn texts_of(v: Seq<String>) -> Seq<Seq<char>> {
    v.map_values(|s: String| s@)
}

/// A request to run in the background or be started automatically.
#[derive(Debug)]
pub struct BackgroundRequest {
    identifier: String,
    handle_token: HandleToken,
    reason: Option<String>,
    autostart: Option<bool>,
    dbus_activatable: Option<bool>,
    command: Option<Vec<String>>,
}

/// The model of a [`BackgroundRequest`].
pub struct BackgroundRequestView {
    pub identifier: Seq<char>,
    pub token: Seq<char>,
    pub reason: Option<Seq<char>>,
    pub autostart: Option<bool>,
    pub dbus_activatable: Option<bool>,
    pub command: Option<Seq<Seq<char>>>,
}

impl View for BackgroundRequest {
    type V = BackgroundRequestView;

    closed spec fn view(&self) -> BackgroundRequestView {
        BackgroundRequestView {
            identifier: self.identifier@,
            token: self.handle_token@,
            reason: opt_text(self.reason),
            autostart: self.autostart,
            dbus_activatable: self.dbus_activatable,
            command: match self.command {
                Some(c) => Some(texts_of(c@)),
                None => None,
            },
        }
    }
}

impl BackgroundRequest {
    /// A request with a fresh handle token and nothing else set.
    pub fn default() -> (r: BackgroundRequest)
        ensures
            is_fresh_token(r@.token),
            r@.identifier == Seq::<char>::empty(),
            r@.reason is None,
            r@.autostart is None,
            r@.dbus_activatable is None,
            r@.command is None,
    {
        BackgroundRequest {
            identifier: String::new(),
            handle_token: HandleToken::default(),
            reason: None,
            autostart: None,
            dbus_activatable: None,
            command: None,
        }
    }

    /// The handle token of the request.
    pub fn handle_token(&self) -> (t: &HandleToken)
        ensures
            t@ == self@.token,
    {
        &self.handle_token
    }

    /// Sets the identifier of the application's window; no identifier stands
    /// for the empty one.
    pub fn identifier(self, identifier: Option<String>) -> (r: BackgroundRequest)
        ensures
            r@ == (BackgroundRequestView { identifier: text_or_empty(identifier), ..self@ }),
    {
        let mut r = self;
        r.identifier = string_or_empty(identifier);
        r
    }

    /// Sets whether to auto start the application or not.
    pub fn auto_start(self, auto_start: Option<bool>) -> (r: BackgroundRequest)
        ensures
            r@ == (BackgroundRequestView { autostart: auto_start, ..self@ }),
    {
        let mut r = self;
        r.autostart = auto_start;
        r
    }

    /// Sets whether the application is D-Bus activatable.
    pub fn dbus_activatable(self, dbus_activatable: Option<bool>) -> (r: BackgroundRequest)
        ensures
            r@ == (BackgroundRequestView { dbus_activatable: dbus_activatable, ..self@ }),
    {
        let mut r = self;
        r.dbus_activatable = dbus_activatable;
        r
    }

    /// Specifies the command line to execute; none stands for the `Exec` line
    /// of the application's desktop file.
    pub fn command(self, command: Option<Vec<String>>) -> (r: BackgroundRequest)
        ensures
            r@ == (BackgroundRequestView {
                command: match command {
                    Some(c) => Some(texts_of(c@)),
                    None => None,
                },
                ..self@
            }),
    {
        let mut r = self;
        r.command = command;
        r
    }

    /// Sets a user-visible reason for the request.
    pub fn reason(self, reason: Option<&str>) -> (r: BackgroundRequest)
        ensures
            r@ == (BackgroundRequestView { reason: opt_str(reason), ..self@ }),
    {
        let mut r = self;
        r.reason = opt_owned(reason);
        r
    }
}

/// Run in the background or be started at login.
///
/// Wrapper of the DBus interface `org.freedesktop.portal.Background`.
#[derive(Debug)]
pub struct BackgroundProxy {
    proxy: Proxy,
}

impl View for BackgroundProxy {
    type V = ProxyView;

    closed spec fn view(&self) -> ProxyView {
        self.proxy@
    }
}

impl BackgroundProxy {
    /// The portal, which implements the given version of its interface.
    pub fn new(version: u32) -> (p: BackgroundProxy)
        ensures
            p@.destination == desktop_destination(),
            p@.interface == "org.freedesktop.portal.Background"@,
            p@.path == desktop_path(),
            p@.version == version,
    {
        BackgroundProxy { proxy: Proxy::new_desktop("org.freedesktop.portal.Background", version) }
    }

    /// Where the portal's calls go.
    pub fn inner(&self) -> (p: &Proxy)
        ensures
            p@ == self@,
    {
        &self.proxy
    }
}

} // verus!
