//! The wallpaper portal: where a wallpaper is set, and the options of
//! setting it.

use vstd::prelude::*;
use crate::error::AshpdError;
use crate::text::str_equals;
use crate::handle_token::{is_fresh_token, HandleToken};
use crate::proxy::{desktop_destination, desktop_path, Proxy, ProxyView};

verus! {

/// Where to set the wallpaper on.
#[derive(Debug, Clone, Copy, PartialEq, Eq, Structural)]
pub enum SetOn {
    /// Set the wallpaper only on the lock-screen.
    Lockscreen,
    /// Set the wallpaper only on the background.
    Background,
    /// Set the wallpaper on both lock-screen and background.
    Both,
}

/// The name under which a [`SetOn`] is shown.
pub open spec fn set_on_text(x: SetOn) -> Seq<char> {
    match x {
        SetOn::Lockscreen => "Lockscreen"@,
        SetOn::Background => "Background"@,
        SetOn::Both => "Both"@,
    }
}

/// What `set_on_text` gives, value by value, each different from the others:
/// Lockscreen is "Lockscreen"; Background is "Background"; Both is "Both".
pub proof fn lemma_set_on_text_values(x: SetOn)
    ensures
        (set_on_text(x) == "Lockscreen"@) == (x is Lockscreen),
        (set_on_text(x) == "Background"@) == (x is Background),
        (set_on_text(x) == "Both"@) == (x is Both),
{
    reveal_strlit("Background");
    reveal_strlit("Both");
    reveal_strlit("Lockscreen");
    assert("Background"@.len() != "Both"@.len());
    assert("Background"@[0] != "Lockscreen"@[0]);
    assert("Both"@.len() != "Lockscreen"@.len());
}

/// The name of a [`SetOn`] on the bus.
pub open spec fn set_on_wire(x: SetOn) -> Seq<char> {
    match x {
        SetOn::Lockscreen => "Lockscreen"@,
        SetOn::Background => "Background"@,
        SetOn::Both => "Both"@,
    }
}

/// What `set_on_wire` gives, value by value, each different from the others:
/// Lockscreen is "Lockscreen"; Background is "Background"; Both is "Both".
pub proof fn lemma_set_on_wire_values(x: SetOn)
    ensures
        (set_on_wire(x) == "Lockscreen"@) == (x is Lockscreen),
        (set_on_wire(x) == "Background"@) == (x is Background),
        (set_on_wire(x) == "Both"@) == (x is Both),
{
    reveal_strlit("Background");
    reveal_strlit("Both");
    reveal_strlit("Lockscreen");
    assert("Background"@.len() != "Both"@.len());
    assert("Background"@[0] != "Lockscreen"@[0]);
    assert("Both"@.len() != "Lockscreen"@.len());
}

/// The [`SetOn`] that a text names, if any.
pub open spec fn parse_set_on(s: Seq<char>) -> Option<SetOn> {
    if s == "Lockscreen"@ {
        Some(SetOn::Lockscreen)
    } else if s == "Background"@ {
        Some(SetOn::Background)
    } else if s == "Both"@ {
        Some(SetOn::Both)
    } else {
        None
    }
}

/// A text names a `SetOn` exactly where it is that value's shown name or its
/// name on the bus; no other text names one.
pub proof fn lemma_parse_set_on_names(s: Seq<char>, x: SetOn)
    ensures
        (parse_set_on(s) == Some(x)) == (s == set_on_text(x) || s == set_on_wire(x)),
{
    reveal_strlit("Lockscreen");
    reveal_strlit("Background");
    reveal_strlit("Both");
    assert("Lockscreen"@[0] != "Background"@[0]);
    assert("Lockscreen"@.len() != "Both"@.len());
    assert("Background"@.len() != "Both"@.len());
}

/// The message of the error that an unknown [`SetOn`] name gives.
pub open spec fn set_on_parse_message() -> Seq<char> {
    "Failed to parse SetOn, invalid value"@
}

impl SetOn {
    /// The name under which the value is shown.
    pub fn as_str(&self) -> (s: &'static str)
        ensures
            s@ == set_on_text(*self),
    {
        match self {
            SetOn::Lockscreen => "Lockscreen",
            SetOn::Background => "Background",
            SetOn::Both => "Both",
        }
    }

    /// The name of the value on the bus.
    pub fn wire_name(&self) -> (s: &'static str)
        ensures
            s@ == set_on_wire(*self),
    {
        match self {
            SetOn::Lockscreen => "Lockscreen",
            SetOn::Background => "Background",
            SetOn::Both => "Both",
        }
    }

    /// The value that a text names; a parse error for any other text.
    pub fn from_str(s: &str) -> (r: Result<SetOn, AshpdError>)
        ensures
            match r {
                Ok(x) => parse_set_on(s@) == Some(x),
                Err(e) => parse_set_on(s@) is None && (e matches AshpdError::ParseError(m) && m@
                    == set_on_parse_message()),
            },
    {
        if str_equals(s, "Lockscreen") {
            Ok(SetOn::Lockscreen)
        } else if str_equals(s, "Background") {
            Ok(SetOn::Background)
        } else if str_equals(s, "Both") {
            Ok(SetOn::Both)
        } else {
            Err(AshpdError::ParseError("Failed to parse SetOn, invalid value"))
        }
    }
}

/// Parsing the name of a value on the bus gives the value back.
pub proof fn lemma_set_on_wire_round_trip(x: SetOn)
    ensures
        parse_set_on(set_on_wire(x)) == Some(x),
{
    reveal_strlit("Lockscreen");
    reveal_strlit("Background");
    reveal_strlit("Both");
    assert("Background"@[0] != "Lockscreen"@[0]);
    assert("Background"@ != "Lockscreen"@);
    assert("Both"@.len() == 4 && "Lockscreen"@.len() == 10);
    assert("Both"@ != "Lockscreen"@);
    assert("Both"@.len() == 4 && "Background"@.len() == 10);
    assert("Both"@ != "Background"@);
}

/// Parsing the name under which a value is shown gives the value back.
pub proof fn lemma_set_on_text_round_trip(x: SetOn)
    ensures
        parse_set_on(set_on_text(x)) == Some(x),
{
    reveal_strlit("Lockscreen");
    reveal_strlit("Background");
    reveal_strlit("Both");
    assert("Background"@[0] != "Lockscreen"@[0]);
    assert("Background"@ != "Lockscreen"@);
    assert("Both"@.len() == 4 && "Lockscreen"@.len() == 10);
    assert("Both"@ != "Lockscreen"@);
    assert("Both"@.len() == 4 && "Background"@.len() == 10);
    assert("Both"@ != "Background"@);
}

/// The options of a request to set the wallpaper.
#[derive(Debug)]
pub struct WallpaperOptions {
    handle_token: HandleToken,
    show_preview: Option<bool>,
    set_on: Option<SetOn>,
}

/// The model of a [`WallpaperOptions`].
pub struct WallpaperOptionsView {
    pub token: Seq<char>,
    pub show_preview: Option<bool>,
    pub set_on: Option<SetOn>,
}

impl View for WallpaperOptions {
    type V = WallpaperOptionsView;

    closed spec fn view(&self) -> WallpaperOptionsView {
        WallpaperOptionsView {
            token: self.handle_token@,
            show_preview: self.show_preview,
            set_on: self.set_on,
        }
    }
}

impl WallpaperOptions {
    /// A request with a fresh handle token and every option unset.
    pub fn default() -> (r: WallpaperOptions)
        ensures
            is_fresh_token(r@.token),
            r@.show_preview is None,
            r@.set_on is None,
    {
        WallpaperOptions {
            handle_token: HandleToken::default(),
            show_preview: None,
            set_on: None,
        }
    }

    /// The handle token of the request.
    pub fn handle_token(&self) -> (t: &HandleToken)
        ensures
            t@ == self@.token,
    {
        &self.handle_token
    }

    /// Sets whether to show a preview of the wallpaper first.
    pub fn show_preview(self, show_preview: Option<bool>) -> (r: Self)
        ensures
            r@ == (WallpaperOptionsView { show_preview: show_preview, ..self@ }),
    {
        let mut r = self;
        r.show_preview = show_preview;
        r
    }

    /// Sets where to set the wallpaper.
    pub fn set_on(self, set_on: Option<SetOn>) -> (r: Self)
        ensures
            r@ == (WallpaperOptionsView { set_on: set_on, ..self@ }),
    {
        let mut r = self;
        r.set_on = set_on;
        r
    }
}

/// Set the desktop background.
///
/// Wrapper of the DBus interface `org.freedesktop.portal.Wallpaper`.
#[derive(Debug)]
pub struct WallpaperProxy {
    proxy: Proxy,
}

impl View for WallpaperProxy {
    type V = ProxyView;

    closed spec fn view(&self) -> ProxyView {
        self.proxy@
    }
}

impl WallpaperProxy {
    /// The portal, which implements the given version of its interface.
    pub fn new(version: u32) -> (p: WallpaperProxy)
        ensures
            p@.destination == desktop_destination(),
            p@.interface == "org.freedesktop.portal.Wallpaper"@,
            p@.path == desktop_path(),
            p@.version == version,
    {
        WallpaperProxy { proxy: Proxy::new_desktop("org.freedesktop.portal.Wallpaper", version) }
    }

    /// Where the portal's calls go.
    pub fn inner(&self) -> (p: &Proxy)
        ensures
            p@ == self@,
    {
        &self.proxy
    }
}

impl WallpaperProxy {
    /// The options of a request to set the wallpaper: both settings, set.
    pub fn options(show_preview: bool, set_on: SetOn) -> (o: WallpaperOptions)
        ensures
            o@.show_preview == Some(show_preview),
            o@.set_on == Some(set_on),
    {
        WallpaperOptions::default().show_preview(Some(show_preview)).set_on(Some(set_on))
    }
}

} // verus!
