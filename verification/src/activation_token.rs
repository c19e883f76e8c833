//! Activation tokens, which let an application hand focus to a window that
//! a portal opens.

use vstd::prelude::*;
use crate::text::owned;

verus! {

/// The windowing backend of the display a window is shown on.
#[derive(Debug, Clone, Copy, PartialEq, Eq, Structural)]
pub enum DisplayBackend {
    /// A Wayland display.
    Wayland,
    /// An X11 display.
    X11,
    /// Any other backend.
    Other,
}

/// A token obtained from a GTK 3 window.
#[derive(Debug)]
pub struct Gtk3ActivationToken {
    token: String,
}

impl View for Gtk3ActivationToken {
    type V = Seq<char>;

    closed spec fn view(&self) -> Seq<char> {
        self.token@
    }
}

impl Gtk3ActivationToken {
    /// The token for a window on a display with the given backend.
    ///
    /// No token is obtained on a non-Wayland display. Obtaining one on a
    /// Wayland display is not implemented and stops the program, so that
    /// backend is outside the contract.
    pub fn from_window(backend: DisplayBackend) -> (t: Option<Gtk3ActivationToken>)
        requires
            backend != DisplayBackend::Wayland,
        ensures
            t is None,
    {
        None
    }

    /// The token's text.
    pub fn as_str(&self) -> (s: &str)
        ensures
            s@ == self@,
    {
        self.token.as_str()
    }
}

/// An activation token.
///
/// See <https://wayland.app/protocols/xdg-activation-v1>.
#[derive(Debug)]
pub enum ActivationToken {
    /// A token obtained from a GTK 3 window.
    Gtk3(Gtk3ActivationToken),
    /// A token given as text.
    Raw(String),
    /// No token.
    Empty,
}

/// The text that a token stands for; the empty text for no token.
pub open spec fn token_text(t: ActivationToken) -> Seq<char> {
    match t {
        ActivationToken::Gtk3(g) => g@,
        ActivationToken::Raw(s) => s@,
        ActivationToken::Empty => Seq::empty(),
    }
}

impl ActivationToken {
    /// No token.
    pub fn default() -> (t: ActivationToken)
        ensures
            t is Empty,
    {
        ActivationToken::Empty
    }

    /// The token of a window on a display with the given backend: no token
    /// where none could be obtained. The Wayland backend is outside the
    /// contract, as for [`Gtk3ActivationToken::from_window`].
    pub fn from_window(backend: DisplayBackend) -> (t: ActivationToken)
        requires
            backend != DisplayBackend::Wayland,
        ensures
            t is Empty,
    {
        match Gtk3ActivationToken::from_window(backend) {
            Some(token) => ActivationToken::Gtk3(token),
            None => ActivationToken::default(),
        }
    }

    /// Whether there is a token.
    pub fn is_some(&self) -> (b: bool)
        ensures
            b == !(*self is Empty),
    {
        !self.is_none()
    }

    /// Whether there is no token.
    pub fn is_none(&self) -> (b: bool)
        ensures
            b == (*self is Empty),
    {
        match self {
            ActivationToken::Empty => true,
            _ => false,
        }
    }

    /// The token's text; the empty text for no token.
    pub fn as_str(&self) -> (s: &str)
        ensures
            s@ == token_text(*self),
    {
        match self {
            ActivationToken::Gtk3(t) => t.as_str(),
            ActivationToken::Raw(s) => s.as_str(),
            ActivationToken::Empty => {
                proof {
                    reveal_strlit("");
                }
                ""
            },
        }
    }

    /// The token's text, taking the token.
    pub fn into_string(self) -> (s: String)
        ensures
            s@ == token_text(self),
    {
        match self {
            ActivationToken::Gtk3(t) => t.token,
            ActivationToken::Raw(s) => s,
            ActivationToken::Empty => {
                proof {
                    reveal_strlit("");
                }
                owned("")
            },
        }
    }
}

} // verus!
