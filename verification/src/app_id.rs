//! Identifiers of applications and of files in the document store, and the
//! optional forms in which a portal backend receives them.

use vstd::prelude::*;
use crate::text::owned;

verus! {

/// The application ID.
///
/// See <https://developer.gnome.org/documentation/tutorials/application-id.html>.
#[derive(Debug, PartialEq, Eq, Hash)]
pub struct AppID {
    id: String,
}

impl View for AppID {
    type V = Seq<char>;

    closed spec fn view(&self) -> Seq<char> {
        self.id@
    }
}

impl AppID {
    /// An application ID with the given text.
    pub fn from(value: &str) -> (a: AppID)
        ensures
            a@ == value@,
    {
        AppID { id: owned(value) }
    }

    /// An application ID that takes the given string.
    pub fn from_string(value: String) -> (a: AppID)
        ensures
            a@ == value@,
    {
        AppID { id: value }
    }

    /// The text of the ID.
    pub fn as_str(&self) -> (s: &str)
        ensures
            s@ == self@,
    {
        self.id.as_str()
    }

    /// A copy of the ID.
    pub fn copy(&self) -> (a: AppID)
        ensures
            a@ == self@,
    {
        AppID { id: owned(self.id.as_str()) }
    }
}

/// The ID of a file in the document store.
#[derive(Debug, PartialEq, Eq, Hash)]
pub struct DocumentID {
    id: String,
}

impl View for DocumentID {
    type V = Seq<char>;

    closed spec fn view(&self) -> Seq<char> {
        self.id@
    }
}

impl DocumentID {
    /// A document ID with the given text.
    pub fn from(value: &str) -> (d: DocumentID)
        ensures
            d@ == value@,
    {
        DocumentID { id: owned(value) }
    }

    /// A document ID that takes the given string.
    pub fn from_string(value: String) -> (d: DocumentID)
        ensures
            d@ == value@,
    {
        DocumentID { id: value }
    }

    /// The text of the ID.
    pub fn as_str(&self) -> (s: &str)
        ensures
            s@ == self@,
    {
        self.id.as_str()
    }
}

/// An application ID as a backend receives it: the empty string stands for
/// no application.
#[derive(Debug)]
pub struct MaybeAppID {
    id: Option<AppID>,
}

/// What a received identifier string stands for: nothing where it is empty.
pub open spec fn nonempty_text(wire: Seq<char>) -> Option<Seq<char>> {
    if wire.len() == 0 {
        None
    } else {
        Some(wire)
    }
}

impl MaybeAppID {
    /// The ID that a received string stands for.
    pub fn from_wire(wire: String) -> (m: MaybeAppID)
        ensures
            m.spec_inner() == nonempty_text(wire@),
    {
        if wire.as_str().is_empty() {
            MaybeAppID { id: None }
        } else {
            MaybeAppID { id: Some(AppID::from_string(wire)) }
        }
    }

    /// The ID's text, if there is one.
    pub closed spec fn spec_inner(self) -> Option<Seq<char>> {
        match self.id {
            Some(a) => Some(a@),
            None => None,
        }
    }

    /// The application ID, if there is one.
    pub fn inner(self) -> (a: Option<AppID>)
        ensures
            match a {
                Some(x) => self.spec_inner() == Some(x@),
                None => self.spec_inner() is None,
            },
    {
        self.id
    }
}

/// A window identifier as a backend receives it: the empty string stands for
/// no window.
#[derive(Debug)]
pub struct MaybeWindowIdentifier {
    id: Option<String>,
}

impl MaybeWindowIdentifier {
    /// The identifier that a received string stands for.
    pub fn from_wire(wire: String) -> (m: MaybeWindowIdentifier)
        ensures
            m.spec_inner() == nonempty_text(wire@),
    {
        if wire.as_str().is_empty() {
            MaybeWindowIdentifier { id: None }
        } else {
            MaybeWindowIdentifier { id: Some(wire) }
        }
    }

    /// The identifier's text, if there is one.
    pub closed spec fn spec_inner(self) -> Option<Seq<char>> {
        match self.id {
            Some(s) => Some(s@),
            None => None,
        }
    }

    /// The window identifier, if there is one.
    pub fn inner(self) -> (w: Option<String>)
        ensures
            match w {
                Some(x) => self.spec_inner() == Some(x@),
                None => self.spec_inner() is None,
            },
    {
        self.id
    }
}

} // verus!
