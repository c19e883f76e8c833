//! The clipboard portal.

use vstd::prelude::*;
use crate::proxy::{desktop_destination, desktop_path, Proxy, ProxyView};
use crate::text::opt_texts;

verus! {

/// The details of a new clipboard selection.
#[derive(Debug)]
pub struct SelectionOwnerChanged {
    mime_types: Option<Vec<String>>,
    session_is_owner: Option<bool>,
}

impl SelectionOwnerChanged {
    /// The details as the portal gives them.
    pub fn new(mime_types: Option<Vec<String>>, session_is_owner: Option<bool>) -> (s: SelectionOwnerChanged)
        ensures
            s.spec_mime_types() == opt_texts(mime_types),
            s.spec_session_is_owner() == session_is_owner,
    {
        SelectionOwnerChanged { mime_types, session_is_owner }
    }

    /// The mime types, as received.
    pub closed spec fn spec_mime_types(self) -> Option<Seq<Seq<char>>> {
        opt_texts(self.mime_types)
    }

    /// Whether the session owns the selection, as received.
    pub closed spec fn spec_session_is_owner(self) -> Option<bool> {
        self.session_is_owner
    }

    /// Whether the session is the owner of the clipboard selection or not.
    pub fn session_is_owner(&self) -> (b: Option<bool>)
        ensures
            b == self.spec_session_is_owner(),
    {
        self.session_is_owner
    }

    /// A list of mime types the new clipboard has content for; none where
    /// the portal gave no list.
    pub fn mime_types(&self) -> (v: Vec<String>)
        ensures
            Some(v@.map_values(|s: String| s@)) == self.spec_mime_types() || (self.spec_mime_types() is None && v@.len() == 0),
    {
        match &self.mime_types {
            Some(m) => {
                let mut r: Vec<String> = Vec::new();
                let mut i: usize = 0;
                while i < m.len()
                    invariant
                        i <= m@.len(),
                        r@.map_values(|s: String| s@) =~= m@.subrange(0, i as int).map_values(|s: String| s@),
                    decreases m@.len() - i,
                {
                    let ghost before = r@;
                    r.push(m[i].clone());
                    assert(r@.map_values(|s: String| s@) =~= before.map_values(|s: String| s@).push(m@[i as int]@));
                    assert(m@.subrange(0, i + 1) =~= m@.subrange(0, i as int).push(m@[i as int]));
                    i = i + 1;
                }
                assert(m@.subrange(0, m@.len() as int) =~= m@);
                r
            },
            None => Vec::new(),
        }
    }
}

/// Interact with the clipboard.
///
/// Wrapper of the DBus interface `org.freedesktop.portal.Clipboard`.
#[derive(Debug)]
pub struct Clipboard {
    proxy: Proxy,
}

impl View for Clipboard {
    type V = ProxyView;

    closed spec fn view(&self) -> ProxyView {
        self.proxy@
    }
}

impl Clipboard {
    /// The portal, which implements the given version of its interface.
    pub fn new(version: u32) -> (p: Clipboard)
        ensures
            p@.destination == desktop_destination(),
            p@.interface == "org.freedesktop.portal.Clipboard"@,
            p@.path == desktop_path(),
            p@.version == version,
    {
        Clipboard { proxy: Proxy::new_desktop("org.freedesktop.portal.Clipboard", version) }
    }

    /// Where the portal's calls go.
    pub fn inner(&self) -> (p: &Proxy)
        ensures
            p@ == self@,
    {
        &self.proxy
    }
}

} // verus!
