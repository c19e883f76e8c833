//! Where a portal's calls go: the bus name, object path and interface of a
//! portal, and the version of the interface that the portal implements.

use vstd::prelude::*;
use crate::error::AshpdError;
use crate::text::owned;

verus! {

/// The bus name of the desktop portals.
pub open spec fn desktop_destination() -> Seq<char> {
    "org.freedesktop.portal.Desktop"@
}

/// The object path of the desktop portals.
pub open spec fn desktop_path() -> Seq<char> {
    "/org/freedesktop/portal/desktop"@
}

/// The bus name of the document portals.
pub open spec fn documents_destination() -> Seq<char> {
    "org.freedesktop.portal.Documents"@
}

/// The object path of the document portals.
pub open spec fn documents_path() -> Seq<char> {
    "/org/freedesktop/portal/documents"@
}

/// The target of a portal's calls.
#[derive(Debug)]
pub struct Proxy {
    destination: String,
    interface: String,
    path: String,
    version: u32,
}

/// The model of a [`Proxy`].
pub struct ProxyView {
    pub destination: Seq<char>,
    pub interface: Seq<char>,
    pub path: Seq<char>,
    pub version: u32,
}

impl View for Proxy {
    type V = ProxyView;

    closed spec fn view(&self) -> ProxyView {
        ProxyView { destination: self.destination@, interface: self.interface@, path: self.path@, version: self.version }
    }
}

/// Whether calling a method that needs interface version `required` is
/// refused, where the portal implements version `available`.
pub open spec fn version_refused(required: u32, available: u32) -> bool {
    available < required
}

/// A call is refused exactly where the portal's version is lower than the
/// one the call needs: the same version or a higher one is enough.
pub proof fn lemma_version_refusal(required: u32, available: u32)
    ensures
        version_refused(required, available) == (available < required),
        !version_refused(required, required),
        available >= required ==> !version_refused(required, available),
{
}

/// Refuses a call that needs interface version `required` where the portal
/// implements version `available`.
pub fn check_version(required: u32, available: u32) -> (r: Result<(), AshpdError>)
    ensures
        version_refused(required, available) <==> r is Err,
        r matches Err(e) ==> e == AshpdError::RequiresVersion(required, available),
{
    if available < required {
        Err(AshpdError::RequiresVersion(required, available))
    } else {
        Ok(())
    }
}

impl Proxy {
    /// The desktop portal with the given interface, which implements the
    /// given version of it.
    pub fn new_desktop(interface: &str, version: u32) -> (p: Proxy)
        ensures
            p@.destination == desktop_destination(),
            p@.interface == interface@,
            p@.path == desktop_path(),
            p@.version == version,
    {
        Proxy {
            destination: owned("org.freedesktop.portal.Desktop"),
            interface: owned(interface),
            path: owned("/org/freedesktop/portal/desktop"),
            version,
        }
    }

    /// The document portal with the given interface, which implements the
    /// given version of it.
    pub fn new_documents(interface: &str, version: u32) -> (p: Proxy)
        ensures
            p@.destination == documents_destination(),
            p@.interface == interface@,
            p@.path == documents_path(),
            p@.version == version,
    {
        Proxy {
            destination: owned("org.freedesktop.portal.Documents"),
            interface: owned(interface),
            path: owned("/org/freedesktop/portal/documents"),
            version,
        }
    }

    /// The desktop portal object at `path` with the given interface.
    pub fn new_desktop_with_path(interface: &str, path: &str, version: u32) -> (p: Proxy)
        ensures
            p@.destination == desktop_destination(),
            p@.interface == interface@,
            p@.path == path@,
            p@.version == version,
    {
        Proxy {
            destination: owned("org.freedesktop.portal.Desktop"),
            interface: owned(interface),
            path: owned(path),
            version,
        }
    }

    /// The object at `path` of the service `destination`, with the given
    /// interface, which implements the given version of it.
    pub fn new(destination: &str, path: &str, interface: &str, version: u32) -> (p: Proxy)
        ensures
            p@.destination == destination@,
            p@.interface == interface@,
            p@.path == path@,
            p@.version == version,
    {
        Proxy { destination: owned(destination), interface: owned(interface), path: owned(path), version }
    }

    /// The bus name the calls go to.
    pub fn destination(&self) -> (d: &str)
        ensures
            d@ == self@.destination,
    {
        self.destination.as_str()
    }

    /// The interface of the portal.
    pub fn interface(&self) -> (s: &str)
        ensures
            s@ == self@.interface,
    {
        self.interface.as_str()
    }

    /// The object path the calls go to.
    pub fn path(&self) -> (s: &str)
        ensures
            s@ == self@.path,
    {
        self.path.as_str()
    }

    /// The version of the interface that the portal implements.
    pub fn version(&self) -> (v: u32)
        ensures
            v == self@.version,
    {
        self.version
    }

    /// Refuses a call of a method that needs interface version `required`
    /// where the portal implements an older one.
    pub fn check_version(&self, required: u32) -> (r: Result<(), AshpdError>)
        ensures
            version_refused(required, self@.version) <==> r is Err,
            r matches Err(e) ==> e == AshpdError::RequiresVersion(required, self@.version),
    {
        check_version(required, self.version)
    }
}

} // verus!
