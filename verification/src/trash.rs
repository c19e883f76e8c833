//! The trash portal.

use vstd::prelude::*;
use crate::error::{AshpdError, PortalError};
use crate::proxy::{desktop_destination, desktop_path, Proxy, ProxyView};

verus! {

/// The outcome of sending a file to the trash.
#[derive(Debug, Clone, Copy, PartialEq, Eq, Structural)]
pub enum TrashStatus {
    /// The file could not be sent to the trash.
    Failed,
    /// The file was sent to the trash.
    Succeeded,
}

/// The number that stands for a [`TrashStatus`] on the bus.
pub open spec fn trash_status_code(x: TrashStatus) -> u32 {
    match x {
        TrashStatus::Failed => 0,
        TrashStatus::Succeeded => 1,
    }
}

/// What `trash_status_code` gives, value by value, each different from the others:
/// Failed is 0; Succeeded is 1.
pub proof fn lemma_trash_status_code_values(x: TrashStatus)
    ensures
        (trash_status_code(x) == 0) == (x is Failed),
        (trash_status_code(x) == 1) == (x is Succeeded),
{
}

impl TrashStatus {
    /// The number that stands for the value on the bus.
    pub fn code(self) -> (n: u32)
        ensures
            n == trash_status_code(self),
    {
        match self {
            TrashStatus::Failed => 0,
            TrashStatus::Succeeded => 1,
        }
    }

    /// The value that a number stands for on the bus.
    pub fn from_code(n: u32) -> (x: Option<TrashStatus>)
        ensures
            match x {
                Some(v) => trash_status_code(v) == n,
                None => n != 0 && n != 1,
            },
    {
        if n == 0 {
            Some(TrashStatus::Failed)
        } else if n == 1 {
            Some(TrashStatus::Succeeded)
        } else {
            None
        }
    }
}

/// Decoding the number of a value gives the value back.
pub proof fn lemma_trash_status_code_round_trip(x: TrashStatus)
    ensures
        forall|y: TrashStatus| trash_status_code(y) == trash_status_code(x) ==> y == x,
{
}

/// What a trash outcome gives: success, or a failure of the portal with an
/// empty message.
pub fn trash_result(status: TrashStatus) -> (r: Result<(), AshpdError>)
    ensures
        match status {
            TrashStatus::Succeeded => r is Ok,
            TrashStatus::Failed => r matches Err(AshpdError::Portal(PortalError::Failed(m))) && m@.len() == 0,
        },
{
    match status {
        TrashStatus::Failed => Err(AshpdError::Portal(PortalError::Failed(String::new()))),
        TrashStatus::Succeeded => Ok(()),
    }
}

/// Send files to the trash.
///
/// Wrapper of the DBus interface `org.freedesktop.portal.Trash`.
#[derive(Debug)]
pub struct TrashProxy {
    proxy: Proxy,
}

impl View for TrashProxy {
    type V = ProxyView;

    closed spec fn view(&self) -> ProxyView {
        self.proxy@
    }
}

impl TrashProxy {
    /// The portal, which implements the given version of its interface.
    pub fn new(version: u32) -> (p: TrashProxy)
        ensures
            p@.destination == desktop_destination(),
            p@.interface == "org.freedesktop.portal.Trash"@,
            p@.path == desktop_path(),
            p@.version == version,
    {
        TrashProxy { proxy: Proxy::new_desktop("org.freedesktop.portal.Trash", version) }
    }

    /// Where the portal's calls go.
    pub fn inner(&self) -> (p: &Proxy)
        ensures
            p@ == self@,
    {
        &self.proxy
    }
}

} // verus!
