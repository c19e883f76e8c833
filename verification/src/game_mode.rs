//! The game mode portal: the status of game mode and of registering with
//! it.

use vstd::prelude::*;
use crate::error::{AshpdError, PortalError};
use crate::proxy::{desktop_destination, desktop_path, Proxy, ProxyView};

verus! {

/// The status of the game mode.
#[derive(Debug, Clone, Copy, PartialEq, Eq, Structural)]
pub enum Status {
    /// GameMode is inactive.
    Inactive,
    /// GameMode is active.
    Active,
    /// GameMode is active and `pid` is registered.
    Registered,
    /// The query failed inside GameMode.
    Rejected,
}

/// The number that stands for a [`Status`] on the bus.
pub open spec fn status_code(x: Status) -> i32 {
    match x {
        Status::Inactive => 0,
        Status::Active => 1,
        Status::Registered => 2,
        Status::Rejected => -1i32,
    }
}

/// What `status_code` gives, value by value, each different from the others:
/// Inactive is 0; Active is 1; Registered is 2; Rejected is -1i32.
pub proof fn lemma_status_code_values(x: Status)
    ensures
        (status_code(x) == 0) == (x is Inactive),
        (status_code(x) == 1) == (x is Active),
        (status_code(x) == 2) == (x is Registered),
        (status_code(x) == -1i32) == (x is Rejected),
{
}

impl Status {
    /// The number that stands for the value on the bus.
    pub fn code(self) -> (n: i32)
        ensures
            n == status_code(self),
    {
        match self {
            Status::Inactive => 0,
            Status::Active => 1,
            Status::Registered => 2,
            Status::Rejected => -1i32,
        }
    }

    /// The value that a number stands for on the bus.
    pub fn from_code(n: i32) -> (x: Option<Status>)
        ensures
            match x {
                Some(v) => status_code(v) == n,
                None => n != 0 && n != 1 && n != 2 && n != -1,
            },
    {
        if n == 0 {
            Some(Status::Inactive)
        } else if n == 1 {
            Some(Status::Active)
        } else if n == 2 {
            Some(Status::Registered)
        } else if n == -1 {
            Some(Status::Rejected)
        } else {
            None
        }
    }
}

/// Decoding the number of a value gives the value back.
pub proof fn lemma_status_code_round_trip(x: Status)
    ensures
        forall|y: Status| status_code(y) == status_code(x) ==> y == x,
{
}

/// The status of a (un-)register game mode request.
#[derive(Debug, Clone, Copy, PartialEq, Eq, Structural)]
pub enum RegisterStatus {
    /// If the game was successfully (un-)registered.
    Success,
    /// If the request was rejected by GameMode.
    Rejected,
}

/// The number that stands for a [`RegisterStatus`] on the bus.
pub open spec fn register_status_code(x: RegisterStatus) -> i32 {
    match x {
        RegisterStatus::Success => 0,
        RegisterStatus::Rejected => -1i32,
    }
}

/// What `register_status_code` gives, value by value, each different from the others:
/// Success is 0; Rejected is -1i32.
pub proof fn lemma_register_status_code_values(x: RegisterStatus)
    ensures
        (register_status_code(x) == 0) == (x is Success),
        (register_status_code(x) == -1i32) == (x is Rejected),
{
}

impl RegisterStatus {
    /// The number that stands for the value on the bus.
    pub fn code(self) -> (n: i32)
        ensures
            n == register_status_code(self),
    {
        match self {
            RegisterStatus::Success => 0,
            RegisterStatus::Rejected => -1i32,
        }
    }

    /// The value that a number stands for on the bus.
    pub fn from_code(n: i32) -> (x: Option<RegisterStatus>)
        ensures
            match x {
                Some(v) => register_status_code(v) == n,
                None => n != 0 && n != -1,
            },
    {
        if n == 0 {
            Some(RegisterStatus::Success)
        } else if n == -1 {
            Some(RegisterStatus::Rejected)
        } else {
            None
        }
    }
}

/// Decoding the number of a value gives the value back.
pub proof fn lemma_register_status_code_round_trip(x: RegisterStatus)
    ensures
        forall|y: RegisterStatus| register_status_code(y) == register_status_code(x) ==> y == x,
{
}

/// What the status of a (un-)register request gives: success, or a failure
/// of the portal with an empty message.
pub fn register_result(status: RegisterStatus) -> (r: Result<(), AshpdError>)
    ensures
        match status {
            RegisterStatus::Success => r is Ok,
            RegisterStatus::Rejected => r matches Err(AshpdError::Portal(PortalError::Failed(m))) && m@.len() == 0,
        },
{
    match status {
        RegisterStatus::Success => Ok(()),
        RegisterStatus::Rejected => Err(AshpdError::Portal(PortalError::Failed(String::new()))),
    }
}

/// Access GameMode from within the sandbox.
///
/// Wrapper of the DBus interface `org.freedesktop.portal.GameMode`.
#[derive(Debug)]
pub struct GameMode {
    proxy: Proxy,
}

impl View for GameMode {
    type V = ProxyView;

    closed spec fn view(&self) -> ProxyView {
        self.proxy@
    }
}

impl GameMode {
    /// The portal, which implements the given version of its interface.
    pub fn new(version: u32) -> (p: GameMode)
        ensures
            p@.destination == desktop_destination(),
            p@.interface == "org.freedesktop.portal.GameMode"@,
            p@.path == desktop_path(),
            p@.version == version,
    {
        GameMode { proxy: Proxy::new_desktop("org.freedesktop.portal.GameMode", version) }
    }

    /// Where the portal's calls go.
    pub fn inner(&self) -> (p: &Proxy)
        ensures
            p@ == self@,
    {
        &self.proxy
    }
}

} // verus!
