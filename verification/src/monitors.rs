//! Portals that report on the host: memory, network, power profile and
//! realtime scheduling.

use vstd::prelude::*;
use crate::error::AshpdError;
use crate::proxy::{desktop_destination, desktop_path, Proxy, ProxyView};

verus! {

/// Low memory warnings.
///
/// Wrapper of the DBus interface `org.freedesktop.portal.MemoryMonitor`.
#[derive(Debug)]
pub struct MemoryMonitor {
    proxy: Proxy,
}

impl View for MemoryMonitor {
    type V = ProxyView;

    closed spec fn view(&self) -> ProxyView {
        self.proxy@
    }
}

impl MemoryMonitor {
    /// The portal, which implements the given version of its interface.
    pub fn new(version: u32) -> (p: MemoryMonitor)
        ensures
            p@.destination == desktop_destination(),
            p@.interface == "org.freedesktop.portal.MemoryMonitor"@,
            p@.path == desktop_path(),
            p@.version == version,
    {
        MemoryMonitor { proxy: Proxy::new_desktop("org.freedesktop.portal.MemoryMonitor", version) }
    }

    /// Where the portal's calls go.
    pub fn inner(&self) -> (p: &Proxy)
        ensures
            p@ == self@,
    {
        &self.proxy
    }
}

/// Whether the power saver is enabled.
///
/// Wrapper of the DBus interface `org.freedesktop.portal.PowerProfileMonitor`.
#[derive(Debug)]
pub struct PowerProfileMonitor {
    proxy: Proxy,
}

impl View for PowerProfileMonitor {
    type V = ProxyView;

    closed spec fn view(&self) -> ProxyView {
        self.proxy@
    }
}

impl PowerProfileMonitor {
    /// The portal, which implements the given version of its interface.
    pub fn new(version: u32) -> (p: PowerProfileMonitor)
        ensures
            p@.destination == desktop_destination(),
            p@.interface == "org.freedesktop.portal.PowerProfileMonitor"@,
            p@.path == desktop_path(),
            p@.version == version,
    {
        PowerProfileMonitor { proxy: Proxy::new_desktop("org.freedesktop.portal.PowerProfileMonitor", version) }
    }

    /// Where the portal's calls go.
    pub fn inner(&self) -> (p: &Proxy)
        ensures
            p@ == self@,
    {
        &self.proxy
    }
}

/// Realtime scheduling of threads.
///
/// Wrapper of the DBus interface `org.freedesktop.portal.Realtime`.
#[derive(Debug)]
pub struct Realtime {
    proxy: Proxy,
}

impl View for Realtime {
    type V = ProxyView;

    closed spec fn view(&self) -> ProxyView {
        self.proxy@
    }
}

impl Realtime {
    /// The portal, which implements the given version of its interface.
    pub fn new(version: u32) -> (p: Realtime)
        ensures
            p@.destination == desktop_destination(),
            p@.interface == "org.freedesktop.portal.Realtime"@,
            p@.path == desktop_path(),
            p@.version == version,
    {
        Realtime { proxy: Proxy::new_desktop("org.freedesktop.portal.Realtime", version) }
    }

    /// Where the portal's calls go.
    pub fn inner(&self) -> (p: &Proxy)
        ensures
            p@ == self@,
    {
        &self.proxy
    }
}

/// Host's network activity.
#[derive(Debug, Clone, Copy, PartialEq, Eq, Structural)]
pub enum Connectivity {
    /// The host is not configured with a route to the internet.
    Local,
    /// The host is connected to a network, but can't reach the full internet.
    Limited,
    /// The host is behind a captive portal and cannot reach the full internet.
    CaptivePortal,
    /// The host connected to a network, and can reach the full internet.
    FullNetwork,
}

/// The number that stands for a [`Connectivity`] on the bus.
pub open spec fn connectivity_code(x: Connectivity) -> u32 {
    match x {
        Connectivity::Local => 1,
        Connectivity::Limited => 2,
        Connectivity::CaptivePortal => 3,
        Connectivity::FullNetwork => 4,
    }
}

/// What `connectivity_code` gives, value by value, each different from the others:
/// Local is 1; Limited is 2; CaptivePortal is 3; FullNetwork is 4.
pub proof fn lemma_connectivity_code_values(x: Connectivity)
    ensures
        (connectivity_code(x) == 1) == (x is Local),
        (connectivity_code(x) == 2) == (x is Limited),
        (connectivity_code(x) == 3) == (x is CaptivePortal),
        (connectivity_code(x) == 4) == (x is FullNetwork),
{
}

impl Connectivity {
    /// The number that stands for the value on the bus.
    pub fn code(self) -> (n: u32)
        ensures
            n == connectivity_code(self),
    {
        match self {
            Connectivity::Local => 1,
            Connectivity::Limited => 2,
            Connectivity::CaptivePortal => 3,
            Connectivity::FullNetwork => 4,
        }
    }

    /// The value that a number stands for on the bus.
    pub fn from_code(n: u32) -> (x: Option<Connectivity>)
        ensures
            match x {
                Some(v) => connectivity_code(v) == n,
                None => n != 1 && n != 2 && n != 3 && n != 4,
            },
    {
        if n == 1 {
            Some(Connectivity::Local)
        } else if n == 2 {
            Some(Connectivity::Limited)
        } else if n == 3 {
            Some(Connectivity::CaptivePortal)
        } else if n == 4 {
            Some(Connectivity::FullNetwork)
        } else {
            None
        }
    }
}

/// Decoding the number of a value gives the value back.
pub proof fn lemma_connectivity_code_round_trip(x: Connectivity)
    ensures
        forall|y: Connectivity| connectivity_code(y) == connectivity_code(x) ==> y == x,
{
}

/// The name under which a connectivity is shown.
pub open spec fn connectivity_text(c: Connectivity) -> Seq<char> {
    match c {
        Connectivity::Local => "local"@,
        Connectivity::Limited => "limited"@,
        Connectivity::CaptivePortal => "captive portal"@,
        Connectivity::FullNetwork => "full network"@,
    }
}

/// What `connectivity_text` gives, value by value, each different from the others:
/// Local is "local"; Limited is "limited"; CaptivePortal is "captive portal"; FullNetwork is "full network".
pub proof fn lemma_connectivity_text_values(x: Connectivity)
    ensures
        (connectivity_text(x) == "local"@) == (x is Local),
        (connectivity_text(x) == "limited"@) == (x is Limited),
        (connectivity_text(x) == "captive portal"@) == (x is CaptivePortal),
        (connectivity_text(x) == "full network"@) == (x is FullNetwork),
{
    reveal_strlit("captive portal");
    reveal_strlit("full network");
    reveal_strlit("limited");
    reveal_strlit("local");
    assert("captive portal"@.len() != "full network"@.len());
    assert("captive portal"@.len() != "limited"@.len());
    assert("captive portal"@.len() != "local"@.len());
    assert("full network"@.len() != "limited"@.len());
    assert("full network"@.len() != "local"@.len());
    assert("limited"@.len() != "local"@.len());
}

impl Connectivity {
    /// The name under which the connectivity is shown.
    pub fn to_string(&self) -> (s: &'static str)
        ensures
            s@ == connectivity_text(*self),
    {
        match self {
            Connectivity::Local => "local",
            Connectivity::Limited => "limited",
            Connectivity::CaptivePortal => "captive portal",
            Connectivity::FullNetwork => "full network",
        }
    }
}

/// The network status, composed of the availability, metered & connectivity.
#[derive(Debug, Clone, Copy, PartialEq, Eq, Structural)]
pub struct NetworkStatus {
    available: bool,
    metered: bool,
    connectivity: Connectivity,
}

impl View for NetworkStatus {
    type V = (bool, bool, Connectivity);

    closed spec fn view(&self) -> (bool, bool, Connectivity) {
        (self.available, self.metered, self.connectivity)
    }
}

impl NetworkStatus {
    /// The status with the given availability, metering and connectivity.
    pub fn new(available: bool, metered: bool, connectivity: Connectivity) -> (s: NetworkStatus)
        ensures
            s@ == (available, metered, connectivity),
    {
        NetworkStatus { available, metered, connectivity }
    }

    /// Returns whether the network is considered available.
    pub fn is_available(&self) -> (b: bool)
        ensures
            b == self@.0,
    {
        self.available
    }

    /// Returns whether the network is considered metered.
    pub fn is_metered(&self) -> (b: bool)
        ensures
            b == self@.1,
    {
        self.metered
    }

    /// Returns more detailed information about the host's network
    /// connectivity.
    pub fn connectivity(&self) -> (c: Connectivity)
        ensures
            c == self@.2,
    {
        self.connectivity
    }
}

/// Network status information.
///
/// Wrapper of the DBus interface `org.freedesktop.portal.NetworkMonitor`.
#[derive(Debug)]
pub struct NetworkMonitor {
    proxy: Proxy,
}

impl View for NetworkMonitor {
    type V = ProxyView;

    closed spec fn view(&self) -> ProxyView {
        self.proxy@
    }
}

impl NetworkMonitor {
    /// The portal, which implements the given version of its interface.
    pub fn new(version: u32) -> (p: NetworkMonitor)
        ensures
            p@.destination == desktop_destination(),
            p@.interface == "org.freedesktop.portal.NetworkMonitor"@,
            p@.path == desktop_path(),
            p@.version == version,
    {
        NetworkMonitor { proxy: Proxy::new_desktop("org.freedesktop.portal.NetworkMonitor", version) }
    }

    /// Where the portal's calls go.
    pub fn inner(&self) -> (p: &Proxy)
        ensures
            p@ == self@,
    {
        &self.proxy
    }
}

impl NetworkMonitor {
    /// Refuses asking whether a host is reachable on a portal older than version 3.
    pub fn check_can_reach_version(&self) -> (r: Result<(), AshpdError>)
        ensures
            r is Err <==> self@.version < 3,
            r matches Err(e) ==> e == AshpdError::RequiresVersion(3, self@.version),
    {
        self.proxy.check_version(3)
    }

    /// Refuses asking whether the network is available on a portal older than version 2.
    pub fn check_available_version(&self) -> (r: Result<(), AshpdError>)
        ensures
            r is Err <==> self@.version < 2,
            r matches Err(e) ==> e == AshpdError::RequiresVersion(2, self@.version),
    {
        self.proxy.check_version(2)
    }

    /// Refuses asking for the connectivity on a portal older than version 2.
    pub fn check_connectivity_version(&self) -> (r: Result<(), AshpdError>)
        ensures
            r is Err <==> self@.version < 2,
            r matches Err(e) ==> e == AshpdError::RequiresVersion(2, self@.version),
    {
        self.proxy.check_version(2)
    }

    /// Refuses asking whether the network is metered on a portal older than version 2.
    pub fn check_metered_version(&self) -> (r: Result<(), AshpdError>)
        ensures
            r is Err <==> self@.version < 2,
            r matches Err(e) ==> e == AshpdError::RequiresVersion(2, self@.version),
    {
        self.proxy.check_version(2)
    }

    /// Refuses asking for the whole status on a portal older than version 3.
    pub fn check_status_version(&self) -> (r: Result<(), AshpdError>)
        ensures
            r is Err <==> self@.version < 3,
            r matches Err(e) ==> e == AshpdError::RequiresVersion(3, self@.version),
    {
        self.proxy.check_version(3)
    }
}

} // verus!
