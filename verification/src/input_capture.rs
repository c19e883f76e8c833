//! The input capture portal: capabilities, the zones of the screen, pointer
//! barriers and the signals the portal emits.

use vstd::prelude::*;
use crate::session::SessionOptions;
use crate::proxy::{desktop_destination, desktop_path, Proxy, ProxyView};

verus! {

/// Supported capabilities.
#[derive(Debug, Clone, Copy, PartialEq, Eq, Structural)]
pub enum Capabilities {
    /// Keyboard
    Keyboard,
    /// Pointer
    Pointer,
    /// Touchscreen
    Touchscreen,
}

/// The bit that stands for a capability.
pub open spec fn capability_bit(c: Capabilities) -> u32 {
    match c {
        Capabilities::Keyboard => 1,
        Capabilities::Pointer => 2,
        Capabilities::Touchscreen => 4,
    }
}

/// What `capability_bit` gives, value by value, each different from the others:
/// Keyboard is 1; Pointer is 2; Touchscreen is 4.
pub proof fn lemma_capability_bit_values(x: Capabilities)
    ensures
        (capability_bit(x) == 1) == (x is Keyboard),
        (capability_bit(x) == 2) == (x is Pointer),
        (capability_bit(x) == 4) == (x is Touchscreen),
{
}

impl Capabilities {
    /// The bit that stands for the capability.
    pub fn bits(self) -> (b: u32)
        ensures
            b == capability_bit(self),
    {
        match self {
            Capabilities::Keyboard => 1,
            Capabilities::Pointer => 2,
            Capabilities::Touchscreen => 4,
        }
    }

    /// The capability that a single bit stands for.
    pub fn from_bit(bit: u32) -> (c: Option<Capabilities>)
        ensures
            match c {
                Some(x) => capability_bit(x) == bit,
                None => bit != 1 && bit != 2 && bit != 4,
            },
    {
        if bit == 1 {
            Some(Capabilities::Keyboard)
        } else if bit == 2 {
            Some(Capabilities::Pointer)
        } else if bit == 4 {
            Some(Capabilities::Touchscreen)
        } else {
            None
        }
    }

    /// The bits of all capabilities.
    pub fn all_bits() -> (b: u32)
        ensures
            b == 7,
    {
        7
    }
}

/// A region of a [`Zones`]: its size and its offset.
#[derive(Debug, Clone, Copy, PartialEq, Eq, Structural)]
pub struct Region {
    width: u32,
    height: u32,
    x_offset: i32,
    y_offset: i32,
}

impl View for Region {
    type V = (u32, u32, i32, i32);

    closed spec fn view(&self) -> (u32, u32, i32, i32) {
        (self.width, self.height, self.x_offset, self.y_offset)
    }
}

impl Region {
    /// The region with the given width, height and offsets.
    pub fn new(width: u32, height: u32, x_offset: i32, y_offset: i32) -> (r: Region)
        ensures
            r@ == (width, height, x_offset, y_offset),
    {
        Region { width, height, x_offset, y_offset }
    }

    /// The width.
    pub fn width(self) -> (w: u32)
        ensures
            w == self@.0,
    {
        self.width
    }

    /// The height.
    pub fn height(self) -> (h: u32)
        ensures
            h == self@.1,
    {
        self.height
    }

    /// The x offset.
    pub fn x_offset(self) -> (x: i32)
        ensures
            x == self@.2,
    {
        self.x_offset
    }

    /// The y offset.
    pub fn y_offset(self) -> (y: i32)
        ensures
            y == self@.3,
    {
        self.y_offset
    }
}

/// The regions of the screen and the ID of the set they make up.
#[derive(Debug)]
pub struct Zones {
    regions: Vec<Region>,
    zone_set: u32,
}

impl Zones {
    /// The zones with the given regions and zone set ID.
    pub fn new(regions: Vec<Region>, zone_set: u32) -> (z: Zones)
        ensures
            z.spec_regions() == regions@,
            z.spec_zone_set() == zone_set,
    {
        Zones { regions, zone_set }
    }

    /// The regions.
    pub closed spec fn spec_regions(self) -> Seq<Region> {
        self.regions@
    }

    /// The zone set ID.
    pub closed spec fn spec_zone_set(self) -> u32 {
        self.zone_set
    }

    /// A list of regions.
    pub fn regions(&self) -> (r: &[Region])
        ensures
            r@ == self.spec_regions(),
    {
        self.regions.as_slice()
    }

    /// A unique ID to be used when setting pointer barriers.
    pub fn zone_set(&self) -> (z: u32)
        ensures
            z == self.spec_zone_set(),
    {
        self.zone_set
    }
}

/// A barrier ID.
pub type BarrierID = u32;

/// Input barrier: its ID and its position as (x1, y1, x2, y2).
#[derive(Debug, Clone, Copy)]
pub struct Barrier {
    barrier_id: u32,
    position: (i32, i32, i32, i32),
}

impl View for Barrier {
    type V = (u32, (i32, i32, i32, i32));

    closed spec fn view(&self) -> (u32, (i32, i32, i32, i32)) {
        (self.barrier_id, self.position)
    }
}

impl Barrier {
    /// Create a new barrier.
    pub fn new(barrier_id: u32, position: (i32, i32, i32, i32)) -> (b: Barrier)
        ensures
            b@ == (barrier_id, position),
    {
        Barrier { barrier_id, position }
    }

    /// The barrier's ID.
    pub fn barrier_id(&self) -> (id: u32)
        ensures
            id == self@.0,
    {
        self.barrier_id
    }

    /// The barrier's position.
    pub fn position(&self) -> (p: (i32, i32, i32, i32))
        ensures
            p == self@.1,
    {
        self.position
    }
}

/// The response to a request to set pointer barriers.
#[derive(Debug)]
pub struct SetPointerBarriersResponse {
    failed_barriers: Vec<u32>,
}

impl View for SetPointerBarriersResponse {
    type V = Seq<u32>;

    closed spec fn view(&self) -> Seq<u32> {
        self.failed_barriers@
    }
}

impl SetPointerBarriersResponse {
    /// The response naming the barriers that were denied.
    pub fn new(failed_barriers: Vec<u32>) -> (r: SetPointerBarriersResponse)
        ensures
            r@ == failed_barriers@,
    {
        SetPointerBarriersResponse { failed_barriers }
    }

    /// List of pointer barriers that have been denied.
    pub fn failed_barriers(&self) -> (f: &[u32])
        ensures
            f@ == self@,
    {
        self.failed_barriers.as_slice()
    }
}

/// Emitted when the application will no longer receive captured events.
#[derive(Debug)]
pub struct Disabled {
    session_handle: String,
}

impl Disabled {
    /// The signal for the given session.
    pub fn new(session_handle: String) -> (d: Disabled)
        ensures
            d.spec_session_handle() == session_handle@,
    {
        Disabled { session_handle }
    }

    /// The session's object path.
    pub closed spec fn spec_session_handle(self) -> Seq<char> {
        self.session_handle@
    }

    /// The session that was disabled.
    pub fn session_handle(&self) -> (s: &str)
        ensures
            s@ == self.spec_session_handle(),
    {
        self.session_handle.as_str()
    }
}

/// Emitted when input capture of an activation stopped.
#[derive(Debug)]
pub struct Deactivated {
    session_handle: String,
    activation_id: u32,
}

impl Deactivated {
    /// The signal for the given session and activation.
    pub fn new(session_handle: String, activation_id: u32) -> (d: Deactivated)
        ensures
            d.spec_session_handle() == session_handle@,
            d.spec_activation_id() == activation_id,
    {
        Deactivated { session_handle, activation_id }
    }

    /// The session's object path.
    pub closed spec fn spec_session_handle(self) -> Seq<char> {
        self.session_handle@
    }

    /// The activation's ID.
    pub closed spec fn spec_activation_id(self) -> u32 {
        self.activation_id
    }

    /// The session that was deactivated.
    pub fn session_handle(&self) -> (s: &str)
        ensures
            s@ == self.spec_session_handle(),
    {
        self.session_handle.as_str()
    }

    /// The same activation ID as the one of the matching activation.
    pub fn activation_id(&self) -> (id: u32)
        ensures
            id == self.spec_activation_id(),
    {
        self.activation_id
    }
}

/// Emitted when the set of zones changed.
#[derive(Debug)]
pub struct ZonesChanged {
    session_handle: String,
    zone_set: u32,
}

impl ZonesChanged {
    /// The signal for the given session and invalidated zone set.
    pub fn new(session_handle: String, zone_set: u32) -> (z: ZonesChanged)
        ensures
            z.spec_session_handle() == session_handle@,
            z.spec_zone_set() == zone_set,
    {
        ZonesChanged { session_handle, zone_set }
    }

    /// The session's object path.
    pub closed spec fn spec_session_handle(self) -> Seq<char> {
        self.session_handle@
    }

    /// The invalidated zone set.
    pub closed spec fn spec_zone_set(self) -> u32 {
        self.zone_set
    }

    /// The session whose zones changed.
    pub fn session_handle(&self) -> (s: &str)
        ensures
            s@ == self.spec_session_handle(),
    {
        self.session_handle.as_str()
    }

    /// The zone_set ID of the invalidated zone.
    pub fn zone_set(&self) -> (z: u32)
        ensures
            z == self.spec_zone_set(),
    {
        self.zone_set
    }
}

/// Capture input events from the compositor.
///
/// Wrapper of the DBus interface `org.freedesktop.portal.InputCapture`.
#[derive(Debug)]
pub struct InputCapture {
    proxy: Proxy,
}

impl View for InputCapture {
    type V = ProxyView;

    closed spec fn view(&self) -> ProxyView {
        self.proxy@
    }
}

impl InputCapture {
    /// The portal, which implements the given version of its interface.
    pub fn new(version: u32) -> (p: InputCapture)
        ensures
            p@.destination == desktop_destination(),
            p@.interface == "org.freedesktop.portal.InputCapture"@,
            p@.path == desktop_path(),
            p@.version == version,
    {
        InputCapture { proxy: Proxy::new_desktop("org.freedesktop.portal.InputCapture", version) }
    }

    /// Where the portal's calls go.
    pub fn inner(&self) -> (p: &Proxy)
        ensures
            p@ == self@,
    {
        &self.proxy
    }
}

/// The options of a request to create an input capture session: the
/// session's tokens and the capabilities asked for.
#[derive(Debug)]
pub struct CreateSessionOptions {
    tokens: SessionOptions,
    capabilities: u32,
}

impl CreateSessionOptions {
    /// The options asking for the given capabilities, as [`Capabilities`]
    /// bits, with fresh tokens.
    pub fn new(capabilities: u32) -> (o: CreateSessionOptions)
        ensures
            o.spec_capabilities() == capabilities,
    {
        CreateSessionOptions { tokens: SessionOptions::default(), capabilities }
    }

    /// The capabilities asked for.
    pub closed spec fn spec_capabilities(self) -> u32 {
        self.capabilities
    }

    /// The capabilities asked for, as [`Capabilities`] bits.
    pub fn capabilities(&self) -> (c: u32)
        ensures
            c == self.spec_capabilities(),
    {
        self.capabilities
    }

    /// The request's and the session's handle tokens.
    pub closed spec fn spec_tokens(self) -> SessionOptions {
        self.tokens
    }

    /// The request's and the session's handle tokens.
    pub fn tokens(&self) -> (t: &SessionOptions)
        ensures
            *t == self.spec_tokens(),
    {
        &self.tokens
    }
}

} // verus!
