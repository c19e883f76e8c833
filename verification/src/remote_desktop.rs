//! The remote desktop portal: key states, device types and scroll axes.

use vstd::prelude::*;
use crate::error::AshpdError;
use crate::handle_token::{is_fresh_token, HandleToken};
use crate::proxy::{desktop_destination, desktop_path, Proxy, ProxyView};

verus! {

/// The state of a key.
#[derive(Debug, Clone, Copy, PartialEq, Eq, Structural)]
pub enum KeyState {
    /// The key is pressed.
    Pressed,
    /// The key is released.
    Released,
}

/// The number that stands for a [`KeyState`] on the bus.
pub open spec fn key_state_code(x: KeyState) -> u32 {
    match x {
        KeyState::Pressed => 1,
        KeyState::Released => 0,
    }
}

/// What `key_state_code` gives, value by value, each different from the others:
/// Pressed is 1; Released is 0.
pub proof fn lemma_key_state_code_values(x: KeyState)
    ensures
        (key_state_code(x) == 1) == (x is Pressed),
        (key_state_code(x) == 0) == (x is Released),
{
}

impl KeyState {
    /// The number that stands for the value on the bus.
    pub fn code(self) -> (n: u32)
        ensures
            n == key_state_code(self),
    {
        match self {
            KeyState::Pressed => 1,
            KeyState::Released => 0,
        }
    }

    /// The value that a number stands for on the bus.
    pub fn from_code(n: u32) -> (x: Option<KeyState>)
        ensures
            match x {
                Some(v) => key_state_code(v) == n,
                None => n != 1 && n != 0,
            },
    {
        if n == 1 {
            Some(KeyState::Pressed)
        } else if n == 0 {
            Some(KeyState::Released)
        } else {
            None
        }
    }
}

/// Decoding the number of a value gives the value back.
pub proof fn lemma_key_state_code_round_trip(x: KeyState)
    ensures
        forall|y: KeyState| key_state_code(y) == key_state_code(x) ==> y == x,
{
}

/// A bit flag for the device types.
#[derive(Debug, Clone, Copy, PartialEq, Eq, Structural)]
pub enum DeviceType {
    /// A keyboard.
    Keyboard,
    /// A mouse pointer.
    Pointer,
    /// A touchscreen.
    Touchscreen,
}

/// The bit that stands for a [`DeviceType`].
pub open spec fn device_type_bit(x: DeviceType) -> u32 {
    match x {
        DeviceType::Keyboard => 1,
        DeviceType::Pointer => 2,
        DeviceType::Touchscreen => 4,
    }
}

/// What `device_type_bit` gives, value by value, each different from the others:
/// Keyboard is 1; Pointer is 2; Touchscreen is 4.
pub proof fn lemma_device_type_bit_values(x: DeviceType)
    ensures
        (device_type_bit(x) == 1) == (x is Keyboard),
        (device_type_bit(x) == 2) == (x is Pointer),
        (device_type_bit(x) == 4) == (x is Touchscreen),
{
}

impl DeviceType {
    /// The bit that stands for the value.
    pub fn bits(self) -> (b: u32)
        ensures
            b == device_type_bit(self),
    {
        match self {
            DeviceType::Keyboard => 1,
            DeviceType::Pointer => 2,
            DeviceType::Touchscreen => 4,
        }
    }

    /// The value that a single bit stands for.
    pub fn from_bit(bit: u32) -> (x: Option<DeviceType>)
        ensures
            match x {
                Some(v) => device_type_bit(v) == bit,
                None => bit != 1 && bit != 2 && bit != 4,
            },
    {
        if bit == 1 {
            Some(DeviceType::Keyboard)
        } else if bit == 2 {
            Some(DeviceType::Pointer)
        } else if bit == 4 {
            Some(DeviceType::Touchscreen)
        } else {
            None
        }
    }

    /// The bits of all values.
    pub fn all_bits() -> (b: u32)
        ensures
            b == 7,
    {
        7
    }
}

/// The scroll axis.
#[derive(Debug, Clone, Copy, PartialEq, Eq, Structural)]
pub enum Axis {
    /// Vertical scroll.
    Vertical,
    /// Horizontal scroll.
    Horizontal,
}

/// The number that stands for a [`Axis`] on the bus.
pub open spec fn axis_code(x: Axis) -> u32 {
    match x {
        Axis::Vertical => 0,
        Axis::Horizontal => 1,
    }
}

/// What `axis_code` gives, value by value, each different from the others:
/// Vertical is 0; Horizontal is 1.
pub proof fn lemma_axis_code_values(x: Axis)
    ensures
        (axis_code(x) == 0) == (x is Vertical),
        (axis_code(x) == 1) == (x is Horizontal),
{
}

impl Axis {
    /// The number that stands for the value on the bus.
    pub fn code(self) -> (n: u32)
        ensures
            n == axis_code(self),
    {
        match self {
            Axis::Vertical => 0,
            Axis::Horizontal => 1,
        }
    }

    /// The value that a number stands for on the bus.
    pub fn from_code(n: u32) -> (x: Option<Axis>)
        ensures
            match x {
                Some(v) => axis_code(v) == n,
                None => n != 0 && n != 1,
            },
    {
        if n == 0 {
            Some(Axis::Vertical)
        } else if n == 1 {
            Some(Axis::Horizontal)
        } else {
            None
        }
    }
}

/// Decoding the number of a value gives the value back.
pub proof fn lemma_axis_code_round_trip(x: Axis)
    ensures
        forall|y: Axis| axis_code(y) == axis_code(x) ==> y == x,
{
}

/// The devices and streams the user selected.
#[derive(Debug)]
pub struct SelectedDevices {
    devices: u32,
    streams: Option<Vec<crate::screencast::Stream>>,
}

impl SelectedDevices {
    /// The selection of the given devices and streams.
    pub fn new(devices: u32, streams: Option<Vec<crate::screencast::Stream>>) -> (s: SelectedDevices)
        ensures
            s.spec_devices() == devices,
            s.spec_streams() == match streams {
                Some(v) => Some(crate::screencast::streams_view(v@)),
                None => None,
            },
    {
        SelectedDevices { devices, streams }
    }

    /// The selected devices, as [`DeviceType`] bits.
    pub closed spec fn spec_devices(self) -> u32 {
        self.devices
    }

    /// The selected streams.
    pub closed spec fn spec_streams(self) -> Option<Seq<crate::screencast::StreamView>> {
        match self.streams {
            Some(v) => Some(crate::screencast::streams_view(v@)),
            None => None,
        }
    }

    /// The selected devices, as [`DeviceType`] bits.
    pub fn devices(&self) -> (d: u32)
        ensures
            d == self.spec_devices(),
    {
        self.devices
    }

    /// The selected streams, if a screen cast was set up with the session.
    pub fn streams(&self) -> (s: Option<&[crate::screencast::Stream]>)
        ensures
            match s {
                Some(v) => self.spec_streams() == Some(crate::screencast::streams_view(v@)),
                None => self.spec_streams() is None,
            },
    {
        match &self.streams {
            Some(v) => Some(v.as_slice()),
            None => None,
        }
    }
}

/// Control the desktop remotely.
///
/// Wrapper of the DBus interface `org.freedesktop.portal.RemoteDesktop`.
#[derive(Debug)]
pub struct RemoteDesktop {
    proxy: Proxy,
}

impl View for RemoteDesktop {
    type V = ProxyView;

    closed spec fn view(&self) -> ProxyView {
        self.proxy@
    }
}

impl RemoteDesktop {
    /// The portal, which implements the given version of its interface.
    pub fn new(version: u32) -> (p: RemoteDesktop)
        ensures
            p@.destination == desktop_destination(),
            p@.interface == "org.freedesktop.portal.RemoteDesktop"@,
            p@.path == desktop_path(),
            p@.version == version,
    {
        RemoteDesktop { proxy: Proxy::new_desktop("org.freedesktop.portal.RemoteDesktop", version) }
    }

    /// Where the portal's calls go.
    pub fn inner(&self) -> (p: &Proxy)
        ensures
            p@ == self@,
    {
        &self.proxy
    }
}

impl RemoteDesktop {
    /// Refuses connecting to EIS on a portal older than version 2.
    pub fn check_connect_to_eis_version(&self) -> (r: Result<(), AshpdError>)
        ensures
            r is Err <==> self@.version < 2,
            r matches Err(e) ==> e == AshpdError::RequiresVersion(2, self@.version),
    {
        self.proxy.check_version(2)
    }
}

/// The options of a request to select the devices to control.
#[derive(Debug)]
pub struct SelectDevicesOptions {
    handle_token: HandleToken,
    types: Option<u32>,
}

/// The model of a [`SelectDevicesOptions`].
pub struct SelectDevicesOptionsView {
    pub token: Seq<char>,
    pub types: Option<u32>,
}

impl View for SelectDevicesOptions {
    type V = SelectDevicesOptionsView;

    closed spec fn view(&self) -> SelectDevicesOptionsView {
        SelectDevicesOptionsView {
            token: self.handle_token@,
            types: self.types,
        }
    }
}

impl SelectDevicesOptions {
    /// A request with a fresh handle token and every option unset.
    pub fn default() -> (r: SelectDevicesOptions)
        ensures
            is_fresh_token(r@.token),
            r@.types is None,
    {
        SelectDevicesOptions {
            handle_token: HandleToken::default(),
            types: None,
        }
    }

    /// The handle token of the request.
    pub fn handle_token(&self) -> (t: &HandleToken)
        ensures
            t@ == self@.token,
    {
        &self.handle_token
    }

    /// Sets the device types to control, as [`DeviceType`] bits.
    pub fn types(self, types: Option<u32>) -> (r: Self)
        ensures
            r@ == (SelectDevicesOptionsView { types: types, ..self@ }),
    {
        let mut r = self;
        r.types = types;
        r
    }
}

} // verus!
