//! The kinds of device an application may ask access to.

use vstd::prelude::*;
use crate::error::AshpdError;
use crate::text::str_equals;
use crate::proxy::{desktop_destination, desktop_path, Proxy, ProxyView};

verus! {

/// The possible device to request access to.
#[derive(Debug, Clone, Copy, PartialEq, Eq, Structural)]
pub enum DeviceKind {
    /// A microphone.
    Microphone,
    /// Speakers.
    Speakers,
    /// A Camera.
    Camera,
}

/// The name under which a [`DeviceKind`] is shown.
pub open spec fn device_kind_text(x: DeviceKind) -> Seq<char> {
    match x {
        DeviceKind::Microphone => "Microphone"@,
        DeviceKind::Speakers => "Speakers"@,
        DeviceKind::Camera => "Camera"@,
    }
}

/// What `device_kind_text` gives, value by value, each different from the others:
/// Microphone is "Microphone"; Speakers is "Speakers"; Camera is "Camera".
pub proof fn lemma_device_kind_text_values(x: DeviceKind)
    ensures
        (device_kind_text(x) == "Microphone"@) == (x is Microphone),
        (device_kind_text(x) == "Speakers"@) == (x is Speakers),
        (device_kind_text(x) == "Camera"@) == (x is Camera),
{
    reveal_strlit("Camera");
    reveal_strlit("Microphone");
    reveal_strlit("Speakers");
    assert("Camera"@.len() != "Microphone"@.len());
    assert("Camera"@.len() != "Speakers"@.len());
    assert("Microphone"@.len() != "Speakers"@.len());
}

/// The name of a [`DeviceKind`] on the bus.
pub open spec fn device_kind_wire(x: DeviceKind) -> Seq<char> {
    match x {
        DeviceKind::Microphone => "microphone"@,
        DeviceKind::Speakers => "speakers"@,
        DeviceKind::Camera => "camera"@,
    }
}

/// What `device_kind_wire` gives, value by value, each different from the others:
/// Microphone is "microphone"; Speakers is "speakers"; Camera is "camera".
pub proof fn lemma_device_kind_wire_values(x: DeviceKind)
    ensures
        (device_kind_wire(x) == "microphone"@) == (x is Microphone),
        (device_kind_wire(x) == "speakers"@) == (x is Speakers),
        (device_kind_wire(x) == "camera"@) == (x is Camera),
{
    reveal_strlit("camera");
    reveal_strlit("microphone");
    reveal_strlit("speakers");
    assert("camera"@.len() != "microphone"@.len());
    assert("camera"@.len() != "speakers"@.len());
    assert("microphone"@.len() != "speakers"@.len());
}

/// The [`DeviceKind`] that a text names, if any.
pub open spec fn parse_device_kind(s: Seq<char>) -> Option<DeviceKind> {
    if s == "Microphone"@ || s == "microphone"@ {
        Some(DeviceKind::Microphone)
    } else if s == "Speakers"@ || s == "speakers"@ {
        Some(DeviceKind::Speakers)
    } else if s == "Camera"@ || s == "camera"@ {
        Some(DeviceKind::Camera)
    } else {
        None
    }
}

/// A text names a `DeviceKind` exactly where it is that value's shown name or its
/// name on the bus; no other text names one.
pub proof fn lemma_parse_device_kind_names(s: Seq<char>, x: DeviceKind)
    ensures
        (parse_device_kind(s) == Some(x)) == (s == device_kind_text(x) || s == device_kind_wire(x)),
{
    reveal_strlit("Microphone");
    reveal_strlit("microphone");
    reveal_strlit("Speakers");
    reveal_strlit("speakers");
    reveal_strlit("Camera");
    reveal_strlit("camera");
    assert("Microphone"@[0] != "microphone"@[0]);
    assert("Microphone"@.len() != "Speakers"@.len());
    assert("Microphone"@.len() != "speakers"@.len());
    assert("Microphone"@.len() != "Camera"@.len());
    assert("Microphone"@.len() != "camera"@.len());
    assert("microphone"@.len() != "Speakers"@.len());
    assert("microphone"@.len() != "speakers"@.len());
    assert("microphone"@.len() != "Camera"@.len());
    assert("microphone"@.len() != "camera"@.len());
    assert("Speakers"@[0] != "speakers"@[0]);
    assert("Speakers"@.len() != "Camera"@.len());
    assert("Speakers"@.len() != "camera"@.len());
    assert("speakers"@.len() != "Camera"@.len());
    assert("speakers"@.len() != "camera"@.len());
    assert("Camera"@[0] != "camera"@[0]);
}

/// The message of the error that an unknown [`DeviceKind`] name gives.
pub open spec fn device_kind_parse_message() -> Seq<char> {
    "Failed to parse device, invalid value"@
}

impl DeviceKind {
    /// The name under which the value is shown.
    pub fn as_str(&self) -> (s: &'static str)
        ensures
            s@ == device_kind_text(*self),
    {
        match self {
            DeviceKind::Microphone => "Microphone",
            DeviceKind::Speakers => "Speakers",
            DeviceKind::Camera => "Camera",
        }
    }

    /// The name of the value on the bus.
    pub fn wire_name(&self) -> (s: &'static str)
        ensures
            s@ == device_kind_wire(*self),
    {
        match self {
            DeviceKind::Microphone => "microphone",
            DeviceKind::Speakers => "speakers",
            DeviceKind::Camera => "camera",
        }
    }

    /// The value that a text names; a parse error for any other text.
    pub fn from_str(s: &str) -> (r: Result<DeviceKind, AshpdError>)
        ensures
            match r {
                Ok(x) => parse_device_kind(s@) == Some(x),
                Err(e) => parse_device_kind(s@) is None && (e matches AshpdError::ParseError(m) && m@
                    == device_kind_parse_message()),
            },
    {
        if str_equals(s, "Microphone") || str_equals(s, "microphone") {
            Ok(DeviceKind::Microphone)
        } else if str_equals(s, "Speakers") || str_equals(s, "speakers") {
            Ok(DeviceKind::Speakers)
        } else if str_equals(s, "Camera") || str_equals(s, "camera") {
            Ok(DeviceKind::Camera)
        } else {
            Err(AshpdError::ParseError("Failed to parse device, invalid value"))
        }
    }
}

/// Parsing the name of a value on the bus gives the value back.
pub proof fn lemma_device_kind_wire_round_trip(x: DeviceKind)
    ensures
        parse_device_kind(device_kind_wire(x)) == Some(x),
{
    reveal_strlit("Microphone");
    reveal_strlit("microphone");
    reveal_strlit("Speakers");
    reveal_strlit("speakers");
    reveal_strlit("Camera");
    reveal_strlit("camera");
    assert("speakers"@.len() == 8 && "Microphone"@.len() == 10);
    assert("speakers"@ != "Microphone"@);
    assert("speakers"@.len() == 8 && "microphone"@.len() == 10);
    assert("speakers"@ != "microphone"@);
    assert("camera"@.len() == 6 && "Microphone"@.len() == 10);
    assert("camera"@ != "Microphone"@);
    assert("camera"@.len() == 6 && "microphone"@.len() == 10);
    assert("camera"@ != "microphone"@);
    assert("camera"@.len() == 6 && "Speakers"@.len() == 8);
    assert("camera"@ != "Speakers"@);
    assert("camera"@.len() == 6 && "speakers"@.len() == 8);
    assert("camera"@ != "speakers"@);
}

/// Parsing the name under which a value is shown gives the value back.
pub proof fn lemma_device_kind_text_round_trip(x: DeviceKind)
    ensures
        parse_device_kind(device_kind_text(x)) == Some(x),
{
    reveal_strlit("Microphone");
    reveal_strlit("microphone");
    reveal_strlit("Speakers");
    reveal_strlit("speakers");
    reveal_strlit("Camera");
    reveal_strlit("camera");
    assert("Speakers"@.len() == 8 && "Microphone"@.len() == 10);
    assert("Speakers"@ != "Microphone"@);
    assert("Speakers"@.len() == 8 && "microphone"@.len() == 10);
    assert("Speakers"@ != "microphone"@);
    assert("Camera"@.len() == 6 && "Microphone"@.len() == 10);
    assert("Camera"@ != "Microphone"@);
    assert("Camera"@.len() == 6 && "microphone"@.len() == 10);
    assert("Camera"@ != "microphone"@);
    assert("Camera"@.len() == 6 && "Speakers"@.len() == 8);
    assert("Camera"@ != "Speakers"@);
    assert("Camera"@.len() == 6 && "speakers"@.len() == 8);
    assert("Camera"@ != "speakers"@);
}

/// The names of devices as a request for access to them carries them, in
/// order.
pub fn device_wire_names(devices: &[DeviceKind]) -> (r: Vec<&'static str>)
    ensures
        r@.len() == devices@.len(),
        forall|i: int| 0 <= i < r@.len() ==> (#[trigger] r@[i])@ == device_kind_wire(devices@[i]),
{
    let mut r: Vec<&'static str> = Vec::new();
    let mut i: usize = 0;
    while i < devices.len()
        invariant
            i <= devices@.len(),
            r@.len() == i,
            forall|j: int| 0 <= j < i ==> (#[trigger] r@[j])@ == device_kind_wire(devices@[j]),
        decreases devices@.len() - i,
    {
        r.push(devices[i].wire_name());
        i = i + 1;
    }
    r
}

/// Ask whether an application may access devices.
///
/// Wrapper of the DBus interface `org.freedesktop.portal.Device`.
#[derive(Debug)]
pub struct Device {
    proxy: Proxy,
}

impl View for Device {
    type V = ProxyView;

    closed spec fn view(&self) -> ProxyView {
        self.proxy@
    }
}

impl Device {
    /// The portal, which implements the given version of its interface.
    pub fn new(version: u32) -> (p: Device)
        ensures
            p@.destination == desktop_destination(),
            p@.interface == "org.freedesktop.portal.Device"@,
            p@.path == desktop_path(),
            p@.version == version,
    {
        Device { proxy: Proxy::new_desktop("org.freedesktop.portal.Device", version) }
    }

    /// Where the portal's calls go.
    pub fn inner(&self) -> (p: &Proxy)
        ensures
            p@ == self@,
    {
        &self.proxy
    }
}

} // verus!
