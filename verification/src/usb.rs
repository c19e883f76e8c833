//! The USB portal: the devices it reports, the devices an application asks
//! for, and what acquiring them gave.

use vstd::prelude::*;
use crate::proxy::{desktop_destination, desktop_path, Proxy, ProxyView};
use crate::keyed::{first_value, keys_unique, last_value, lemma_first_value_some};
use crate::text::{owned, str_equals, copy_opt_text, opt_text};

verus! {

/// A property of a device: its name and, where the value is a string, that
/// string.
pub type DeviceProperty = (String, Option<String>);

/// The model of a list of properties.
pub open spec fn properties_view(v: Seq<DeviceProperty>) -> Seq<(Seq<char>, Option<Seq<char>>)> {
    v.map_values(|p: DeviceProperty| (p.0@, opt_text(p.1)))
}

/// The string under the first of two keys that is present; none where
/// neither is, or where the value under that key is not a string.
pub open spec fn property_with_fallback(
    props: Seq<(Seq<char>, Option<Seq<char>>)>,
    first: Seq<char>,
    second: Seq<char>,
) -> Option<Seq<char>> {
    match first_value(props, first) {
        Some(v) => v,
        None => match first_value(props, second) {
            Some(v) => v,
            None => None,
        },
    }
}

/// Looks `key` up among the properties: the value under its first entry.
fn find_property(props: &Vec<DeviceProperty>, key: &str) -> (r: Option<Option<String>>)
    ensures
        match r {
            Some(v) => first_value(properties_view(props@), key@) == Some(opt_text(v)),
            None => first_value(properties_view(props@), key@) is None,
        },
{
    let mut i: usize = 0;
    assert(properties_view(props@).skip(0) =~= properties_view(props@));
    while i < props.len()
        invariant
            i <= props@.len(),
            first_value(properties_view(props@), key@) == first_value(properties_view(props@).skip(i as int), key@),
        decreases props@.len() - i,
    {
        let ghost rest = properties_view(props@).skip(i as int);
        assert(rest[0] == (props@[i as int].0@, opt_text(props@[i as int].1)));
        if str_equals(props[i].0.as_str(), key) {
            return Some(copy_opt_text(&props[i].1));
        }
        assert(rest.drop_first() =~= properties_view(props@).skip(i + 1));
        i = i + 1;
    }
    None
}

/// Whether an entry of `props` is named `key`.
fn has_property(props: &Vec<DeviceProperty>, key: &str) -> (b: bool)
    ensures
        b == first_value(properties_view(props@), key@) is Some,
{
    let mut i: usize = 0;
    while i < props.len()
        invariant
            i <= props@.len(),
            forall|j: int| 0 <= j < i ==> properties_view(props@)[j].0 != key@,
        decreases props@.len() - i,
    {
        if str_equals(props[i].0.as_str(), key) {
            assert(properties_view(props@).len() == props@.len());
            assert(properties_view(props@)[i as int].0 == key@);
            proof {
                lemma_first_value_some(properties_view(props@), key@);
            }
            return true;
        }
        i = i + 1;
    }
    proof {
        lemma_first_value_some(properties_view(props@), key@);
    }
    false
}

/// The properties as a map holds them: each name once, with the last value
/// given for it.
fn unique_properties(props: Vec<DeviceProperty>) -> (r: Vec<DeviceProperty>)
    ensures
        keys_unique(properties_view(r@)),
        forall|k: Seq<char>| first_value(properties_view(r@), k) == last_value(properties_view(props@), k),
{
    let ghost all = properties_view(props@);
    let mut rest = props;
    let mut out: Vec<DeviceProperty> = Vec::new();
    assert(all.subrange(all.len() as int, all.len() as int) =~= Seq::<(Seq<char>, Option<Seq<char>>)>::empty());
    while rest.len() > 0
        invariant
            rest@.len() <= all.len(),
            properties_view(rest@) =~= all.subrange(0, rest@.len() as int),
            keys_unique(properties_view(out@)),
            forall|k: Seq<char>| first_value(properties_view(out@), k) == last_value(all.subrange(rest@.len() as int, all.len() as int), k),
        decreases rest@.len(),
    {
        let ghost m = rest@.len() - 1;
        let ghost seg = all.subrange(m as int, all.len() as int);
        let ghost before = properties_view(out@);
        let ghost old_rest = rest@;
        assert(all[m as int] == properties_view(old_rest)[m as int]);
        let e = match rest.pop() {
            Some(e) => e,
            None => {
                return out;
            },
        };
        assert(seg.drop_first() =~= all.subrange(m + 1, all.len() as int));
        assert(seg[0] == (e.0@, opt_text(e.1)));
        assert(properties_view(rest@) =~= all.subrange(0, rest@.len() as int));
        let present = has_property(&out, e.0.as_str());
        if !present {
            let ghost key = e.0@;
            let ghost val = opt_text(e.1);
            out.insert(0, e);
            let ghost after = properties_view(out@);
            assert(after.drop_first() =~= before);
            assert(after[0] == (key, val));
            proof {
                lemma_first_value_some(before, key);
                assert forall|i: int, j: int| 0 <= i < j < after.len() implies after[i].0 != after[j].0 by {
                    if i == 0 {
                        assert(before[j - 1].0 != key);
                    } else {
                        assert(before[i - 1].0 != before[j - 1].0);
                    }
                }
                assert forall|k: Seq<char>| first_value(after, k) == last_value(seg, k) by {
                    if k != key {
                        assert(first_value(after, k) == first_value(before, k));
                    } else {
                        assert(first_value(after, k) == Some(val));
                    }
                }
            }
        } else {
            proof {
                let key = seg[0].0;
                assert forall|k: Seq<char>| first_value(before, k) == last_value(seg, k) by {
                    assert(last_value(seg.drop_first(), k) == first_value(before, k));
                }
            }
        }
    }
    out
}

/// A USB device as the portal reports it.
#[derive(Debug)]
pub struct UsbDevice {
    parent: Option<String>,
    readable: Option<bool>,
    writable: Option<bool>,
    device_file: Option<String>,
    properties: Option<Vec<DeviceProperty>>,
}

/// The model of a [`UsbDevice`].
pub struct UsbDeviceView {
    pub parent: Option<Seq<char>>,
    pub readable: Option<bool>,
    pub writable: Option<bool>,
    pub device_file: Option<Seq<char>>,
    pub properties: Option<Seq<(Seq<char>, Option<Seq<char>>)>>,
}

impl View for UsbDevice {
    type V = UsbDeviceView;

    closed spec fn view(&self) -> UsbDeviceView {
        UsbDeviceView {
            parent: opt_text(self.parent),
            readable: self.readable,
            writable: self.writable,
            device_file: opt_text(self.device_file),
            properties: match self.properties {
                Some(p) => Some(properties_view(p@)),
                None => None,
            },
        }
    }
}

/// The vendor of a device with the given properties.
pub open spec fn device_vendor(props: Option<Seq<(Seq<char>, Option<Seq<char>>)>>) -> Option<Seq<char>> {
    match props {
        Some(p) => property_with_fallback(p, "ID_VENDOR_FROM_DATABASE"@, "ID_VENDOR_ENC"@),
        None => None,
    }
}

/// The model of a device with the given properties.
pub open spec fn device_model(props: Option<Seq<(Seq<char>, Option<Seq<char>>)>>) -> Option<Seq<char>> {
    match props {
        Some(p) => property_with_fallback(p, "ID_MODEL_FROM_DATABASE"@, "ID_MODEL_ENC"@),
        None => None,
    }
}

/// The vendor is the hardware database's vendor name wherever the
/// properties hold an entry under `ID_VENDOR_FROM_DATABASE`, a string or
/// not; only where they hold none is `ID_VENDOR_ENC` read. Without
/// properties there is no vendor.
pub proof fn lemma_vendor_prefers_database(props: Seq<(Seq<char>, Option<Seq<char>>)>)
    ensures
        first_value(props, "ID_VENDOR_FROM_DATABASE"@) matches Some(v) ==> device_vendor(Some(props)) == v,
        first_value(props, "ID_VENDOR_FROM_DATABASE"@) is None ==> device_vendor(Some(props)) == match first_value(
            props,
            "ID_VENDOR_ENC"@,
        ) {
            Some(v) => v,
            None => None,
        },
        device_vendor(None) is None,
{
}

/// The model is the hardware database's model name wherever the properties
/// hold an entry under `ID_MODEL_FROM_DATABASE`, a string or not; only
/// where they hold none is `ID_MODEL_ENC` read. Without properties there is
/// no model.
pub proof fn lemma_model_prefers_database(props: Seq<(Seq<char>, Option<Seq<char>>)>)
    ensures
        first_value(props, "ID_MODEL_FROM_DATABASE"@) matches Some(v) ==> device_model(Some(props)) == v,
        first_value(props, "ID_MODEL_FROM_DATABASE"@) is None ==> device_model(Some(props)) == match first_value(
            props,
            "ID_MODEL_ENC"@,
        ) {
            Some(v) => v,
            None => None,
        },
        device_model(None) is None,
{
}

impl UsbDevice {
    #[verifier::type_invariant]
    spec fn inv(self) -> bool {
        self.properties matches Some(p) ==> keys_unique(properties_view(p@))
    }

    /// The device with the given attributes; its properties are held as a
    /// map holds them, each name once with the last value given for it.
    pub fn new(
        parent: Option<String>,
        readable: Option<bool>,
        writable: Option<bool>,
        device_file: Option<String>,
        properties: Option<Vec<DeviceProperty>>,
    ) -> (d: UsbDevice)
        ensures
            d@.parent == opt_text(parent),
            d@.readable == readable,
            d@.writable == writable,
            d@.device_file == opt_text(device_file),
            match properties {
                Some(p) => d@.properties matches Some(q) && keys_unique(q) && forall|k: Seq<char>|
                    first_value(q, k) == last_value(properties_view(p@), k),
                None => d@.properties is None,
            },
    {
        let properties = match properties {
            Some(p) => Some(unique_properties(p)),
            None => None,
        };
        UsbDevice { parent, readable, writable, device_file, properties }
    }

    /// The parent device.
    pub fn parent(&self) -> (p: Option<&str>)
        ensures
            match p {
                Some(s) => self@.parent == Some(s@),
                None => self@.parent is None,
            },
    {
        match &self.parent {
            Some(s) => Some(s.as_str()),
            None => None,
        }
    }

    /// Whether the device can be read; not where the portal did not say.
    pub fn is_readable(&self) -> (b: bool)
        ensures
            b == (self@.readable == Some(true)),
    {
        match self.readable {
            Some(b) => b,
            None => false,
        }
    }

    /// Whether the device can be written; not where the portal did not say.
    pub fn is_writable(&self) -> (b: bool)
        ensures
            b == (self@.writable == Some(true)),
    {
        match self.writable {
            Some(b) => b,
            None => false,
        }
    }

    /// The device file.
    pub fn device_file(&self) -> (p: Option<&str>)
        ensures
            match p {
                Some(s) => self@.device_file == Some(s@),
                None => self@.device_file is None,
            },
    {
        match &self.device_file {
            Some(s) => Some(s.as_str()),
            None => None,
        }
    }

    fn property_fallback(&self, first: &str, second: &str) -> (r: Option<String>)
        ensures
            opt_text(r) == match self@.properties {
                Some(p) => property_with_fallback(p, first@, second@),
                None => None,
            },
    {
        match &self.properties {
            Some(props) => match find_property(props, first) {
                Some(v) => v,
                None => match find_property(props, second) {
                    Some(v) => v,
                    None => None,
                },
            },
            None => None,
        }
    }

    /// The vendor: the vendor name from the hardware database where it is
    /// given, else the encoded vendor name.
    pub fn vendor(&self) -> (v: Option<String>)
        ensures
            opt_text(v) == device_vendor(self@.properties),
    {
        self.property_fallback("ID_VENDOR_FROM_DATABASE", "ID_VENDOR_ENC")
    }

    /// The model: the model name from the hardware database where it is
    /// given, else the encoded model name.
    pub fn model(&self) -> (m: Option<String>)
        ensures
            opt_text(m) == device_model(self@.properties),
    {
        self.property_fallback("ID_MODEL_FROM_DATABASE", "ID_MODEL_ENC")
    }

    /// The device's properties, each name once.
    pub fn properties(&self) -> (p: Option<&Vec<DeviceProperty>>)
        ensures
            match p {
                Some(v) => self@.properties == Some(properties_view(v@)) && keys_unique(properties_view(v@)),
                None => self@.properties is None,
            },
    {
        proof {
            use_type_invariant(self);
        }
        match &self.properties {
            Some(v) => Some(v),
            None => None,
        }
    }
}

/// The error of a device that could not be acquired, with the portal's
/// message where it gave one.
#[derive(Debug)]
pub struct UsbError(pub Option<String>);

impl UsbError {
    /// The message of the error; the empty text where there is none.
    pub fn to_string(&self) -> (s: String)
        ensures
            s@ == match self.0 {
                Some(m) => m@,
                None => Seq::<char>::empty(),
            },
    {
        match &self.0 {
            Some(m) => m.clone(),
            None => {
                proof {
                    reveal_strlit("");
                }
                owned("")
            },
        }
    }
}

/// What acquiring a device gave: its file descriptor where it was acquired,
/// else the error.
pub open spec fn acquired_outcome<F>(success: bool, fd: Option<F>, error: Option<String>) -> Result<F, Option<Seq<char>>> {
    match fd {
        Some(f) => if success {
            Ok(f)
        } else {
            Err(opt_text(error))
        },
        None => Err(None),
    }
}

/// The outcome of acquiring one device: the file descriptor where the portal
/// gave one and reported success; the portal's error where it gave a file
/// descriptor but no success; an error without message where it gave no
/// file descriptor.
pub fn acquired_result<F>(success: bool, fd: Option<F>, error: Option<String>) -> (r: Result<F, UsbError>)
    ensures
        match r {
            Ok(f) => acquired_outcome(success, fd, error) == Ok::<F, Option<Seq<char>>>(f),
            Err(e) => acquired_outcome(success, fd, error) == Err::<F, Option<Seq<char>>>(opt_text(e.0)),
        },
{
    match fd {
        Some(f) => {
            if success {
                Ok(f)
            } else {
                Err(UsbError(error))
            }
        },
        None => Err(UsbError(None)),
    }
}

/// The model of the devices gathered so far: each one's ID and what
/// acquiring it gave.
pub open spec fn acquired_view<F>(v: Seq<(String, Result<F, UsbError>)>) -> Seq<(Seq<char>, Result<F, Option<Seq<char>>>)> {
    v.map_values(|p: (String, Result<F, UsbError>)| (p.0@, match p.1 {
        Ok(f) => Ok(f),
        Err(e) => Err(opt_text(e.0)),
    }))
}

/// The model of a batch the portal hands back when acquisition finishes:
/// each device's ID and what acquiring it gave.
pub open spec fn batch_view<F>(v: Seq<(String, bool, Option<F>, Option<String>)>) -> Seq<(Seq<char>, Result<F, Option<Seq<char>>>)> {
    v.map_values(|p: (String, bool, Option<F>, Option<String>)| (p.0@, acquired_outcome(p.1, p.2, p.3)))
}

/// Takes in one batch of acquired devices, each as its ID, whether it
/// succeeded, its file descriptor and its error: their outcomes are appended,
/// in order, to those gathered so far. The answer says whether another batch
/// is to be asked for: exactly when the portal has not said it finished.
pub fn gather_acquired<F>(
    devices: &mut Vec<(String, Result<F, UsbError>)>,
    batch: Vec<(String, bool, Option<F>, Option<String>)>,
    finished: bool,
) -> (more: bool)
    ensures
        acquired_view(final(devices)@) == acquired_view(old(devices)@) + batch_view(batch@),
        more == !finished,
{
    let ghost start = acquired_view(devices@);
    let ghost all = batch_view(batch@);
    let mut batch = batch;
    let mut mapped: Vec<(String, Result<F, UsbError>)> = Vec::new();
    let ghost n = batch@.len();
    while batch.len() > 0
        invariant
            batch@.len() <= n,
            all.len() == n,
            batch_view(batch@) =~= all.subrange(n - batch@.len(), n as int),
            acquired_view(mapped@) =~= all.subrange(0, n - batch@.len()),
        decreases batch@.len(),
    {
        let ghost before = batch@;
        let ghost done = mapped@;
        let item = batch.remove(0);
        assert(batch_view(batch@) =~= batch_view(before).drop_first());
        let (id, success, fd, error) = item;
        let outcome = acquired_result(success, fd, error);
        mapped.push((id, outcome));
        assert(acquired_view(mapped@) =~= acquired_view(done).push(batch_view(before)[0]));
    }
    assert(all.subrange(0, n as int) =~= all);
    let ghost gathered = mapped@;
    let ghost old_devices = devices@;
    devices.append(&mut mapped);
    assert(acquired_view(devices@) =~= acquired_view(old_devices) + acquired_view(gathered));
    !finished
}

/// A device an application asks for: its ID and whether it is to be
/// written.
#[derive(Debug)]
pub struct Device {
    id: String,
    writable: bool,
}

impl Device {
    /// The device with the given ID, to be written or not.
    pub fn new(id: String, writable: bool) -> (d: Device)
        ensures
            d.spec_id() == id@,
            d.spec_writable() == writable,
    {
        Device { id, writable }
    }

    /// The device's ID.
    pub closed spec fn spec_id(self) -> Seq<char> {
        self.id@
    }

    /// Whether the device is to be written.
    pub closed spec fn spec_writable(self) -> bool {
        self.writable
    }

    /// The device's ID.
    pub fn id(&self) -> (s: &str)
        ensures
            s@ == self.spec_id(),
    {
        self.id.as_str()
    }

    /// Whether the device is to be written.
    pub fn is_writable(&self) -> (b: bool)
        ensures
            b == self.spec_writable(),
    {
        self.writable
    }
}

/// The devices of a request to acquire them, as the portal takes them: each
/// device's ID and whether it is to be written, in order.
pub fn acquire_list(devices: &[Device]) -> (r: Vec<(String, bool)>)
    ensures
        r@.len() == devices@.len(),
        forall|i: int| 0 <= i < r@.len() ==> (#[trigger] r@[i]).0@ == devices@[i].spec_id() && r@[i].1 == devices@[i].spec_writable(),
{
    let mut r: Vec<(String, bool)> = Vec::new();
    let mut i: usize = 0;
    while i < devices.len()
        invariant
            i <= devices@.len(),
            r@.len() == i,
            forall|j: int| 0 <= j < i ==> (#[trigger] r@[j]).0@ == devices@[j].spec_id() && r@[j].1 == devices@[j].spec_writable(),
        decreases devices@.len() - i,
    {
        r.push((owned(devices[i].id()), devices[i].is_writable()));
        i = i + 1;
    }
    r
}

/// An event about a device: the action, the device's ID and the device.
#[derive(Debug)]
pub struct UsbEvent {
    action: String,
    device_id: String,
    device: UsbDevice,
}

impl UsbEvent {
    /// The event with the given action, device ID and device.
    pub fn new(action: String, device_id: String, device: UsbDevice) -> (e: UsbEvent)
        ensures
            e.spec_action() == action@,
            e.spec_device_id() == device_id@,
            e.spec_device() == device@,
    {
        UsbEvent { action, device_id, device }
    }

    /// The action.
    pub closed spec fn spec_action(self) -> Seq<char> {
        self.action@
    }

    /// The device's ID.
    pub closed spec fn spec_device_id(self) -> Seq<char> {
        self.device_id@
    }

    /// The device.
    pub closed spec fn spec_device(self) -> UsbDeviceView {
        self.device@
    }

    /// The action: `add`, `change` or `remove`.
    pub fn action(&self) -> (s: &str)
        ensures
            s@ == self.spec_action(),
    {
        self.action.as_str()
    }

    /// The device's ID.
    pub fn device_id(&self) -> (s: &str)
        ensures
            s@ == self.spec_device_id(),
    {
        self.device_id.as_str()
    }

    /// The device.
    pub fn device(&self) -> (d: &UsbDevice)
        ensures
            d@ == self.spec_device(),
    {
        &self.device
    }
}

/// Access USB devices.
///
/// Wrapper of the DBus interface `org.freedesktop.portal.Usb`.
#[derive(Debug)]
pub struct UsbProxy {
    proxy: Proxy,
}

impl View for UsbProxy {
    type V = ProxyView;

    closed spec fn view(&self) -> ProxyView {
        self.proxy@
    }
}

impl UsbProxy {
    /// The portal, which implements the given version of its interface.
    pub fn new(version: u32) -> (p: UsbProxy)
        ensures
            p@.destination == desktop_destination(),
            p@.interface == "org.freedesktop.portal.Usb"@,
            p@.path == desktop_path(),
            p@.version == version,
    {
        UsbProxy { proxy: Proxy::new_desktop("org.freedesktop.portal.Usb", version) }
    }

    /// Where the portal's calls go.
    pub fn inner(&self) -> (p: &Proxy)
        ensures
            p@ == self@,
    {
        &self.proxy
    }
}

} // verus!
