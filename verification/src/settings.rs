//! The settings portal: settings as the portal reports them, and the
//! system's preferred color scheme.

use vstd::prelude::*;
use crate::proxy::{desktop_destination, desktop_path, Proxy, ProxyView};
use crate::text::str_equals;
use zbus::zvariant::OwnedValue;

verus! {

/// The system's preferred color scheme.
#[derive(Debug, Clone, Copy, PartialEq, Eq, Structural)]
pub enum ColorScheme {
    /// No preference.
    NoPreference,
    /// Prefers dark appearance.
    PreferDark,
    /// Prefers light appearance.
    PreferLight,
}

/// The color scheme that the number of the setting stands for.
pub open spec fn color_scheme_of(n: u32) -> ColorScheme {
    if n == 1 {
        ColorScheme::PreferDark
    } else if n == 2 {
        ColorScheme::PreferLight
    } else {
        ColorScheme::NoPreference
    }
}

/// The setting's number `1` stands for a dark scheme, `2` for a light one,
/// and every other number for no preference.
pub proof fn lemma_color_scheme_numbers(n: u32)
    ensures
        (color_scheme_of(n) is PreferDark) == (n == 1),
        (color_scheme_of(n) is PreferLight) == (n == 2),
        (color_scheme_of(n) is NoPreference) == (n != 1 && n != 2),
{
}

impl ColorScheme {
    /// The color scheme that the number of the setting stands for: `1` for
    /// dark, `2` for light and any other for no preference.
    pub fn from_code(n: u32) -> (c: ColorScheme)
        ensures
            c == color_scheme_of(n),
    {
        if n == 1 {
            ColorScheme::PreferDark
        } else if n == 2 {
            ColorScheme::PreferLight
        } else {
            ColorScheme::NoPreference
        }
    }
}

/// The namespace of the appearance settings.
pub open spec fn appearance_namespace() -> Seq<char> {
    "org.freedesktop.appearance"@
}

/// The key of the color scheme setting.
pub open spec fn color_scheme_key() -> Seq<char> {
    "color-scheme"@
}

/// A setting: its namespace, its key and its value.
#[derive(Debug)]
pub struct Setting {
    namespace: String,
    key: String,
    value: OwnedValue,
}

impl Setting {
    /// The setting as the portal reports it.
    pub fn new(namespace: String, key: String, value: OwnedValue) -> (s: Setting)
        ensures
            s.spec_namespace() == namespace@,
            s.spec_key() == key@,
            s.spec_value() == value,
    {
        Setting { namespace, key, value }
    }

    /// The setting's namespace.
    pub closed spec fn spec_namespace(self) -> Seq<char> {
        self.namespace@
    }

    /// The setting's key.
    pub closed spec fn spec_key(self) -> Seq<char> {
        self.key@
    }

    /// The setting namespace.
    pub fn namespace(&self) -> (s: &str)
        ensures
            s@ == self.spec_namespace(),
    {
        self.namespace.as_str()
    }

    /// The setting key.
    pub fn key(&self) -> (s: &str)
        ensures
            s@ == self.spec_key(),
    {
        self.key.as_str()
    }

    /// The setting's value.
    pub closed spec fn spec_value(self) -> OwnedValue {
        self.value
    }

    /// The setting value.
    pub fn value(&self) -> (v: &OwnedValue)
        ensures
            *v == self.spec_value(),
    {
        &self.value
    }

    /// Whether the setting is the given key of the given namespace.
    pub fn is(&self, namespace: &str, key: &str) -> (b: bool)
        ensures
            b == (self.spec_namespace() == namespace@ && self.spec_key() == key@),
    {
        str_equals(self.namespace.as_str(), namespace) && str_equals(self.key.as_str(), key)
    }

    /// Whether the setting is the system's color scheme.
    pub fn is_color_scheme(&self) -> (b: bool)
        ensures
            b == (self.spec_namespace() == appearance_namespace() && self.spec_key() == color_scheme_key()),
    {
        self.is("org.freedesktop.appearance", "color-scheme")
    }
}

/// Read the user's settings.
///
/// Wrapper of the DBus interface `org.freedesktop.portal.Settings`.
#[derive(Debug)]
pub struct Settings {
    proxy: Proxy,
}

impl View for Settings {
    type V = ProxyView;

    closed spec fn view(&self) -> ProxyView {
        self.proxy@
    }
}

impl Settings {
    /// The portal, which implements the given version of its interface.
    pub fn new(version: u32) -> (p: Settings)
        ensures
            p@.destination == desktop_destination(),
            p@.interface == "org.freedesktop.portal.Settings"@,
            p@.path == desktop_path(),
            p@.version == version,
    {
        Settings { proxy: Proxy::new_desktop("org.freedesktop.portal.Settings", version) }
    }

    /// Where the portal's calls go.
    pub fn inner(&self) -> (p: &Proxy)
        ensures
            p@ == self@,
    {
        &self.proxy
    }
}

impl Settings {
    /// The namespace and key under which the color scheme is read.
    pub fn color_scheme_setting() -> (r: (&'static str, &'static str))
        ensures
            r.0@ == appearance_namespace(),
            r.1@ == color_scheme_key(),
    {
        ("org.freedesktop.appearance", "color-scheme")
    }
}

} // verus!
