//! The dynamic launcher portal: launcher and icon types, the options of an
//! install, and the rule that only image bytes are accepted as icons.

use vstd::prelude::*;
use crate::error::AshpdError;
use crate::handle_token::{is_fresh_token, HandleToken};
use crate::icon::{Icon, IconPayload, icon_tag, icon_payload_matches};
use crate::proxy::{desktop_destination, desktop_path, Proxy, ProxyView};
use crate::text::{opt_owned, opt_str, opt_text};

verus! {

/// The type of the launcher.
#[derive(Debug, Clone, Copy, PartialEq, Eq, Structural)]
pub enum LauncherType {
    /// A launcher that represents an application.
    Application,
    /// A launcher that represents a web application.
    WebApplication,
}

/// The bit that stands for a [`LauncherType`].
pub open spec fn launcher_type_bit(x: LauncherType) -> u32 {
    match x {
        LauncherType::Application => 1,
        LauncherType::WebApplication => 2,
    }
}

/// What `launcher_type_bit` gives, value by value, each different from the others:
/// Application is 1; WebApplication is 2.
pub proof fn lemma_launcher_type_bit_values(x: LauncherType)
    ensures
        (launcher_type_bit(x) == 1) == (x is Application),
        (launcher_type_bit(x) == 2) == (x is WebApplication),
{
}

impl LauncherType {
    /// The bit that stands for the value.
    pub fn bits(self) -> (b: u32)
        ensures
            b == launcher_type_bit(self),
    {
        match self {
            LauncherType::Application => 1,
            LauncherType::WebApplication => 2,
        }
    }

    /// The value that a single bit stands for.
    pub fn from_bit(bit: u32) -> (x: Option<LauncherType>)
        ensures
            match x {
                Some(v) => launcher_type_bit(v) == bit,
                None => bit != 1 && bit != 2,
            },
    {
        if bit == 1 {
            Some(LauncherType::Application)
        } else if bit == 2 {
            Some(LauncherType::WebApplication)
        } else {
            None
        }
    }

    /// The bits of all values.
    pub fn all_bits() -> (b: u32)
        ensures
            b == 3,
    {
        3
    }
}

impl LauncherType {
    /// The default launcher type: an application.
    pub fn default() -> (t: LauncherType)
        ensures
            t == LauncherType::Application,
    {
        LauncherType::Application
    }
}

/// The icon format.
#[derive(Debug, Clone, Copy, PartialEq, Eq, Structural)]
pub enum IconType {
    /// PNG.
    Png,
    /// JPEG.
    Jpeg,
    /// SVG.
    Svg,
}

/// The name of an icon format on the bus.
pub open spec fn icon_type_wire(t: IconType) -> Seq<char> {
    match t {
        IconType::Png => "png"@,
        IconType::Jpeg => "jpeg"@,
        IconType::Svg => "svg"@,
    }
}

/// What `icon_type_wire` gives, value by value, each different from the others:
/// Png is "png"; Jpeg is "jpeg"; Svg is "svg".
pub proof fn lemma_icon_type_wire_values(x: IconType)
    ensures
        (icon_type_wire(x) == "png"@) == (x is Png),
        (icon_type_wire(x) == "jpeg"@) == (x is Jpeg),
        (icon_type_wire(x) == "svg"@) == (x is Svg),
{
    reveal_strlit("jpeg");
    reveal_strlit("png");
    reveal_strlit("svg");
    assert("jpeg"@.len() != "png"@.len());
    assert("jpeg"@.len() != "svg"@.len());
    assert("png"@[0] != "svg"@[0]);
}

impl IconType {
    /// The name of the format on the bus.
    pub fn wire_name(&self) -> (s: &'static str)
        ensures
            s@ == icon_type_wire(*self),
    {
        match self {
            IconType::Png => "png",
            IconType::Jpeg => "jpeg",
            IconType::Svg => "svg",
        }
    }
}

/// Wrong type of [`Icon`] was used.
#[derive(Debug)]
pub struct UnexpectedIconError;

impl UnexpectedIconError {
    /// The message of the error.
    pub fn to_string(&self) -> (s: &'static str)
        ensures
            s@ == "Unexpected icon type. Only Icon::Bytes is supported"@,
    {
        "Unexpected icon type. Only Icon::Bytes is supported"
    }

    /// The error of the library that this error stands for.
    pub fn into_error(self) -> (e: AshpdError)
        ensures
            e == AshpdError::UnexpectedIcon,
    {
        AshpdError::UnexpectedIcon
    }
}

/// The tagged form of an icon that a launcher is installed with; an error
/// for any icon but image bytes, which is the only kind accepted.
pub fn launcher_icon_value(icon: &Icon) -> (r: Result<(String, IconPayload), AshpdError>)
    ensures
        match r {
            Ok(v) => *icon is Bytes && v.0@ == icon_tag(*icon) && icon_payload_matches(*icon, v.1),
            Err(e) => !(*icon is Bytes) && e == AshpdError::UnexpectedIcon,
        },
{
    if !icon.is_bytes() {
        return Err(UnexpectedIconError.into_error());
    }
    Ok(icon.as_value())
}

/// Options to pass to a request to prepare an install.
#[derive(Debug)]
pub struct PrepareInstallOptions {
    handle_token: HandleToken,
    modal: Option<bool>,
    launcher_type: LauncherType,
    target: Option<String>,
    editable_name: Option<bool>,
    editable_icon: Option<bool>,
}

/// The model of a [`PrepareInstallOptions`].
pub struct PrepareInstallOptionsView {
    pub token: Seq<char>,
    pub modal: Option<bool>,
    pub launcher_type: LauncherType,
    pub target: Option<Seq<char>>,
    pub editable_name: Option<bool>,
    pub editable_icon: Option<bool>,
}

impl View for PrepareInstallOptions {
    type V = PrepareInstallOptionsView;

    closed spec fn view(&self) -> PrepareInstallOptionsView {
        PrepareInstallOptionsView {
            token: self.handle_token@,
            modal: self.modal,
            launcher_type: self.launcher_type,
            target: opt_text(self.target),
            editable_name: self.editable_name,
            editable_icon: self.editable_icon,
        }
    }
}

impl PrepareInstallOptions {
    /// Options with a fresh handle token, the application launcher type and
    /// nothing else set.
    pub fn default() -> (o: PrepareInstallOptions)
        ensures
            is_fresh_token(o@.token),
            o@.modal is None,
            o@.launcher_type == LauncherType::Application,
            o@.target is None,
            o@.editable_name is None,
            o@.editable_icon is None,
    {
        PrepareInstallOptions {
            handle_token: HandleToken::default(),
            modal: None,
            launcher_type: LauncherType::default(),
            target: None,
            editable_name: None,
            editable_icon: None,
        }
    }

    /// The handle token of the request.
    pub fn handle_token(&self) -> (t: &HandleToken)
        ensures
            t@ == self@.token,
    {
        &self.handle_token
    }

    /// Sets whether the dialog should be a modal.
    pub fn modal(self, modal: Option<bool>) -> (o: PrepareInstallOptions)
        ensures
            o@ == (PrepareInstallOptionsView { modal: modal, ..self@ }),
    {
        let mut o = self;
        o.modal = modal;
        o
    }

    /// Sets the launcher type.
    pub fn launcher_type(self, launcher_type: LauncherType) -> (o: PrepareInstallOptions)
        ensures
            o@ == (PrepareInstallOptionsView { launcher_type: launcher_type, ..self@ }),
    {
        let mut o = self;
        o.launcher_type = launcher_type;
        o
    }

    /// The URL for a web application launcher; not needed otherwise.
    pub fn target(self, target: Option<&str>) -> (o: PrepareInstallOptions)
        ensures
            o@ == (PrepareInstallOptionsView { target: opt_str(target), ..self@ }),
    {
        let mut o = self;
        o.target = opt_owned(target);
        o
    }

    /// Sets whether the name should be editable.
    pub fn editable_name(self, editable_name: Option<bool>) -> (o: PrepareInstallOptions)
        ensures
            o@ == (PrepareInstallOptionsView { editable_name: editable_name, ..self@ }),
    {
        let mut o = self;
        o.editable_name = editable_name;
        o
    }

    /// Sets whether the icon should be editable.
    pub fn editable_icon(self, editable_icon: Option<bool>) -> (o: PrepareInstallOptions)
        ensures
            o@ == (PrepareInstallOptionsView { editable_icon: editable_icon, ..self@ }),
    {
        let mut o = self;
        o.editable_icon = editable_icon;
        o
    }
}

/// Install launchers like web applications.
///
/// Wrapper of the DBus interface `org.freedesktop.portal.DynamicLauncher`.
#[derive(Debug)]
pub struct DynamicLauncherProxy {
    proxy: Proxy,
}

impl View for DynamicLauncherProxy {
    type V = ProxyView;

    closed spec fn view(&self) -> ProxyView {
        self.proxy@
    }
}

impl DynamicLauncherProxy {
    /// The portal, which implements the given version of its interface.
    pub fn new(version: u32) -> (p: DynamicLauncherProxy)
        ensures
            p@.destination == desktop_destination(),
            p@.interface == "org.freedesktop.portal.DynamicLauncher"@,
            p@.path == desktop_path(),
            p@.version == version,
    {
        DynamicLauncherProxy { proxy: Proxy::new_desktop("org.freedesktop.portal.DynamicLauncher", version) }
    }

    /// Where the portal's calls go.
    pub fn inner(&self) -> (p: &Proxy)
        ensures
            p@ == self@,
    {
        &self.proxy
    }
}

} // verus!
