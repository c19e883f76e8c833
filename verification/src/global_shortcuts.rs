//! The global shortcuts portal: shortcuts an application asks to bind, and
//! the shortcuts the portal reports as bound.

use vstd::prelude::*;
use crate::proxy::{desktop_destination, desktop_path, Proxy, ProxyView};
use crate::text::{owned, opt_owned, opt_str};

verus! {

/// Shortcut descriptor used to bind new shortcuts.
#[derive(Debug)]
pub struct NewShortcut {
    id: String,
    description: String,
    preferred_trigger: Option<String>,
}

/// The model of a [`NewShortcut`]: its id, its description and its
/// preferred trigger.
pub struct NewShortcutView {
    pub id: Seq<char>,
    pub description: Seq<char>,
    pub preferred_trigger: Option<Seq<char>>,
}

impl View for NewShortcut {
    type V = NewShortcutView;

    closed spec fn view(&self) -> NewShortcutView {
        NewShortcutView {
            id: self.id@,
            description: self.description@,
            preferred_trigger: match self.preferred_trigger {
                Some(t) => Some(t@),
                None => None,
            },
        }
    }
}

impl NewShortcut {
    /// A new shortcut with the given id and description and no preferred
    /// trigger.
    pub fn new(id: &str, description: &str) -> (s: NewShortcut)
        ensures
            s@.id == id@,
            s@.description == description@,
            s@.preferred_trigger is None,
    {
        NewShortcut { id: owned(id), description: owned(description), preferred_trigger: None }
    }

    /// Sets the preferred shortcut trigger, defined as described by the
    /// "shortcuts" XDG specification.
    pub fn preferred_trigger(self, preferred_trigger: Option<&str>) -> (s: NewShortcut)
        ensures
            s@ == (NewShortcutView { preferred_trigger: opt_str(preferred_trigger), ..self@ }),
    {
        let mut s = self;
        s.preferred_trigger = opt_owned(preferred_trigger);
        s
    }

    /// The shortcut's id.
    pub fn id(&self) -> (s: &str)
        ensures
            s@ == self@.id,
    {
        self.id.as_str()
    }

    /// The shortcut's description.
    pub fn description(&self) -> (s: &str)
        ensures
            s@ == self@.description,
    {
        self.description.as_str()
    }

    /// The preferred trigger, if one was set.
    pub fn trigger(&self) -> (s: Option<&str>)
        ensures
            opt_str(s) == self@.preferred_trigger,
    {
        match &self.preferred_trigger {
            Some(t) => Some(t.as_str()),
            None => None,
        }
    }
}

/// Information about a bound shortcut.
#[derive(Debug)]
pub struct Shortcut {
    id: String,
    description: String,
    trigger_description: String,
}

/// The model of a [`Shortcut`].
pub struct ShortcutView {
    pub id: Seq<char>,
    pub description: Seq<char>,
    pub trigger_description: Seq<char>,
}

impl View for Shortcut {
    type V = ShortcutView;

    closed spec fn view(&self) -> ShortcutView {
        ShortcutView {
            id: self.id@,
            description: self.description@,
            trigger_description: self.trigger_description@,
        }
    }
}

impl Shortcut {
    /// A bound shortcut as the portal reports it.
    pub fn from_parts(id: String, description: String, trigger_description: String) -> (s: Shortcut)
        ensures
            s@.id == id@,
            s@.description == description@,
            s@.trigger_description == trigger_description@,
    {
        Shortcut { id, description, trigger_description }
    }

    /// Shortcut id.
    pub fn id(&self) -> (s: &str)
        ensures
            s@ == self@.id,
    {
        self.id.as_str()
    }

    /// User-readable text describing what the shortcut does.
    pub fn description(&self) -> (s: &str)
        ensures
            s@ == self@.description,
    {
        self.description.as_str()
    }

    /// User-readable text describing how to trigger the shortcut for the
    /// client to render.
    pub fn trigger_description(&self) -> (s: &str)
        ensures
            s@ == self@.trigger_description,
    {
        self.trigger_description.as_str()
    }
}

/// The models of a list of shortcuts.
pub open spec fn shortcuts_view(v: Seq<Shortcut>) -> Seq<ShortcutView> {
    v.map_values(|s: Shortcut| s@)
}

/// The response to a request to bind shortcuts.
#[derive(Debug)]
pub struct BindShortcuts {
    shortcuts: Vec<Shortcut>,
}

impl View for BindShortcuts {
    type V = Seq<ShortcutView>;

    closed spec fn view(&self) -> Seq<ShortcutView> {
        shortcuts_view(self.shortcuts@)
    }
}

impl BindShortcuts {
    /// The response holding the given shortcuts.
    pub fn new(shortcuts: Vec<Shortcut>) -> (b: BindShortcuts)
        ensures
            b@ == shortcuts_view(shortcuts@),
    {
        BindShortcuts { shortcuts }
    }

    /// A list of shortcuts.
    pub fn shortcuts(&self) -> (s: &[Shortcut])
        ensures
            shortcuts_view(s@) == self@,
    {
        self.shortcuts.as_slice()
    }
}

/// The response to a request to list the bound shortcuts.
#[derive(Debug)]
pub struct ListShortcuts {
    shortcuts: Vec<Shortcut>,
}

impl View for ListShortcuts {
    type V = Seq<ShortcutView>;

    closed spec fn view(&self) -> Seq<ShortcutView> {
        shortcuts_view(self.shortcuts@)
    }
}

impl ListShortcuts {
    /// The response holding the given shortcuts.
    pub fn new(shortcuts: Vec<Shortcut>) -> (l: ListShortcuts)
        ensures
            l@ == shortcuts_view(shortcuts@),
    {
        ListShortcuts { shortcuts }
    }

    /// A list of shortcuts.
    pub fn shortcuts(&self) -> (s: &[Shortcut])
        ensures
            shortcuts_view(s@) == self@,
    {
        self.shortcuts.as_slice()
    }
}

/// Register global shortcuts.
///
/// Wrapper of the DBus interface `org.freedesktop.portal.GlobalShortcuts`.
#[derive(Debug)]
pub struct GlobalShortcuts {
    proxy: Proxy,
}

impl View for GlobalShortcuts {
    type V = ProxyView;

    closed spec fn view(&self) -> ProxyView {
        self.proxy@
    }
}

impl GlobalShortcuts {
    /// The portal, which implements the given version of its interface.
    pub fn new(version: u32) -> (p: GlobalShortcuts)
        ensures
            p@.destination == desktop_destination(),
            p@.interface == "org.freedesktop.portal.GlobalShortcuts"@,
            p@.path == desktop_path(),
            p@.version == version,
    {
        GlobalShortcuts { proxy: Proxy::new_desktop("org.freedesktop.portal.GlobalShortcuts", version) }
    }

    /// Where the portal's calls go.
    pub fn inner(&self) -> (p: &Proxy)
        ensures
            p@ == self@,
    {
        &self.proxy
    }
}

} // verus!
