//! Notifications: their priority, their buttons and the notifications
//! themselves.

use vstd::prelude::*;
use crate::error::AshpdError;
use crate::text::str_equals;
use crate::icon::Icon;
use crate::proxy::{desktop_destination, desktop_path, Proxy, ProxyView};
use crate::text::{owned, opt_text};
use zbus::zvariant::OwnedValue;

verus! {

/// The notification priority.
#[derive(Debug, Clone, Copy, PartialEq, Eq, Structural)]
pub enum Priority {
    /// Low.
    Low,
    /// Normal.
    Normal,
    /// High.
    High,
    /// Urgent.
    Urgent,
}

/// The name under which a [`Priority`] is shown.
pub open spec fn priority_text(x: Priority) -> Seq<char> {
    match x {
        Priority::Low => "Low"@,
        Priority::Normal => "Normal"@,
        Priority::High => "High"@,
        Priority::Urgent => "Urgent"@,
    }
}

/// What `priority_text` gives, value by value, each different from the others:
/// Low is "Low"; Normal is "Normal"; High is "High"; Urgent is "Urgent".
pub proof fn lemma_priority_text_values(x: Priority)
    ensures
        (priority_text(x) == "Low"@) == (x is Low),
        (priority_text(x) == "Normal"@) == (x is Normal),
        (priority_text(x) == "High"@) == (x is High),
        (priority_text(x) == "Urgent"@) == (x is Urgent),
{
    reveal_strlit("High");
    reveal_strlit("Low");
    reveal_strlit("Normal");
    reveal_strlit("Urgent");
    assert("High"@.len() != "Low"@.len());
    assert("High"@.len() != "Normal"@.len());
    assert("High"@.len() != "Urgent"@.len());
    assert("Low"@.len() != "Normal"@.len());
    assert("Low"@.len() != "Urgent"@.len());
    assert("Normal"@[0] != "Urgent"@[0]);
}

/// The name of a [`Priority`] on the bus.
pub open spec fn priority_wire(x: Priority) -> Seq<char> {
    match x {
        Priority::Low => "low"@,
        Priority::Normal => "normal"@,
        Priority::High => "high"@,
        Priority::Urgent => "urgent"@,
    }
}

/// What `priority_wire` gives, value by value, each different from the others:
/// Low is "low"; Normal is "normal"; High is "high"; Urgent is "urgent".
pub proof fn lemma_priority_wire_values(x: Priority)
    ensures
        (priority_wire(x) == "low"@) == (x is Low),
        (priority_wire(x) == "normal"@) == (x is Normal),
        (priority_wire(x) == "high"@) == (x is High),
        (priority_wire(x) == "urgent"@) == (x is Urgent),
{
    reveal_strlit("high");
    reveal_strlit("low");
    reveal_strlit("normal");
    reveal_strlit("urgent");
    assert("high"@.len() != "low"@.len());
    assert("high"@.len() != "normal"@.len());
    assert("high"@.len() != "urgent"@.len());
    assert("low"@.len() != "normal"@.len());
    assert("low"@.len() != "urgent"@.len());
    assert("normal"@[0] != "urgent"@[0]);
}

/// The [`Priority`] that a text names, if any.
pub open spec fn parse_priority(s: Seq<char>) -> Option<Priority> {
    if s == "Low"@ || s == "low"@ {
        Some(Priority::Low)
    } else if s == "Normal"@ || s == "normal"@ {
        Some(Priority::Normal)
    } else if s == "High"@ || s == "high"@ {
        Some(Priority::High)
    } else if s == "Urgent"@ || s == "urgent"@ {
        Some(Priority::Urgent)
    } else {
        None
    }
}

/// A text names a `Priority` exactly where it is that value's shown name or its
/// name on the bus; no other text names one.
pub proof fn lemma_parse_priority_names(s: Seq<char>, x: Priority)
    ensures
        (parse_priority(s) == Some(x)) == (s == priority_text(x) || s == priority_wire(x)),
{
    reveal_strlit("Low");
    reveal_strlit("low");
    reveal_strlit("Normal");
    reveal_strlit("normal");
    reveal_strlit("High");
    reveal_strlit("high");
    reveal_strlit("Urgent");
    reveal_strlit("urgent");
    assert("Low"@[0] != "low"@[0]);
    assert("Low"@.len() != "Normal"@.len());
    assert("Low"@.len() != "normal"@.len());
    assert("Low"@.len() != "High"@.len());
    assert("Low"@.len() != "high"@.len());
    assert("Low"@.len() != "Urgent"@.len());
    assert("Low"@.len() != "urgent"@.len());
    assert("low"@.len() != "Normal"@.len());
    assert("low"@.len() != "normal"@.len());
    assert("low"@.len() != "High"@.len());
    assert("low"@.len() != "high"@.len());
    assert("low"@.len() != "Urgent"@.len());
    assert("low"@.len() != "urgent"@.len());
    assert("Normal"@[0] != "normal"@[0]);
    assert("Normal"@.len() != "High"@.len());
    assert("Normal"@.len() != "high"@.len());
    assert("Normal"@[0] != "Urgent"@[0]);
    assert("Normal"@[0] != "urgent"@[0]);
    assert("normal"@.len() != "High"@.len());
    assert("normal"@.len() != "high"@.len());
    assert("normal"@[0] != "Urgent"@[0]);
    assert("normal"@[0] != "urgent"@[0]);
    assert("High"@[0] != "high"@[0]);
    assert("High"@.len() != "Urgent"@.len());
    assert("High"@.len() != "urgent"@.len());
    assert("high"@.len() != "Urgent"@.len());
    assert("high"@.len() != "urgent"@.len());
    assert("Urgent"@[0] != "urgent"@[0]);
}

/// The message of the error that an unknown [`Priority`] name gives.
pub open spec fn priority_parse_message() -> Seq<char> {
    "Failed to parse priority, invalid value"@
}

impl Priority {
    /// The name under which the value is shown.
    pub fn as_str(&self) -> (s: &'static str)
        ensures
            s@ == priority_text(*self),
    {
        match self {
            Priority::Low => "Low",
            Priority::Normal => "Normal",
            Priority::High => "High",
            Priority::Urgent => "Urgent",
        }
    }

    /// The name of the value on the bus.
    pub fn wire_name(&self) -> (s: &'static str)
        ensures
            s@ == priority_wire(*self),
    {
        match self {
            Priority::Low => "low",
            Priority::Normal => "normal",
            Priority::High => "high",
            Priority::Urgent => "urgent",
        }
    }

    /// The value that a text names; a parse error for any other text.
    pub fn from_str(s: &str) -> (r: Result<Priority, AshpdError>)
        ensures
            match r {
                Ok(x) => parse_priority(s@) == Some(x),
                Err(e) => parse_priority(s@) is None && (e matches AshpdError::ParseError(m) && m@
                    == priority_parse_message()),
            },
    {
        if str_equals(s, "Low") || str_equals(s, "low") {
            Ok(Priority::Low)
        } else if str_equals(s, "Normal") || str_equals(s, "normal") {
            Ok(Priority::Normal)
        } else if str_equals(s, "High") || str_equals(s, "high") {
            Ok(Priority::High)
        } else if str_equals(s, "Urgent") || str_equals(s, "urgent") {
            Ok(Priority::Urgent)
        } else {
            Err(AshpdError::ParseError("Failed to parse priority, invalid value"))
        }
    }
}

/// Parsing the name of a value on the bus gives the value back.
pub proof fn lemma_priority_wire_round_trip(x: Priority)
    ensures
        parse_priority(priority_wire(x)) == Some(x),
{
    reveal_strlit("Low");
    reveal_strlit("low");
    reveal_strlit("Normal");
    reveal_strlit("normal");
    reveal_strlit("High");
    reveal_strlit("high");
    reveal_strlit("Urgent");
    reveal_strlit("urgent");
    assert("normal"@.len() == 6 && "Low"@.len() == 3);
    assert("normal"@ != "Low"@);
    assert("normal"@.len() == 6 && "low"@.len() == 3);
    assert("normal"@ != "low"@);
    assert("high"@.len() == 4 && "Low"@.len() == 3);
    assert("high"@ != "Low"@);
    assert("high"@.len() == 4 && "low"@.len() == 3);
    assert("high"@ != "low"@);
    assert("high"@.len() == 4 && "Normal"@.len() == 6);
    assert("high"@ != "Normal"@);
    assert("high"@.len() == 4 && "normal"@.len() == 6);
    assert("high"@ != "normal"@);
    assert("urgent"@.len() == 6 && "Low"@.len() == 3);
    assert("urgent"@ != "Low"@);
    assert("urgent"@.len() == 6 && "low"@.len() == 3);
    assert("urgent"@ != "low"@);
    assert("urgent"@[0] != "Normal"@[0]);
    assert("urgent"@ != "Normal"@);
    assert("urgent"@[0] != "normal"@[0]);
    assert("urgent"@ != "normal"@);
    assert("urgent"@.len() == 6 && "High"@.len() == 4);
    assert("urgent"@ != "High"@);
    assert("urgent"@.len() == 6 && "high"@.len() == 4);
    assert("urgent"@ != "high"@);
}

/// Parsing the name under which a value is shown gives the value back.
pub proof fn lemma_priority_text_round_trip(x: Priority)
    ensures
        parse_priority(priority_text(x)) == Some(x),
{
    reveal_strlit("Low");
    reveal_strlit("low");
    reveal_strlit("Normal");
    reveal_strlit("normal");
    reveal_strlit("High");
    reveal_strlit("high");
    reveal_strlit("Urgent");
    reveal_strlit("urgent");
    assert("Normal"@.len() == 6 && "Low"@.len() == 3);
    assert("Normal"@ != "Low"@);
    assert("Normal"@.len() == 6 && "low"@.len() == 3);
    assert("Normal"@ != "low"@);
    assert("High"@.len() == 4 && "Low"@.len() == 3);
    assert("High"@ != "Low"@);
    assert("High"@.len() == 4 && "low"@.len() == 3);
    assert("High"@ != "low"@);
    assert("High"@.len() == 4 && "Normal"@.len() == 6);
    assert("High"@ != "Normal"@);
    assert("High"@.len() == 4 && "normal"@.len() == 6);
    assert("High"@ != "normal"@);
    assert("Urgent"@.len() == 6 && "Low"@.len() == 3);
    assert("Urgent"@ != "Low"@);
    assert("Urgent"@.len() == 6 && "low"@.len() == 3);
    assert("Urgent"@ != "low"@);
    assert("Urgent"@[0] != "Normal"@[0]);
    assert("Urgent"@ != "Normal"@);
    assert("Urgent"@[0] != "normal"@[0]);
    assert("Urgent"@ != "normal"@);
    assert("Urgent"@.len() == 6 && "High"@.len() == 4);
    assert("Urgent"@ != "High"@);
    assert("Urgent"@.len() == 6 && "high"@.len() == 4);
    assert("Urgent"@ != "high"@);
}

/// A button of a notification: its label, the action it runs and the
/// action's target.
#[derive(Debug)]
pub struct Button {
    label: String,
    action: String,
    target: Option<OwnedValue>,
}

impl Button {
    /// A button with the given label and action, and no target.
    pub fn new(label: &str, action: &str) -> (b: Button)
        ensures
            b.spec_label() == label@,
            b.spec_action() == action@,
            b.spec_target() is None,
    {
        Button { label: owned(label), action: owned(action), target: None }
    }

    /// Sets the target of the action.
    pub fn target(self, target: OwnedValue) -> (b: Button)
        ensures
            b.spec_label() == self.spec_label(),
            b.spec_action() == self.spec_action(),
            b.spec_target() == Some(target),
    {
        let mut b = self;
        b.target = Some(target);
        b
    }

    /// The button's label.
    pub closed spec fn spec_label(self) -> Seq<char> {
        self.label@
    }

    /// The button's action.
    pub closed spec fn spec_action(self) -> Seq<char> {
        self.action@
    }

    /// The target of the action.
    pub closed spec fn spec_target(self) -> Option<OwnedValue> {
        self.target
    }

    /// The button's label.
    pub fn label(&self) -> (s: &str)
        ensures
            s@ == self.spec_label(),
    {
        self.label.as_str()
    }

    /// The button's action.
    pub fn action(&self) -> (s: &str)
        ensures
            s@ == self.spec_action(),
    {
        self.action.as_str()
    }
}

/// A notification.
#[derive(Debug)]
pub struct Notification {
    title: String,
    body: Option<String>,
    priority: Option<Priority>,
    icon: Option<Icon>,
    default_action: Option<String>,
    default_action_target: Option<OwnedValue>,
    buttons: Option<Vec<Button>>,
}

/// The model of a [`Notification`]: its texts, priority, icon and default
/// action target, and its buttons' labels, actions and targets.
pub struct NotificationView {
    pub title: Seq<char>,
    pub body: Option<Seq<char>>,
    pub priority: Option<Priority>,
    pub icon: Option<Icon>,
    pub default_action: Option<Seq<char>>,
    pub default_action_target: Option<OwnedValue>,
    pub buttons: Option<Seq<(Seq<char>, Seq<char>, Option<OwnedValue>)>>,
}

/// The label, action and target of a button.
pub open spec fn button_view(b: Button) -> (Seq<char>, Seq<char>, Option<OwnedValue>) {
    (b.spec_label(), b.spec_action(), b.spec_target())
}

/// The labels, actions and targets of a list of buttons.
pub open spec fn buttons_view(v: Seq<Button>) -> Seq<(Seq<char>, Seq<char>, Option<OwnedValue>)> {
    v.map_values(|b: Button| button_view(b))
}

impl View for Notification {
    type V = NotificationView;

    closed spec fn view(&self) -> NotificationView {
        NotificationView {
            title: self.title@,
            body: opt_text(self.body),
            priority: self.priority,
            icon: self.icon,
            default_action: opt_text(self.default_action),
            default_action_target: self.default_action_target,
            buttons: match self.buttons {
                Some(b) => Some(buttons_view(b@)),
                None => None,
            },
        }
    }
}

impl Notification {
    /// A notification with the given title and nothing else.
    pub fn new(title: &str) -> (n: Notification)
        ensures
            n@.title == title@,
            n@.body is None,
            n@.priority is None,
            n@.icon is None,
            n@.default_action is None,
            n@.default_action_target is None,
            n@.buttons is None,
    {
        Notification {
            title: owned(title),
            body: None,
            priority: None,
            icon: None,
            default_action: None,
            default_action_target: None,
            buttons: None,
        }
    }

    /// Sets the notification body.
    pub fn body(self, body: &str) -> (n: Notification)
        ensures
            n@ == (NotificationView { body: Some(body@), ..self@ }),
    {
        let mut n = self;
        n.body = Some(owned(body));
        n
    }

    /// Sets an icon to the notification.
    pub fn icon(self, icon: Icon) -> (n: Notification)
        ensures
            n@ == (NotificationView { icon: Some(icon), ..self@ }),
    {
        let mut n = self;
        n.icon = Some(icon);
        n
    }

    /// Sets the priority of the notification.
    pub fn priority(self, priority: Priority) -> (n: Notification)
        ensures
            n@ == (NotificationView { priority: Some(priority), ..self@ }),
    {
        let mut n = self;
        n.priority = Some(priority);
        n
    }

    /// Sets the default action when the user clicks on the notification.
    pub fn default_action(self, default_action: &str) -> (n: Notification)
        ensures
            n@ == (NotificationView { default_action: Some(default_action@), ..self@ }),
    {
        let mut n = self;
        n.default_action = Some(owned(default_action));
        n
    }

    /// Sets a value to be sent in the action-invoked signal.
    pub fn default_action_target(self, target: OwnedValue) -> (n: Notification)
        ensures
            n@ == (NotificationView { default_action_target: Some(target), ..self@ }),
    {
        let mut n = self;
        n.default_action_target = Some(target);
        n
    }

    /// Adds a new button to the notification, after those it has.
    pub fn button(self, button: Button) -> (n: Notification)
        ensures
            n@ == (NotificationView {
                buttons: Some(
                    match self@.buttons {
                        Some(b) => b,
                        None => Seq::<(Seq<char>, Seq<char>, Option<OwnedValue>)>::empty(),
                    }.push(button_view(button)),
                ),
                ..self@
            }),
    {
        let mut n = self;
        let mut buttons = match n.buttons.take() {
            Some(b) => b,
            None => Vec::new(),
        };
        let ghost before = buttons@;
        let ghost entry = button_view(button);
        buttons.push(button);
        assert(buttons_view(buttons@) =~= buttons_view(before).push(entry));
        proof {
            if self@.buttons is None {
                assert(buttons_view(before) =~= Seq::<(Seq<char>, Seq<char>, Option<OwnedValue>)>::empty());
            }
        }
        n.buttons = Some(buttons);
        n
    }

    /// The notification's title.
    pub fn title(&self) -> (s: &str)
        ensures
            s@ == self@.title,
    {
        self.title.as_str()
    }
}

/// An action that was invoked: the notification's id, the action's name
/// and its parameters.
#[derive(Debug)]
pub struct Action {
    id: String,
    name: String,
    parameter: Vec<OwnedValue>,
}

impl Action {
    /// The action as the portal reports it.
    pub fn new(id: String, name: String, parameter: Vec<OwnedValue>) -> (a: Action)
        ensures
            a.spec_id() == id@,
            a.spec_name() == name@,
            a.spec_parameter() == parameter@,
    {
        Action { id, name, parameter }
    }

    /// The notification's id.
    pub closed spec fn spec_id(self) -> Seq<char> {
        self.id@
    }

    /// The action's name.
    pub closed spec fn spec_name(self) -> Seq<char> {
        self.name@
    }

    /// The parameters.
    pub closed spec fn spec_parameter(self) -> Seq<OwnedValue> {
        self.parameter@
    }

    /// The id of the notification the action was invoked on.
    pub fn id(&self) -> (s: &str)
        ensures
            s@ == self.spec_id(),
    {
        self.id.as_str()
    }

    /// The name of the invoked action.
    pub fn name(&self) -> (s: &str)
        ensures
            s@ == self.spec_name(),
    {
        self.name.as_str()
    }

    /// The parameters of the action.
    pub fn parameter(&self) -> (p: &[OwnedValue])
        ensures
            p@ == self.spec_parameter(),
    {
        self.parameter.as_slice()
    }
}

/// Send and withdraw notifications.
///
/// Wrapper of the DBus interface `org.freedesktop.portal.Notification`.
#[derive(Debug)]
pub struct NotificationProxy {
    proxy: Proxy,
}

impl View for NotificationProxy {
    type V = ProxyView;

    closed spec fn view(&self) -> ProxyView {
        self.proxy@
    }
}

impl NotificationProxy {
    /// The portal, which implements the given version of its interface.
    pub fn new(version: u32) -> (p: NotificationProxy)
        ensures
            p@.destination == desktop_destination(),
            p@.interface == "org.freedesktop.portal.Notification"@,
            p@.path == desktop_path(),
            p@.version == version,
    {
        NotificationProxy { proxy: Proxy::new_desktop("org.freedesktop.portal.Notification", version) }
    }

    /// Where the portal's calls go.
    pub fn inner(&self) -> (p: &Proxy)
        ensures
            p@ == self@,
    {
        &self.proxy
    }
}

} // verus!
