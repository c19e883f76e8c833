//! The errors of the library: those a portal reports, and those met on the
//! way to it.

use vstd::prelude::*;
use crate::dbus_names::{interface_name_is_valid, is_interface_name, is_name_char};
use crate::request::{response_error_name, ResponseError};
use crate::text::{decimal_text, opt_text, push_decimal, chars_of, skip_end, skip_prefixes, skip_start, skip_suffixes, str_equals, string_of, strip_prefixes, strip_suffixes, trim_char, trim_whitespace, trim_start_where, trim_end_where, ws_pred, char_pred};

verus! {

/// An error that a portal replies with.
#[derive(Debug)]
pub enum PortalError {
    /// An error of the bus library.
    ZBus(zbus::Error),
    /// The request failed.
    Failed(String),
    /// An argument was not valid.
    InvalidArgument(String),
    /// Something was not found.
    NotFound(String),
    /// Something already exists.
    Exist(String),
    /// The request is not allowed.
    NotAllowed(String),
    /// The request was cancelled.
    Cancelled(String),
    /// The window was destroyed.
    WindowDestroyed(String),
}

/// The name under which the portal errors travel, before the variant.
pub open spec fn portal_error_prefix() -> Seq<char> {
    "org.freedesktop.portal.Error."@
}

/// The bus name of a portal error of each variant other than the bus
/// library's own.
pub open spec fn portal_error_name_of(p: PortalError) -> Seq<char> {
    match p {
        PortalError::ZBus(_) => "org.freedesktop.zbus.Error"@,
        PortalError::Failed(_) => portal_error_prefix() + "Failed"@,
        PortalError::InvalidArgument(_) => portal_error_prefix() + "InvalidArgument"@,
        PortalError::NotFound(_) => portal_error_prefix() + "NotFound"@,
        PortalError::Exist(_) => portal_error_prefix() + "Exist"@,
        PortalError::NotAllowed(_) => portal_error_prefix() + "NotAllowed"@,
        PortalError::Cancelled(_) => portal_error_prefix() + "Cancelled"@,
        PortalError::WindowDestroyed(_) => portal_error_prefix() + "WindowDestroyed"@,
    }
}

/// The description a portal error carries, for the variants that carry one
/// themselves.
pub open spec fn portal_error_description(p: PortalError) -> Option<Seq<char>> {
    match p {
        PortalError::ZBus(_) => None,
        PortalError::Failed(d) => Some(d@),
        PortalError::InvalidArgument(d) => Some(d@),
        PortalError::NotFound(d) => Some(d@),
        PortalError::Exist(d) => Some(d@),
        PortalError::NotAllowed(d) => Some(d@),
        PortalError::Cancelled(d) => Some(d@),
        PortalError::WindowDestroyed(d) => Some(d@),
    }
}

/// The portal error that a reply with the error `name` and the description
/// `desc` stands for, when `name` is one of the portal's own.
pub open spec fn portal_error_kind(name: Seq<char>) -> Option<int> {
    if name == portal_error_prefix() + "Failed"@ {
        Some(0)
    } else if name == portal_error_prefix() + "InvalidArgument"@ {
        Some(1)
    } else if name == portal_error_prefix() + "NotFound"@ {
        Some(2)
    } else if name == portal_error_prefix() + "Exist"@ {
        Some(3)
    } else if name == portal_error_prefix() + "NotAllowed"@ {
        Some(4)
    } else if name == portal_error_prefix() + "Cancelled"@ {
        Some(5)
    } else if name == portal_error_prefix() + "WindowDestroyed"@ {
        Some(6)
    } else {
        None
    }
}

/// The description of `desc`, the empty text where there is none.
pub open spec fn description_or_empty(desc: Option<Seq<char>>) -> Seq<char> {
    match desc {
        Some(d) => d,
        None => Seq::empty(),
    }
}

/// What an error reply named `name` with the description `desc` gives: the
/// portal error of that name, carrying the description or the empty text,
/// where the name is one of the portal's own; else the bus library's error
/// `e`.
pub open spec fn reply_gives(name: Seq<char>, desc: Option<Seq<char>>, e: zbus::Error, p: PortalError) -> bool {
    match portal_error_kind(name) {
        Some(k) => portal_error_variant(p) == k && portal_error_description(p) == Some(description_or_empty(desc)),
        None => p == PortalError::ZBus(e),
    }
}

/// The portal's error names, written out, are the prefix and the variant's
/// name; two of them that have the same length differ after the prefix.
proof fn lemma_portal_names_spelled()
    ensures
        "org.freedesktop.portal.Error.Failed"@ == portal_error_prefix() + "Failed"@,
        "org.freedesktop.portal.Error.InvalidArgument"@ == portal_error_prefix() + "InvalidArgument"@,
        "org.freedesktop.portal.Error.NotFound"@ == portal_error_prefix() + "NotFound"@,
        "org.freedesktop.portal.Error.Exist"@ == portal_error_prefix() + "Exist"@,
        "org.freedesktop.portal.Error.NotAllowed"@ == portal_error_prefix() + "NotAllowed"@,
        "org.freedesktop.portal.Error.Cancelled"@ == portal_error_prefix() + "Cancelled"@,
        "org.freedesktop.portal.Error.WindowDestroyed"@ == portal_error_prefix() + "WindowDestroyed"@,
        portal_error_prefix().len() == 29,
        "Failed"@.len() == 6,
        "InvalidArgument"@.len() == 15,
        "NotFound"@.len() == 8,
        "Exist"@.len() == 5,
        "NotAllowed"@.len() == 10,
        "Cancelled"@.len() == 9,
        "WindowDestroyed"@.len() == 15,
        "org.freedesktop.zbus.Error"@.len() == 26,
        "org.freedesktop.portal.Error.Failed"@.len() == 35,
        "org.freedesktop.portal.Error.InvalidArgument"@.len() == 44,
        "org.freedesktop.portal.Error.NotFound"@.len() == 37,
        "org.freedesktop.portal.Error.Exist"@.len() == 34,
        "org.freedesktop.portal.Error.NotAllowed"@.len() == 39,
        "org.freedesktop.portal.Error.Cancelled"@.len() == 38,
        "org.freedesktop.portal.Error.WindowDestroyed"@.len() == 44,
        (portal_error_prefix() + "Failed"@).len() == 35,
        (portal_error_prefix() + "InvalidArgument"@).len() == 44,
        (portal_error_prefix() + "NotFound"@).len() == 37,
        (portal_error_prefix() + "Exist"@).len() == 34,
        (portal_error_prefix() + "NotAllowed"@).len() == 39,
        (portal_error_prefix() + "Cancelled"@).len() == 38,
        (portal_error_prefix() + "WindowDestroyed"@).len() == 44,
        "org.freedesktop.portal.Error.InvalidArgument"@[29] != "org.freedesktop.portal.Error.WindowDestroyed"@[29],
        (portal_error_prefix() + "InvalidArgument"@)[29] != (portal_error_prefix() + "WindowDestroyed"@)[29],
{
    reveal_strlit("org.freedesktop.zbus.Error");
    reveal_strlit("org.freedesktop.portal.Error.");
    reveal_strlit("Failed");
    reveal_strlit("InvalidArgument");
    reveal_strlit("NotFound");
    reveal_strlit("Exist");
    reveal_strlit("NotAllowed");
    reveal_strlit("Cancelled");
    reveal_strlit("WindowDestroyed");
    reveal_strlit("org.freedesktop.portal.Error.Failed");
    reveal_strlit("org.freedesktop.portal.Error.InvalidArgument");
    reveal_strlit("org.freedesktop.portal.Error.NotFound");
    reveal_strlit("org.freedesktop.portal.Error.Exist");
    reveal_strlit("org.freedesktop.portal.Error.NotAllowed");
    reveal_strlit("org.freedesktop.portal.Error.Cancelled");
    reveal_strlit("org.freedesktop.portal.Error.WindowDestroyed");
    let pre = portal_error_prefix();
    assert("org.freedesktop.portal.Error.Failed"@ =~= pre + "Failed"@);
    assert("org.freedesktop.portal.Error.InvalidArgument"@ =~= pre + "InvalidArgument"@);
    assert("org.freedesktop.portal.Error.NotFound"@ =~= pre + "NotFound"@);
    assert("org.freedesktop.portal.Error.Exist"@ =~= pre + "Exist"@);
    assert("org.freedesktop.portal.Error.NotAllowed"@ =~= pre + "NotAllowed"@);
    assert("org.freedesktop.portal.Error.Cancelled"@ =~= pre + "Cancelled"@);
    assert("org.freedesktop.portal.Error.WindowDestroyed"@ =~= pre + "WindowDestroyed"@);
    assert((pre + "InvalidArgument"@)[29] != (pre + "WindowDestroyed"@)[29]);
}

/// Each portal error has its own bus name: `org.freedesktop.portal.Error.`
/// followed by the variant's name, and `org.freedesktop.zbus.Error` for the
/// bus library's own error.
pub proof fn lemma_portal_error_name_values(p: PortalError)
    ensures
        (portal_error_name_of(p) == "org.freedesktop.portal.Error.Failed"@) == (p is Failed),
        (portal_error_name_of(p) == "org.freedesktop.portal.Error.InvalidArgument"@) == (p is InvalidArgument),
        (portal_error_name_of(p) == "org.freedesktop.portal.Error.NotFound"@) == (p is NotFound),
        (portal_error_name_of(p) == "org.freedesktop.portal.Error.Exist"@) == (p is Exist),
        (portal_error_name_of(p) == "org.freedesktop.portal.Error.NotAllowed"@) == (p is NotAllowed),
        (portal_error_name_of(p) == "org.freedesktop.portal.Error.Cancelled"@) == (p is Cancelled),
        (portal_error_name_of(p) == "org.freedesktop.portal.Error.WindowDestroyed"@) == (p is WindowDestroyed),
        (portal_error_name_of(p) == "org.freedesktop.zbus.Error"@) == (p is ZBus),
{
    lemma_portal_names_spelled();
}

/// Each of the portal's error names gives the variant of the same name and
/// no other does: `org.freedesktop.portal.Error.Exist` gives `Exist`, and so
/// on; a reply of any other name keeps the bus library's error. A portal
/// error carries the reply's description, or the empty text.
pub proof fn lemma_portal_error_names(name: Seq<char>, desc: Option<Seq<char>>, e: zbus::Error, p: PortalError)
    requires
        reply_gives(name, desc, e, p),
    ensures
        (name == "org.freedesktop.portal.Error.Failed"@) == (p is Failed),
        (name == "org.freedesktop.portal.Error.InvalidArgument"@) == (p is InvalidArgument),
        (name == "org.freedesktop.portal.Error.NotFound"@) == (p is NotFound),
        (name == "org.freedesktop.portal.Error.Exist"@) == (p is Exist),
        (name == "org.freedesktop.portal.Error.NotAllowed"@) == (p is NotAllowed),
        (name == "org.freedesktop.portal.Error.Cancelled"@) == (p is Cancelled),
        (name == "org.freedesktop.portal.Error.WindowDestroyed"@) == (p is WindowDestroyed),
        p is ZBus ==> p == PortalError::ZBus(e),
        !(p is ZBus) ==> portal_error_description(p) == Some(description_or_empty(desc)),
{
    lemma_portal_names_spelled();
}

/// The variant number of a portal error that is not the bus library's own.
pub open spec fn portal_error_variant(p: PortalError) -> int {
    match p {
        PortalError::ZBus(_) => -1,
        PortalError::Failed(_) => 0,
        PortalError::InvalidArgument(_) => 1,
        PortalError::NotFound(_) => 2,
        PortalError::Exist(_) => 3,
        PortalError::NotAllowed(_) => 4,
        PortalError::Cancelled(_) => 5,
        PortalError::WindowDestroyed(_) => 6,
    }
}

/// The bus error name and the description that an error of the bus
/// library carries, where it is an error reply of a called method (the
/// variant `zbus::Error::MethodError`), and nothing for its other errors.
pub uninterp spec fn method_error_of(e: zbus::Error) -> Option<(Seq<char>, Option<Seq<char>>)>;

/// The description that the bus library gives one of its errors, if any
/// (what `zbus::Error::description` returns).
pub uninterp spec fn bus_description_of(e: zbus::Error) -> Option<Seq<char>>;

/// The description the bus library gives one of its errors, if any.
///
/// This is `zbus::Error::description`. It is claimed to give back what
/// `bus_description_of` names, and, for an error reply of a method, the
/// description that the reply carries.
#[verifier::external_body]
fn bus_error_description(e: &zbus::Error) -> (d: Option<String>)
    ensures
        opt_text(d) == bus_description_of(*e),
        method_error_of(*e) matches Some((_, md)) ==> opt_text(d) == md,
{
    e.description().map(|d| d.to_string())
}

/// The bus error name and the description of a `MethodError` reply, if the
/// bus library's error is one.
///
/// This tells apart the variants of `zbus::Error`: it is claimed to give
/// back the name and description of a `MethodError`, as `method_error_of`
/// names them, and nothing for the other variants.
#[verifier::external_body]
fn bus_method_error(e: &zbus::Error) -> (r: Option<(String, Option<String>)>)
    ensures
        match r {
            Some((n, d)) => method_error_of(*e) == Some((n@, opt_text(d))),
            None => method_error_of(*e) is None,
        },
{
    match e {
        zbus::Error::MethodError(name, desc, _) => Some((name.as_str().to_string(), desc.clone())),
        _ => None,
    }
}

/// The text with which the bus library describes one of its errors (its
/// `Display`, through `ToString::to_string`).
///
/// Nothing is claimed of the text: for an error of input or output it holds
/// what the operating system says of it.
#[verifier::external_body]
fn bus_error_text(e: &zbus::Error) -> (t: String) {
    e.to_string()
}

/// The text with which std describes an error of input or output (its
/// `Display`, through `ToString::to_string`).
///
/// Nothing is claimed of the text: it holds what the operating system says
/// of the error.
#[verifier::external_body]
fn io_error_text(e: &std::io::Error) -> (t: String) {
    e.to_string()
}

/// The text with which a portal error describes itself: its bus name, `: `
/// and its description, or `no description` where the bus library's own
/// error has none.
pub open spec fn portal_error_message(p: PortalError) -> Seq<char> {
    portal_error_name_of(p) + ": "@ + match p {
        PortalError::ZBus(e) => match bus_description_of(e) {
            Some(d) => d,
            None => "no description"@,
        },
        _ => description_or_empty(portal_error_description(p)),
    }
}

impl PortalError {
    /// The bus error name of this error: the portal's error prefix and the
    /// variant, or the bus library's own name for its errors.
    pub fn error_name(&self) -> (s: String)
        ensures
            s@ == portal_error_name_of(*self),
    {
        let mut s = String::from_str("org.freedesktop.portal.Error.");
        let tail = match self {
            PortalError::ZBus(_) => {
                return String::from_str("org.freedesktop.zbus.Error");
            },
            PortalError::Failed(_) => "Failed",
            PortalError::InvalidArgument(_) => "InvalidArgument",
            PortalError::NotFound(_) => "NotFound",
            PortalError::Exist(_) => "Exist",
            PortalError::NotAllowed(_) => "NotAllowed",
            PortalError::Cancelled(_) => "Cancelled",
            PortalError::WindowDestroyed(_) => "WindowDestroyed",
        };
        s.append(tail);
        s
    }

    /// The description this error carries: the text of a portal error, or
    /// what the bus library says of its own error.
    pub fn description(&self) -> (d: Option<String>)
        ensures
            !(*self is ZBus) ==> (d matches Some(t) && Some(t@) == portal_error_description(*self)),
            *self matches PortalError::ZBus(e) ==> opt_text(d) == bus_description_of(e),
    {
        match self {
            PortalError::ZBus(e) => bus_error_description(e),
            PortalError::Failed(d) => Some(d.clone()),
            PortalError::InvalidArgument(d) => Some(d.clone()),
            PortalError::NotFound(d) => Some(d.clone()),
            PortalError::Exist(d) => Some(d.clone()),
            PortalError::NotAllowed(d) => Some(d.clone()),
            PortalError::Cancelled(d) => Some(d.clone()),
            PortalError::WindowDestroyed(d) => Some(d.clone()),
        }
    }

    /// The text that describes the error: its bus name, `: ` and its
    /// description, or `no description`.
    pub fn message(&self) -> (m: String)
        ensures
            m@ == portal_error_message(*self),
    {
        let mut m = self.error_name();
        m.append(": ");
        let d = self.description();
        match d {
            Some(d) => m.append(d.as_str()),
            None => m.append("no description"),
        }
        proof {
            if let PortalError::ZBus(e) = self {
                assert(opt_text(d) == bus_description_of(*e));
            }
        }
        m
    }

    /// The portal error that an error reply named `name`, with the
    /// description `desc`, stands for; a name that is not one of the
    /// portal's own keeps the bus library's error `e`.
    pub fn from_reply(name: &str, desc: Option<String>, e: zbus::Error) -> (p: PortalError)
        ensures
            reply_gives(name@, opt_text(desc), e, p),
    {
        let d = match desc {
            Some(d) => d,
            None => String::new(),
        };
        let prefix = "org.freedesktop.portal.Error.";
        let mut full = String::from_str(prefix);
        full.append("Failed");
        if str_equals(name, full.as_str()) {
            return PortalError::Failed(d);
        }
        let mut full = String::from_str(prefix);
        full.append("InvalidArgument");
        if str_equals(name, full.as_str()) {
            return PortalError::InvalidArgument(d);
        }
        let mut full = String::from_str(prefix);
        full.append("NotFound");
        if str_equals(name, full.as_str()) {
            return PortalError::NotFound(d);
        }
        let mut full = String::from_str(prefix);
        full.append("Exist");
        if str_equals(name, full.as_str()) {
            return PortalError::Exist(d);
        }
        let mut full = String::from_str(prefix);
        full.append("NotAllowed");
        if str_equals(name, full.as_str()) {
            return PortalError::NotAllowed(d);
        }
        let mut full = String::from_str(prefix);
        full.append("Cancelled");
        if str_equals(name, full.as_str()) {
            return PortalError::Cancelled(d);
        }
        let mut full = String::from_str(prefix);
        full.append("WindowDestroyed");
        if str_equals(name, full.as_str()) {
            return PortalError::WindowDestroyed(d);
        }
        PortalError::ZBus(e)
    }

    /// The portal error that an error of the bus library stands for: an
    /// error reply named after one of the portal's errors becomes that
    /// error; any other error stays the bus library's.
    pub fn from_bus_error(e: zbus::Error) -> (p: PortalError)
        ensures
            match method_error_of(e) {
                Some((n, d)) => reply_gives(n, d, e, p),
                None => p == PortalError::ZBus(e),
            },
    {
        match bus_method_error(&e) {
            Some((name, desc)) => PortalError::from_reply(name.as_str(), desc, e),
            None => PortalError::ZBus(e),
        }
    }
}

/// The errors of the library.
#[derive(Debug)]
pub enum AshpdError {
    /// The portal request did not succeed.
    Response(ResponseError),
    /// The portal replied with an error.
    Portal(PortalError),
    /// The bus library failed.
    Zbus(zbus::Error),
    /// No response came.
    NoResponse,
    /// A value could not be read.
    ParseError(&'static str),
    /// Input or output failed.
    IO(std::io::Error),
    /// The application id is not valid.
    InvalidAppID,
    /// A nul byte was found at the given position of the provided data.
    NulTerminated(usize),
    /// The interface requires the first version, and the second is available.
    RequiresVersion(u32, u32),
    /// No portal frontend implements the named interface.
    PortalNotFound(String),
    /// An icon of another kind than bytes was given.
    UnexpectedIcon,
}

/// The text with which the bus reports a missing interface begins.
pub open spec fn no_interface_prefix() -> Seq<char> {
    "No such interface"@
}

/// The text with which the bus reports a missing interface ends.
pub open spec fn no_interface_suffix() -> Seq<char> {
    "on object at path /org/freedesktop/portal/desktop"@
}

/// The interface named in the details of an error reply: the details
/// without the leading `No such interface` and the trailing
/// `on object at path /org/freedesktop/portal/desktop`, without surrounding
/// white space, back quotes or typographic quotes.
pub open spec fn interface_in_details(details: Seq<char>) -> Seq<char> {
    trim_char(
        trim_char(
            trim_char(
                trim_whitespace(strip_suffixes(strip_prefixes(details, no_interface_prefix()), no_interface_suffix())),
                '`',
            ),
            '\u{201c}',
        ),
        '\u{201d}',
    )
}

/// The details with which the bus reports that no object implements the
/// interface named `i` lead back to `i`, for every valid interface name: the
/// words `No such interface`, the name between typographic quotes, and
/// `on object at path /org/freedesktop/portal/desktop` give the name alone.
pub proof fn lemma_missing_interface_named(i: Seq<char>)
    requires
        is_interface_name(i),
    ensures
        interface_in_details(
            "No such interface \u{201c}"@ + i + "\u{201d} on object at path /org/freedesktop/portal/desktop"@,
        ) == i,
{
    let a = "No such interface \u{201c}"@;
    let b = "\u{201d} on object at path /org/freedesktop/portal/desktop"@;
    reveal_strlit("No such interface \u{201c}");
    reveal_strlit("\u{201d} on object at path /org/freedesktop/portal/desktop");
    reveal_strlit("No such interface");
    reveal_strlit("on object at path /org/freedesktop/portal/desktop");
    let p = no_interface_prefix();
    let q = no_interface_suffix();
    assert(a =~= p + seq![' ', '\u{201c}']);
    assert(b =~= seq!['\u{201d}', ' '] + q);
    let n = i.len();
    assert(is_name_char(i[0]) || i[0] == '.');
    assert(is_name_char(i[n - 1]) || i[n - 1] == '.');
    let d = a + i + b;
    // The leading words, once.
    let r1 = seq![' ', '\u{201c}'] + i + seq!['\u{201d}', ' '] + q;
    assert(d.subrange(0, p.len() as int) =~= p);
    assert(d.subrange(p.len() as int, d.len() as int) =~= r1);
    assert(r1.subrange(0, p.len() as int)[0] != p[0]);
    assert(strip_prefixes(r1, p) == r1);
    assert(strip_prefixes(d, p) == r1);
    // The trailing words, once.
    let m = seq![' ', '\u{201c}'] + i + seq!['\u{201d}', ' '];
    assert(r1.subrange(r1.len() - q.len(), r1.len() as int) =~= q);
    assert(r1.subrange(0, r1.len() - q.len()) =~= m);
    if q.len() <= m.len() {
        assert(m.subrange(m.len() - q.len(), m.len() as int)[q.len() - 1] != q[q.len() - 1]);
    }
    assert(strip_suffixes(m, q) == m);
    assert(strip_suffixes(r1, q) == m);
    // White space at both ends.
    let m1 = seq!['\u{201c}'] + i + seq!['\u{201d}', ' '];
    assert(m.drop_first() =~= m1);
    assert(trim_start_where(m1, ws_pred()) == m1);
    assert(trim_start_where(m, ws_pred()) == m1);
    let m2 = seq!['\u{201c}'] + i + seq!['\u{201d}'];
    assert(m1.drop_last() =~= m2);
    assert(trim_end_where(m2, ws_pred()) == m2);
    assert(trim_end_where(m1, ws_pred()) == m2);
    assert(trim_whitespace(m) == m2);
    // No back quotes.
    assert(trim_start_where(m2, char_pred('`')) == m2);
    assert(trim_end_where(m2, char_pred('`')) == m2);
    // The opening quote.
    let m3 = i + seq!['\u{201d}'];
    assert(m2.drop_first() =~= m3);
    assert(trim_start_where(m3, char_pred('\u{201c}')) == m3);
    assert(trim_start_where(m2, char_pred('\u{201c}')) == m3);
    assert(trim_end_where(m3, char_pred('\u{201c}')) == m3);
    // The closing quote.
    assert(trim_start_where(m3, char_pred('\u{201d}')) == m3);
    assert(m3.drop_last() =~= i);
    assert(trim_end_where(i, char_pred('\u{201d}')) == i);
    assert(trim_end_where(m3, char_pred('\u{201d}')) == i);
}

/// The interface named in `details`, the text of an error reply.
pub fn interface_named_in(details: &str) -> (iface: String)
    ensures
        iface@ == interface_in_details(details@),
{
    let v = chars_of(details);
    let prefix = chars_of("No such interface");
    let suffix = chars_of("on object at path /org/freedesktop/portal/desktop");
    let lo = skip_prefixes(&v, 0, v.len(), &prefix);
    assert(v@.subrange(0, v@.len() as int) =~= v@);
    let hi = skip_suffixes(&v, lo, v.len(), &suffix);
    let lo2 = skip_start(&v, lo, hi, true, ' ');
    let hi2 = skip_end(&v, lo2, hi, true, ' ');
    let lo3 = skip_start(&v, lo2, hi2, false, '`');
    let hi3 = skip_end(&v, lo3, hi2, false, '`');
    let lo4 = skip_start(&v, lo3, hi3, false, '\u{201c}');
    let hi4 = skip_end(&v, lo4, hi3, false, '\u{201c}');
    let lo5 = skip_start(&v, lo4, hi4, false, '\u{201d}');
    let hi5 = skip_end(&v, lo5, hi4, false, '\u{201d}');
    string_of(&v, lo5, hi5)
}

/// What the library's error for an error `e` of the bus library is: a
/// missing portal interface where `e` is an error reply whose details name a
/// valid interface, else `e` itself.
pub open spec fn bus_error_gives(e: zbus::Error, r: AshpdError) -> bool {
    match method_error_of(e) {
        Some((_, Some(d))) => if is_interface_name(interface_in_details(d)) {
            r matches AshpdError::PortalNotFound(i) && i@ == interface_in_details(d)
        } else {
            r == AshpdError::Zbus(e)
        },
        _ => r == AshpdError::Zbus(e),
    }
}

/// An error reply saying that no object implements a valid interface `i`
/// is reported as a missing portal for `i`, whatever the reply's name.
pub proof fn lemma_missing_portal_reported(e: zbus::Error, name: Seq<char>, i: Seq<char>, r: AshpdError)
    requires
        is_interface_name(i),
        method_error_of(e) == Some(
            (
                name,
                Some(
                    "No such interface \u{201c}"@ + i + "\u{201d} on object at path /org/freedesktop/portal/desktop"@,
                ),
            ),
        ),
        bus_error_gives(e, r),
    ensures
        r matches AshpdError::PortalNotFound(j) && j@ == i,
{
    lemma_missing_interface_named(i);
}

/// An error of the bus library that is not an error reply, or a reply
/// without details, stays the bus library's error.
pub proof fn lemma_other_bus_errors_kept(e: zbus::Error, r: AshpdError)
    requires
        bus_error_gives(e, r),
        !(method_error_of(e) matches Some((_, Some(_)))),
    ensures
        r == AshpdError::Zbus(e),
{
}

impl AshpdError {
    /// The error that the details of an error reply stand for: a missing
    /// portal interface when they name a valid interface, else the bus
    /// library's error `e`.
    pub fn from_reply_details(details: Option<String>, e: zbus::Error) -> (r: AshpdError)
        ensures
            match details {
                Some(d) => if is_interface_name(interface_in_details(d@)) {
                    r matches AshpdError::PortalNotFound(i) && i@ == interface_in_details(d@)
                } else {
                    r == AshpdError::Zbus(e)
                },
                None => r == AshpdError::Zbus(e),
            },
    {
        match details {
            Some(d) => {
                let iface = interface_named_in(d.as_str());
                if interface_name_is_valid(iface.as_str()) {
                    AshpdError::PortalNotFound(iface)
                } else {
                    AshpdError::Zbus(e)
                }
            },
            None => AshpdError::Zbus(e),
        }
    }

    /// The error that an error of the bus library stands for: a method error
    /// reply whose details name a valid interface means that no portal
    /// implements it; any other error stays the bus library's.
    pub fn from_bus_error(e: zbus::Error) -> (r: AshpdError)
        ensures
            bus_error_gives(e, r),
    {
        match bus_method_error(&e) {
            Some((_name, details)) => AshpdError::from_reply_details(details, e),
            None => AshpdError::Zbus(e),
        }
    }

    /// The text that describes the error.
    pub fn message(&self) -> (m: String)
        ensures
            match *self {
                AshpdError::Response(e) => (m@ == "Portal request didn't succeed: "@
                    + response_error_name(e)),
                AshpdError::NoResponse => (m@ == "Portal error: no response"@),
                AshpdError::ParseError(s) => (m@ == s@),
                AshpdError::InvalidAppID => (m@ == "Invalid app id"@),
                AshpdError::UnexpectedIcon => (m@
                    == "Expected icon of type Icon::Bytes but a different type was used."@),
                AshpdError::PortalNotFound(i) => (m@ == "A portal frontend implementing `"@ + i@
                    + "` was not found"@),
                AshpdError::NulTerminated(u) => (m@ == "Nul byte found in provided data at position "@
                    + decimal_text(u as nat)),
                AshpdError::RequiresVersion(required, current) => (m@
                    == "This interface requires version "@ + decimal_text(required as nat) + ", but "@
                    + decimal_text(current as nat) + " is available"@),
                AshpdError::Portal(p) => (m@ == "Portal request failed: "@ + portal_error_message(p)),
                AshpdError::Zbus(_) => (exists|s: Seq<char>| m@ == "ZBus Error: "@ + s),
                AshpdError::IO(_) => (exists|s: Seq<char>| m@ == "IO: "@ + s),
            },
    {
        match self {
            AshpdError::Response(e) => {
                let mut t = String::from_str("Portal request didn't succeed: ");
                let n = e.message();
                t.append(n.as_str());
                t
            },
            AshpdError::NoResponse => String::from_str("Portal error: no response"),
            AshpdError::ParseError(s) => String::from_str(s),
            AshpdError::InvalidAppID => String::from_str("Invalid app id"),
            AshpdError::UnexpectedIcon => String::from_str(
                "Expected icon of type Icon::Bytes but a different type was used.",
            ),
            AshpdError::PortalNotFound(i) => {
                let mut t = String::from_str("A portal frontend implementing `");
                t.append(i.as_str());
                t.append("` was not found");
                t
            },
            AshpdError::NulTerminated(u) => {
                let mut t = String::from_str("Nul byte found in provided data at position ");
                push_decimal(&mut t, *u as u64);
                t
            },
            AshpdError::RequiresVersion(required, current) => {
                let mut t = String::from_str("This interface requires version ");
                push_decimal(&mut t, *required as u64);
                t.append(", but ");
                push_decimal(&mut t, *current as u64);
                t.append(" is available");
                t
            },
            AshpdError::Portal(p) => {
                let mut t = String::from_str("Portal request failed: ");
                let pm = p.message();
                t.append(pm.as_str());
                t
            },
            AshpdError::Zbus(e) => {
                let mut t = String::from_str("ZBus Error: ");
                let et = bus_error_text(e);
                t.append(et.as_str());
                assert(t@ == "ZBus Error: "@ + et@);
                t
            },
            AshpdError::IO(e) => {
                let mut t = String::from_str("IO: ");
                let et = io_error_text(e);
                t.append(et.as_str());
                assert(t@ == "IO: "@ + et@);
                t
            },
        }
    }
}

} // verus!
