//! Rules for the names that travel on the bus: member names, interface names
//! and object paths, with the checks that the bus library performs on them.

use vstd::prelude::*;

verus! {

/// An ASCII letter.
pub open spec fn is_ascii_alpha(c: char) -> bool {
    ('a' <= c && c <= 'z') || ('A' <= c && c <= 'Z')
}

/// An ASCII decimal digit.
pub open spec fn is_ascii_digit(c: char) -> bool {
    '0' <= c && c <= '9'
}

/// An ASCII letter or digit.
pub open spec fn is_ascii_alnum(c: char) -> bool {
    is_ascii_alpha(c) || is_ascii_digit(c)
}

/// A character allowed inside a bus name element: `[A-Za-z0-9_]`.
pub open spec fn is_name_char(c: char) -> bool {
    is_ascii_alnum(c) || c == '_'
}

/// Every character of `s` is a name character.
pub open spec fn all_name_chars(s: Seq<char>) -> bool {
    forall|i: int| 0 <= i < s.len() ==> #[trigger] is_name_char(s[i])
}

/// A valid member (method or signal) name: one to 255 name characters,
/// not starting with a digit.
pub open spec fn is_member_name(s: Seq<char>) -> bool {
    &&& 1 <= s.len() <= 255
    &&& !is_ascii_digit(s[0])
    &&& all_name_chars(s)
}

/// A valid interface name: at most 255 characters, made of two or more
/// non-empty elements separated by `.`, each of name characters and none
/// starting with a digit.
pub open spec fn is_interface_name(s: Seq<char>) -> bool {
    &&& 1 <= s.len() <= 255
    &&& s[0] != '.'
    &&& s[s.len() - 1] != '.'
    &&& !is_ascii_digit(s[0])
    &&& exists|i: int| 0 <= i < s.len() && s[i] == '.'
    &&& forall|i: int| 0 <= i < s.len() ==> (#[trigger] is_name_char(s[i]) || s[i] == '.')
    &&& forall|i: int| 0 <= i < s.len() - 1 && #[trigger] s[i] == '.' ==> s[i + 1] != '.' && !is_ascii_digit(s[i + 1])
}

/// A valid object path: `/` alone, or `/` followed by non-empty elements of
/// name characters separated by single `/`, with no trailing `/`.
pub open spec fn is_object_path(s: Seq<char>) -> bool {
    &&& s.len() >= 1
    &&& s[0] == '/'
    &&& forall|i: int| 0 <= i < s.len() ==> (#[trigger] is_name_char(s[i]) || s[i] == '/')
    &&& forall|i: int| 0 <= i < s.len() - 1 && #[trigger] s[i] == '/' ==> s[i + 1] != '/'
    &&& s.len() > 1 ==> s[s.len() - 1] != '/'
}

/// Whether `zbus::names::OwnedMemberName::try_from` accepts `s`.
///
/// The bus library accepts exactly one to 255 bytes of `[A-Za-z0-9_]` that do
/// not start with a digit; for such ASCII text bytes and characters coincide.
#[verifier::external_body]
pub(crate) fn member_name_is_valid(s: &str) -> (valid: bool)
    ensures
        valid == is_member_name(s@),
{
    zbus::names::OwnedMemberName::try_from(s).is_ok()
}

/// Whether `zbus::zvariant::ObjectPath::try_from` accepts `s`.
///
/// The bus library accepts `/` followed by zero or more non-empty elements of
/// `[A-Za-z0-9_]` separated by single `/`, and nothing else.
#[verifier::external_body]
pub(crate) fn object_path_is_valid(s: &str) -> (valid: bool)
    ensures
        valid == is_object_path(s@),
{
    zbus::zvariant::ObjectPath::try_from(s).is_ok()
}

/// Whether `zbus::names::OwnedInterfaceName::try_from` accepts `s`.
///
/// The bus library accepts two or more non-empty elements of
/// `[A-Za-z0-9_]`, none starting with a digit, separated by single `.`, at
/// most 255 bytes long; for such ASCII text bytes and characters coincide.
#[verifier::external_body]
pub(crate) fn interface_name_is_valid(s: &str) -> (valid: bool)
    ensures
        valid == is_interface_name(s@),
{
    zbus::names::OwnedInterfaceName::try_from(s).is_ok()
}

} // verus!
