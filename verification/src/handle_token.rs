//! Handle tokens: the last element of the object path of a request or a
//! session, chosen by the caller.

use vstd::prelude::*;
use rand::Rng;
use crate::dbus_names::{all_name_chars, is_ascii_alnum, is_ascii_digit, is_member_name, is_name_char, member_name_is_valid};
use crate::text::push_char;

verus! {

/// The character that made a text unfit for a handle token.
#[derive(Debug, Clone, Copy, PartialEq, Eq, Structural)]
pub struct HandleInvalidCharacter(pub char);

impl HandleInvalidCharacter {
    /// The message that describes the error: `Invalid Character ` and the
    /// character.
    pub fn message(&self) -> (m: String)
        ensures
            m@ == invalid_character_message(self.0),
    {
        let mut m = String::from_str("Invalid Character ");
        push_char(&mut m, self.0);
        m
    }
}

/// What `HandleInvalidCharacter::message` says.
pub open spec fn invalid_character_message(c: char) -> Seq<char> {
    "Invalid Character "@.push(c)
}

/// The text of a fresh token: `ashpd_` followed by ten ASCII letters and
/// digits.
pub open spec fn is_fresh_token(s: Seq<char>) -> bool {
    &&& s.len() == 16
    &&& s.subrange(0, 6) == default_prefix()
    &&& forall|i: int| 6 <= i < 16 ==> #[trigger] is_ascii_alnum(s[i])
}

/// A handle token: an element of a bus object path, made only of the ASCII
/// characters `[A-Za-z0-9_]`, that is also a valid member name.
#[derive(Debug)]
pub struct HandleToken {
    token: String,
}

/// The index of the first character of `s` that is not a name character, if
/// there is one.
pub open spec fn first_invalid(s: Seq<char>, i: int) -> bool {
    &&& 0 <= i < s.len()
    &&& !is_name_char(s[i])
    &&& forall|j: int| 0 <= j < i ==> #[trigger] is_name_char(s[j])
}

/// The prefix of every token that `HandleToken::default` makes.
pub open spec fn default_prefix() -> Seq<char> {
    "ashpd_"@
}

impl HandleToken {
    #[verifier::type_invariant]
    spec fn inv(self) -> bool {
        is_member_name(self.token@)
    }

    /// The token as text.
    pub closed spec fn view(self) -> Seq<char> {
        self.token@
    }

    /// Checks `value` character by character; the first character outside
    /// `[A-Za-z0-9_]` is reported. A text of such characters is then turned
    /// into a token; it must not be empty, start with a digit, or be longer
    /// than 255 characters.
    pub fn try_from(value: &str) -> (res: Result<HandleToken, HandleInvalidCharacter>)
        requires
            all_name_chars(value@) ==> 1 <= value@.len() <= 255 && !is_ascii_digit(value@[0]),
        ensures
            match res {
                Ok(t) => all_name_chars(value@) && t.view() == value@,
                Err(e) => exists|i: int| first_invalid(value@, i) && value@[i] == e.0,
            },
    {
        let n = value.unicode_len();
        let mut i: usize = 0;
        while i < n
            invariant
                n == value@.len(),
                i <= n,
                forall|j: int| 0 <= j < i ==> #[trigger] is_name_char(value@[j]),
            decreases n - i,
        {
            let c = value.get_char(i);
            if !is_name_char_exec(c) {
                assert(first_invalid(value@, i as int));
                return Err(HandleInvalidCharacter(c));
            }
            i = i + 1;
        }
        let valid = member_name_is_valid(value);
        assert(valid);
        Ok(HandleToken { token: String::from_str(value) })
    }

    /// Same as `try_from`, for an owned text.
    pub fn try_from_string(value: String) -> (res: Result<HandleToken, HandleInvalidCharacter>)
        requires
            all_name_chars(value@) ==> 1 <= value@.len() <= 255 && !is_ascii_digit(value@[0]),
        ensures
            match res {
                Ok(t) => all_name_chars(value@) && t.view() == value@,
                Err(e) => exists|i: int| first_invalid(value@, i) && value@[i] == e.0,
            },
    {
        HandleToken::try_from(value.as_str())
    }

    /// A fresh token: `ashpd_` followed by ten random ASCII letters and
    /// digits.
    pub fn default() -> (t: HandleToken)
        ensures
            t.view().len() == 16,
            t.view().subrange(0, 6) == default_prefix(),
            forall|i: int| 6 <= i < 16 ==> #[trigger] is_ascii_alnum(t.view()[i]),
    {
        let suffix = random_alphanumeric(10);
        let mut text = String::from_str("ashpd_");
        proof {
            reveal_strlit("ashpd_");
        }
        text.append(suffix.as_str());
        let ghost s = text@;
        assert(s.subrange(0, 6) =~= default_prefix());
        assert(all_name_chars(s)) by {
            assert forall|i: int| 0 <= i < s.len() implies #[trigger] is_name_char(s[i]) by {
                if i >= 6 {
                    assert(s[i] == suffix@[i - 6]);
                }
            }
        }
        match HandleToken::try_from(text.as_str()) {
            Ok(t) => t,
            Err(_) => {
                assert(false);
                HandleToken { token: text }
            },
        }
    }

    /// The token as text.
    pub fn as_str(&self) -> (s: &str)
        ensures
            s@ == self.view(),
            is_member_name(s@),
    {
        proof {
            use_type_invariant(self);
        }
        self.token.as_str()
    }

    /// The token as an owned text, as its `Display` shows it.
    pub fn to_string(&self) -> (s: String)
        ensures
            s@ == self.view(),
    {
        self.token.clone()
    }
}

/// Whether `c` is one of `[A-Za-z0-9_]`.
pub fn is_name_char_exec(c: char) -> (b: bool)
    ensures
        b == is_name_char(c),
{
    ('a' <= c && c <= 'z') || ('A' <= c && c <= 'Z') || ('0' <= c && c <= '9') || c == '_'
}

/// `n` characters drawn by `rand` from its `Alphanumeric` distribution.
///
/// `rand::distributions::Alphanumeric` samples uniformly from the 62 ASCII
/// letters and digits; the contract states only that every character is one
/// of them and that there are `n`: which ones come out is left open.
#[verifier::external_body]
fn random_alphanumeric(n: usize) -> (s: String)
    ensures
        s@.len() == n,
        forall|i: int| 0 <= i < n ==> #[trigger] is_ascii_alnum(s@[i]),
{
    rand::thread_rng().sample_iter(rand::distributions::Alphanumeric).take(n).map(char::from).collect()
}

} // verus!
