//! The flags and permissions of the document store as its first interface
//! version named them.

use vstd::prelude::*;
use crate::error::AshpdError;
use crate::text::str_equals;

verus! {

/// The flags of a file added to the document store.
#[derive(Debug, Clone, Copy, PartialEq, Eq, Structural)]
pub enum Flags {
    /// Reuse the existing entry for the file.
    ReuseExisting,
    /// Persistent file.
    Persistent,
    /// Depends on the application needs.
    AsNeededByApp,
    /// Export a directory.
    ExportDirectory,
}

/// The number that stands for a [`Flags`] on the bus.
pub open spec fn flags_code(x: Flags) -> u32 {
    match x {
        Flags::ReuseExisting => 1,
        Flags::Persistent => 2,
        Flags::AsNeededByApp => 4,
        Flags::ExportDirectory => 8,
    }
}

/// What `flags_code` gives, value by value, each different from the others:
/// ReuseExisting is 1; Persistent is 2; AsNeededByApp is 4; ExportDirectory is 8.
pub proof fn lemma_flags_code_values(x: Flags)
    ensures
        (flags_code(x) == 1) == (x is ReuseExisting),
        (flags_code(x) == 2) == (x is Persistent),
        (flags_code(x) == 4) == (x is AsNeededByApp),
        (flags_code(x) == 8) == (x is ExportDirectory),
{
}

impl Flags {
    /// The number that stands for the value on the bus.
    pub fn code(self) -> (n: u32)
        ensures
            n == flags_code(self),
    {
        match self {
            Flags::ReuseExisting => 1,
            Flags::Persistent => 2,
            Flags::AsNeededByApp => 4,
            Flags::ExportDirectory => 8,
        }
    }

    /// The value that a number stands for on the bus.
    pub fn from_code(n: u32) -> (x: Option<Flags>)
        ensures
            match x {
                Some(v) => flags_code(v) == n,
                None => n != 1 && n != 2 && n != 4 && n != 8,
            },
    {
        if n == 1 {
            Some(Flags::ReuseExisting)
        } else if n == 2 {
            Some(Flags::Persistent)
        } else if n == 4 {
            Some(Flags::AsNeededByApp)
        } else if n == 8 {
            Some(Flags::ExportDirectory)
        } else {
            None
        }
    }
}

/// Decoding the number of a value gives the value back.
pub proof fn lemma_flags_code_round_trip(x: Flags)
    ensures
        forall|y: Flags| flags_code(y) == flags_code(x) ==> y == x,
{
}

/// A permission on a document.
#[derive(Debug, Clone, Copy, PartialEq, Eq, Structural)]
pub enum Permission {
    /// Read access.
    Read,
    /// Write access.
    Write,
    /// The possibility to grant new permissions.
    GrantPermissions,
    /// Delete access.
    Delte,
}

/// The name under which a [`Permission`] is shown.
pub open spec fn permission_text(x: Permission) -> Seq<char> {
    match x {
        Permission::Read => "read"@,
        Permission::Write => "write"@,
        Permission::GrantPermissions => "grant-permissions"@,
        Permission::Delte => "delte"@,
    }
}

/// What `permission_text` gives, value by value, each different from the others:
/// Read is "read"; Write is "write"; GrantPermissions is "grant-permissions"; Delte is "delte".
pub proof fn lemma_permission_text_values(x: Permission)
    ensures
        (permission_text(x) == "read"@) == (x is Read),
        (permission_text(x) == "write"@) == (x is Write),
        (permission_text(x) == "grant-permissions"@) == (x is GrantPermissions),
        (permission_text(x) == "delte"@) == (x is Delte),
{
    reveal_strlit("delte");
    reveal_strlit("grant-permissions");
    reveal_strlit("read");
    reveal_strlit("write");
    assert("delte"@.len() != "grant-permissions"@.len());
    assert("delte"@.len() != "read"@.len());
    assert("delte"@[0] != "write"@[0]);
    assert("grant-permissions"@.len() != "read"@.len());
    assert("grant-permissions"@.len() != "write"@.len());
    assert("read"@.len() != "write"@.len());
}

/// The name of a [`Permission`] on the bus.
pub open spec fn permission_wire(x: Permission) -> Seq<char> {
    match x {
        Permission::Read => "read"@,
        Permission::Write => "write"@,
        Permission::GrantPermissions => "grant-permissions"@,
        Permission::Delte => "delte"@,
    }
}

/// What `permission_wire` gives, value by value, each different from the others:
/// Read is "read"; Write is "write"; GrantPermissions is "grant-permissions"; Delte is "delte".
pub proof fn lemma_permission_wire_values(x: Permission)
    ensures
        (permission_wire(x) == "read"@) == (x is Read),
        (permission_wire(x) == "write"@) == (x is Write),
        (permission_wire(x) == "grant-permissions"@) == (x is GrantPermissions),
        (permission_wire(x) == "delte"@) == (x is Delte),
{
    reveal_strlit("delte");
    reveal_strlit("grant-permissions");
    reveal_strlit("read");
    reveal_strlit("write");
    assert("delte"@.len() != "grant-permissions"@.len());
    assert("delte"@.len() != "read"@.len());
    assert("delte"@[0] != "write"@[0]);
    assert("grant-permissions"@.len() != "read"@.len());
    assert("grant-permissions"@.len() != "write"@.len());
    assert("read"@.len() != "write"@.len());
}

/// The [`Permission`] that a text names, if any.
pub open spec fn parse_permission(s: Seq<char>) -> Option<Permission> {
    if s == "read"@ {
        Some(Permission::Read)
    } else if s == "write"@ {
        Some(Permission::Write)
    } else if s == "grant-permissions"@ {
        Some(Permission::GrantPermissions)
    } else if s == "delte"@ {
        Some(Permission::Delte)
    } else {
        None
    }
}

/// A text names a `Permission` exactly where it is that value's shown name or its
/// name on the bus; no other text names one.
pub proof fn lemma_parse_permission_names(s: Seq<char>, x: Permission)
    ensures
        (parse_permission(s) == Some(x)) == (s == permission_text(x) || s == permission_wire(x)),
{
    reveal_strlit("read");
    reveal_strlit("write");
    reveal_strlit("grant-permissions");
    reveal_strlit("delte");
    assert("read"@.len() != "write"@.len());
    assert("read"@.len() != "grant-permissions"@.len());
    assert("read"@.len() != "delte"@.len());
    assert("write"@.len() != "grant-permissions"@.len());
    assert("write"@[0] != "delte"@[0]);
    assert("grant-permissions"@.len() != "delte"@.len());
}

/// The message of the error that an unknown [`Permission`] name gives.
pub open spec fn permission_parse_message() -> Seq<char> {
    "Matching variant not found"@
}

impl Permission {
    /// The name under which the value is shown.
    pub fn as_str(&self) -> (s: &'static str)
        ensures
            s@ == permission_text(*self),
    {
        match self {
            Permission::Read => "read",
            Permission::Write => "write",
            Permission::GrantPermissions => "grant-permissions",
            Permission::Delte => "delte",
        }
    }

    /// The name of the value on the bus.
    pub fn wire_name(&self) -> (s: &'static str)
        ensures
            s@ == permission_wire(*self),
    {
        match self {
            Permission::Read => "read",
            Permission::Write => "write",
            Permission::GrantPermissions => "grant-permissions",
            Permission::Delte => "delte",
        }
    }

    /// The value that a text names; a parse error for any other text.
    pub fn from_str(s: &str) -> (r: Result<Permission, AshpdError>)
        ensures
            match r {
                Ok(x) => parse_permission(s@) == Some(x),
                Err(e) => parse_permission(s@) is None && (e matches AshpdError::ParseError(m) && m@
                    == permission_parse_message()),
            },
    {
        if str_equals(s, "read") {
            Ok(Permission::Read)
        } else if str_equals(s, "write") {
            Ok(Permission::Write)
        } else if str_equals(s, "grant-permissions") {
            Ok(Permission::GrantPermissions)
        } else if str_equals(s, "delte") {
            Ok(Permission::Delte)
        } else {
            Err(AshpdError::ParseError("Matching variant not found"))
        }
    }
}

/// Parsing the name of a value on the bus gives the value back.
pub proof fn lemma_permission_wire_round_trip(x: Permission)
    ensures
        parse_permission(permission_wire(x)) == Some(x),
{
    reveal_strlit("read");
    reveal_strlit("write");
    reveal_strlit("grant-permissions");
    reveal_strlit("delte");
    assert("write"@.len() == 5 && "read"@.len() == 4);
    assert("write"@ != "read"@);
    assert("grant-permissions"@.len() == 17 && "read"@.len() == 4);
    assert("grant-permissions"@ != "read"@);
    assert("grant-permissions"@.len() == 17 && "write"@.len() == 5);
    assert("grant-permissions"@ != "write"@);
    assert("delte"@.len() == 5 && "read"@.len() == 4);
    assert("delte"@ != "read"@);
    assert("delte"@[0] != "write"@[0]);
    assert("delte"@ != "write"@);
    assert("delte"@.len() == 5 && "grant-permissions"@.len() == 17);
    assert("delte"@ != "grant-permissions"@);
}

/// Parsing the name under which a value is shown gives the value back.
pub proof fn lemma_permission_text_round_trip(x: Permission)
    ensures
        parse_permission(permission_text(x)) == Some(x),
{
    reveal_strlit("read");
    reveal_strlit("write");
    reveal_strlit("grant-permissions");
    reveal_strlit("delte");
    assert("write"@.len() == 5 && "read"@.len() == 4);
    assert("write"@ != "read"@);
    assert("grant-permissions"@.len() == 17 && "read"@.len() == 4);
    assert("grant-permissions"@ != "read"@);
    assert("grant-permissions"@.len() == 17 && "write"@.len() == 5);
    assert("grant-permissions"@ != "write"@);
    assert("delte"@.len() == 5 && "read"@.len() == 4);
    assert("delte"@ != "read"@);
    assert("delte"@[0] != "write"@[0]);
    assert("delte"@ != "write"@);
    assert("delte"@.len() == 5 && "grant-permissions"@.len() == 17);
    assert("delte"@ != "grant-permissions"@);
}

} // verus!
