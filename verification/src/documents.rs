//! The document store: flags and permissions of exported files, and the
//! file transfer portal.

use vstd::prelude::*;
use crate::app_id::{AppID, DocumentID};
use crate::error::AshpdError;
use crate::proxy::{documents_destination, documents_path, Proxy, ProxyView};
use crate::text::str_equals;

verus! {

/// The flags of files added to the document store.
#[derive(Debug, Clone, Copy, PartialEq, Eq, Structural)]
pub enum DocumentFlags {
    /// Reuse the existing document store entry for the file.
    ReuseExisting,
    /// Persistent file.
    Persistent,
    /// Depends on the application needs.
    AsNeededByApp,
    /// Export a directory.
    ExportDirectory,
}

/// The bit that stands for a [`DocumentFlags`].
pub open spec fn document_flags_bit(x: DocumentFlags) -> u32 {
    match x {
        DocumentFlags::ReuseExisting => 1,
        DocumentFlags::Persistent => 2,
        DocumentFlags::AsNeededByApp => 4,
        DocumentFlags::ExportDirectory => 8,
    }
}

/// What `document_flags_bit` gives, value by value, each different from the others:
/// ReuseExisting is 1; Persistent is 2; AsNeededByApp is 4; ExportDirectory is 8.
pub proof fn lemma_document_flags_bit_values(x: DocumentFlags)
    ensures
        (document_flags_bit(x) == 1) == (x is ReuseExisting),
        (document_flags_bit(x) == 2) == (x is Persistent),
        (document_flags_bit(x) == 4) == (x is AsNeededByApp),
        (document_flags_bit(x) == 8) == (x is ExportDirectory),
{
}

impl DocumentFlags {
    /// The bit that stands for the value.
    pub fn bits(self) -> (b: u32)
        ensures
            b == document_flags_bit(self),
    {
        match self {
            DocumentFlags::ReuseExisting => 1,
            DocumentFlags::Persistent => 2,
            DocumentFlags::AsNeededByApp => 4,
            DocumentFlags::ExportDirectory => 8,
        }
    }

    /// The value that a single bit stands for.
    pub fn from_bit(bit: u32) -> (x: Option<DocumentFlags>)
        ensures
            match x {
                Some(v) => document_flags_bit(v) == bit,
                None => bit != 1 && bit != 2 && bit != 4 && bit != 8,
            },
    {
        if bit == 1 {
            Some(DocumentFlags::ReuseExisting)
        } else if bit == 2 {
            Some(DocumentFlags::Persistent)
        } else if bit == 4 {
            Some(DocumentFlags::AsNeededByApp)
        } else if bit == 8 {
            Some(DocumentFlags::ExportDirectory)
        } else {
            None
        }
    }

    /// The bits of all values.
    pub fn all_bits() -> (b: u32)
        ensures
            b == 15,
    {
        15
    }
}

/// The possible permissions to grant to a specific application for a specific document.
#[derive(Debug, Clone, Copy, PartialEq, Eq, Structural)]
pub enum Permission {
    /// Read access.
    Read,
    /// Write access.
    Write,
    /// The possibility to grant new permissions to the file.
    GrantPermissions,
    /// Delete access.
    Delete,
}

/// The name under which a [`Permission`] is shown.
pub open spec fn permission_text(x: Permission) -> Seq<char> {
    match x {
        Permission::Read => "Read"@,
        Permission::Write => "Write"@,
        Permission::GrantPermissions => "Grant Permissions"@,
        Permission::Delete => "Delete"@,
    }
}

/// What `permission_text` gives, value by value, each different from the others:
/// Read is "Read"; Write is "Write"; GrantPermissions is "Grant Permissions"; Delete is "Delete".
pub proof fn lemma_permission_text_values(x: Permission)
    ensures
        (permission_text(x) == "Read"@) == (x is Read),
        (permission_text(x) == "Write"@) == (x is Write),
        (permission_text(x) == "Grant Permissions"@) == (x is GrantPermissions),
        (permission_text(x) == "Delete"@) == (x is Delete),
{
    reveal_strlit("Delete");
    reveal_strlit("Grant Permissions");
    reveal_strlit("Read");
    reveal_strlit("Write");
    assert("Delete"@.len() != "Grant Permissions"@.len());
    assert("Delete"@.len() != "Read"@.len());
    assert("Delete"@.len() != "Write"@.len());
    assert("Grant Permissions"@.len() != "Read"@.len());
    assert("Grant Permissions"@.len() != "Write"@.len());
    assert("Read"@.len() != "Write"@.len());
}

/// The name of a [`Permission`] on the bus.
pub open spec fn permission_wire(x: Permission) -> Seq<char> {
    match x {
        Permission::Read => "read"@,
        Permission::Write => "write"@,
        Permission::GrantPermissions => "grant-permissions"@,
        Permission::Delete => "delete"@,
    }
}

/// What `permission_wire` gives, value by value, each different from the others:
/// Read is "read"; Write is "write"; GrantPermissions is "grant-permissions"; Delete is "delete".
pub proof fn lemma_permission_wire_values(x: Permission)
    ensures
        (permission_wire(x) == "read"@) == (x is Read),
        (permission_wire(x) == "write"@) == (x is Write),
        (permission_wire(x) == "grant-permissions"@) == (x is GrantPermissions),
        (permission_wire(x) == "delete"@) == (x is Delete),
{
    reveal_strlit("delete");
    reveal_strlit("grant-permissions");
    reveal_strlit("read");
    reveal_strlit("write");
    assert("delete"@.len() != "grant-permissions"@.len());
    assert("delete"@.len() != "read"@.len());
    assert("delete"@.len() != "write"@.len());
    assert("grant-permissions"@.len() != "read"@.len());
    assert("grant-permissions"@.len() != "write"@.len());
    assert("read"@.len() != "write"@.len());
}

/// The [`Permission`] that a text names, if any.
pub open spec fn parse_permission(s: Seq<char>) -> Option<Permission> {
    if s == "Read"@ || s == "read"@ {
        Some(Permission::Read)
    } else if s == "Write"@ || s == "write"@ {
        Some(Permission::Write)
    } else if s == "GrantPermissions"@ || s == "grant-permissions"@ {
        Some(Permission::GrantPermissions)
    } else if s == "Delete"@ || s == "delete"@ {
        Some(Permission::Delete)
    } else {
        None
    }
}

/// Which text names which `Permission`: each value is named by its name as a
/// word and by its name on the bus, and no other text names one.
pub proof fn lemma_parse_permission_names(s: Seq<char>)
    ensures
        (parse_permission(s) == Some(Permission::Read)) == (s == "Read"@ || s == "read"@),
        (parse_permission(s) == Some(Permission::Write)) == (s == "Write"@ || s == "write"@),
        (parse_permission(s) == Some(Permission::GrantPermissions)) == (s == "GrantPermissions"@ || s == "grant-permissions"@),
        (parse_permission(s) == Some(Permission::Delete)) == (s == "Delete"@ || s == "delete"@),
{
    reveal_strlit("Read");
    reveal_strlit("read");
    reveal_strlit("Write");
    reveal_strlit("write");
    reveal_strlit("GrantPermissions");
    reveal_strlit("grant-permissions");
    reveal_strlit("Delete");
    reveal_strlit("delete");
    assert("Read"@[0] != "read"@[0]);
    assert("Read"@.len() != "Write"@.len());
    assert("Read"@.len() != "write"@.len());
    assert("Read"@.len() != "GrantPermissions"@.len());
    assert("Read"@.len() != "grant-permissions"@.len());
    assert("Read"@.len() != "Delete"@.len());
    assert("Read"@.len() != "delete"@.len());
    assert("read"@.len() != "Write"@.len());
    assert("read"@.len() != "write"@.len());
    assert("read"@.len() != "GrantPermissions"@.len());
    assert("read"@.len() != "grant-permissions"@.len());
    assert("read"@.len() != "Delete"@.len());
    assert("read"@.len() != "delete"@.len());
    assert("Write"@[0] != "write"@[0]);
    assert("Write"@.len() != "GrantPermissions"@.len());
    assert("Write"@.len() != "grant-permissions"@.len());
    assert("Write"@.len() != "Delete"@.len());
    assert("Write"@.len() != "delete"@.len());
    assert("write"@.len() != "GrantPermissions"@.len());
    assert("write"@.len() != "grant-permissions"@.len());
    assert("write"@.len() != "Delete"@.len());
    assert("write"@.len() != "delete"@.len());
    assert("GrantPermissions"@.len() != "grant-permissions"@.len());
    assert("GrantPermissions"@.len() != "Delete"@.len());
    assert("GrantPermissions"@.len() != "delete"@.len());
    assert("grant-permissions"@.len() != "Delete"@.len());
    assert("grant-permissions"@.len() != "delete"@.len());
    assert("Delete"@[0] != "delete"@[0]);}

/// The message of the error that an unknown [`Permission`] name gives.
pub open spec fn permission_parse_message() -> Seq<char> {
    "Failed to parse priority, invalid value"@
}

impl Permission {
    /// The name under which the value is shown.
    pub fn as_str(&self) -> (s: &'static str)
        ensures
            s@ == permission_text(*self),
    {
        match self {
            Permission::Read => "Read",
            Permission::Write => "Write",
            Permission::GrantPermissions => "Grant Permissions",
            Permission::Delete => "Delete",
        }
    }

    /// The name of the value on the bus.
    pub fn wire_name(&self) -> (s: &'static str)
        ensures
            s@ == permission_wire(*self),
    {
        match self {
            Permission::Read => "read",
            Permission::Write => "write",
            Permission::GrantPermissions => "grant-permissions",
            Permission::Delete => "delete",
        }
    }

    /// The value that a text names; a parse error for any other text.
    pub fn from_str(s: &str) -> (r: Result<Permission, AshpdError>)
        ensures
            match r {
                Ok(x) => parse_permission(s@) == Some(x),
                Err(e) => parse_permission(s@) is None && (e matches AshpdError::ParseError(m) && m@
                    == permission_parse_message()),
            },
    {
        if str_equals(s, "Read") || str_equals(s, "read") {
            Ok(Permission::Read)
        } else if str_equals(s, "Write") || str_equals(s, "write") {
            Ok(Permission::Write)
        } else if str_equals(s, "GrantPermissions") || str_equals(s, "grant-permissions") {
            Ok(Permission::GrantPermissions)
        } else if str_equals(s, "Delete") || str_equals(s, "delete") {
            Ok(Permission::Delete)
        } else {
            Err(AshpdError::ParseError("Failed to parse priority, invalid value"))
        }
    }
}

/// Parsing the name of a value on the bus gives the value back.
pub proof fn lemma_permission_wire_round_trip(x: Permission)
    ensures
        parse_permission(permission_wire(x)) == Some(x),
{
    reveal_strlit("Read");
    reveal_strlit("read");
    reveal_strlit("Write");
    reveal_strlit("write");
    reveal_strlit("Grant Permissions");
    reveal_strlit("grant-permissions");
    reveal_strlit("GrantPermissions");
    reveal_strlit("Delete");
    reveal_strlit("delete");
    assert("write"@.len() == 5 && "Read"@.len() == 4);
    assert("write"@ != "Read"@);
    assert("write"@.len() == 5 && "read"@.len() == 4);
    assert("write"@ != "read"@);
    assert("grant-permissions"@.len() == 17 && "Read"@.len() == 4);
    assert("grant-permissions"@ != "Read"@);
    assert("grant-permissions"@.len() == 17 && "read"@.len() == 4);
    assert("grant-permissions"@ != "read"@);
    assert("grant-permissions"@.len() == 17 && "Write"@.len() == 5);
    assert("grant-permissions"@ != "Write"@);
    assert("grant-permissions"@.len() == 17 && "write"@.len() == 5);
    assert("grant-permissions"@ != "write"@);
    assert("delete"@.len() == 6 && "Read"@.len() == 4);
    assert("delete"@ != "Read"@);
    assert("delete"@.len() == 6 && "read"@.len() == 4);
    assert("delete"@ != "read"@);
    assert("delete"@.len() == 6 && "Write"@.len() == 5);
    assert("delete"@ != "Write"@);
    assert("delete"@.len() == 6 && "write"@.len() == 5);
    assert("delete"@ != "write"@);
    assert("delete"@.len() == 6 && "GrantPermissions"@.len() == 16);
    assert("delete"@ != "GrantPermissions"@);
    assert("delete"@.len() == 6 && "grant-permissions"@.len() == 17);
    assert("delete"@ != "grant-permissions"@);
}

/// Parsing the name under which a value is shown gives the value back, for
/// the values whose shown name is one the parser takes.
pub proof fn lemma_permission_text_round_trip(x: Permission)
    requires
        x != Permission::GrantPermissions,
    ensures
        parse_permission(permission_text(x)) == Some(x),
{
    reveal_strlit("Read");
    reveal_strlit("read");
    reveal_strlit("Write");
    reveal_strlit("write");
    reveal_strlit("Grant Permissions");
    reveal_strlit("grant-permissions");
    reveal_strlit("GrantPermissions");
    reveal_strlit("Delete");
    reveal_strlit("delete");
    assert("Write"@.len() == 5 && "Read"@.len() == 4);
    assert("Write"@ != "Read"@);
    assert("Write"@.len() == 5 && "read"@.len() == 4);
    assert("Write"@ != "read"@);
    assert("Grant Permissions"@.len() == 17 && "Read"@.len() == 4);
    assert("Grant Permissions"@ != "Read"@);
    assert("Grant Permissions"@.len() == 17 && "read"@.len() == 4);
    assert("Grant Permissions"@ != "read"@);
    assert("Grant Permissions"@.len() == 17 && "Write"@.len() == 5);
    assert("Grant Permissions"@ != "Write"@);
    assert("Grant Permissions"@.len() == 17 && "write"@.len() == 5);
    assert("Grant Permissions"@ != "write"@);
    assert("Delete"@.len() == 6 && "Read"@.len() == 4);
    assert("Delete"@ != "Read"@);
    assert("Delete"@.len() == 6 && "read"@.len() == 4);
    assert("Delete"@ != "read"@);
    assert("Delete"@.len() == 6 && "Write"@.len() == 5);
    assert("Delete"@ != "Write"@);
    assert("Delete"@.len() == 6 && "write"@.len() == 5);
    assert("Delete"@ != "write"@);
    assert("Delete"@.len() == 6 && "GrantPermissions"@.len() == 16);
    assert("Delete"@ != "GrantPermissions"@);
    assert("Delete"@.len() == 6 && "grant-permissions"@.len() == 17);
    assert("Delete"@ != "grant-permissions"@);
}

/// The document store.
///
/// Wrapper of the DBus interface `org.freedesktop.portal.Documents`.
#[derive(Debug)]
pub struct Documents {
    proxy: Proxy,
}

impl View for Documents {
    type V = ProxyView;

    closed spec fn view(&self) -> ProxyView {
        self.proxy@
    }
}

impl Documents {
    /// The portal, which implements the given version of its interface.
    pub fn new(version: u32) -> (p: Documents)
        ensures
            p@.destination == documents_destination(),
            p@.interface == "org.freedesktop.portal.Documents"@,
            p@.path == documents_path(),
            p@.version == version,
    {
        Documents { proxy: Proxy::new_documents("org.freedesktop.portal.Documents", version) }
    }

    /// Where the portal's calls go.
    pub fn inner(&self) -> (p: &Proxy)
        ensures
            p@ == self@,
    {
        &self.proxy
    }
}

/// The application ID as the document store takes it: the empty text for
/// no application.
pub fn app_id_or_empty(app_id: &Option<AppID>) -> (s: &str)
    ensures
        s@ == match app_id {
            Some(a) => a@,
            None => Seq::<char>::empty(),
        },
{
    match app_id {
        Some(a) => a.as_str(),
        None => {
            proof {
                reveal_strlit("");
            }
            ""
        },
    }
}

/// The document that a lookup answer names: none where the answer is the
/// empty text.
pub fn lookup_result(doc_id: String) -> (d: Option<DocumentID>)
    ensures
        match d {
            Some(x) => x@ == doc_id@ && doc_id@.len() > 0,
            None => doc_id@.len() == 0,
        },
{
    if doc_id.as_str().is_empty() {
        None
    } else {
        Some(DocumentID::from_string(doc_id))
    }
}

/// The options of a request to start a file transfer.
#[derive(Debug)]
pub struct TransferOptions {
    writeable: Option<bool>,
    auto_stop: Option<bool>,
}

impl View for TransferOptions {
    type V = (Option<bool>, Option<bool>);

    closed spec fn view(&self) -> (Option<bool>, Option<bool>) {
        (self.writeable, self.auto_stop)
    }
}

impl TransferOptions {
    /// Options with nothing set.
    pub fn default() -> (o: TransferOptions)
        ensures
            o@ == (None::<bool>, None::<bool>),
    {
        TransferOptions { writeable: None, auto_stop: None }
    }

    /// Sets whether the chosen application can write to the files or not.
    pub fn writeable(self, writeable: Option<bool>) -> (o: TransferOptions)
        ensures
            o@ == (writeable, self@.1),
    {
        let mut o = self;
        o.writeable = writeable;
        o
    }

    /// Sets whether to stop the transfer automatically after the first
    /// retrieve call.
    pub fn auto_stop(self, auto_stop: Option<bool>) -> (o: TransferOptions)
        ensures
            o@ == (self@.0, auto_stop),
    {
        let mut o = self;
        o.auto_stop = auto_stop;
        o
    }

    /// Whether the files can be written, if that was set.
    pub fn is_writeable(&self) -> (b: Option<bool>)
        ensures
            b == self@.0,
    {
        self.writeable
    }

    /// Whether the transfer stops after the first retrieve call, if that was
    /// set.
    pub fn is_auto_stop(&self) -> (b: Option<bool>)
        ensures
            b == self@.1,
    {
        self.auto_stop
    }
}

/// Transfer files between applications.
///
/// Wrapper of the DBus interface `org.freedesktop.portal.FileTransfer`.
#[derive(Debug)]
pub struct FileTransfer {
    proxy: Proxy,
}

impl View for FileTransfer {
    type V = ProxyView;

    closed spec fn view(&self) -> ProxyView {
        self.proxy@
    }
}

impl FileTransfer {
    /// The portal, which implements the given version of its interface.
    pub fn new(version: u32) -> (p: FileTransfer)
        ensures
            p@.destination == documents_destination(),
            p@.interface == "org.freedesktop.portal.FileTransfer"@,
            p@.path == documents_path(),
            p@.version == version,
    {
        FileTransfer { proxy: Proxy::new_documents("org.freedesktop.portal.FileTransfer", version) }
    }

    /// Where the portal's calls go.
    pub fn inner(&self) -> (p: &Proxy)
        ensures
            p@ == self@,
    {
        &self.proxy
    }
}

impl FileTransfer {
    /// The options of a request to start a transfer: both settings, set.
    pub fn start_transfer_options(writeable: bool, auto_stop: bool) -> (o: TransferOptions)
        ensures
            o@ == (Some(writeable), Some(auto_stop)),
    {
        TransferOptions::default().writeable(Some(writeable)).auto_stop(Some(auto_stop))
    }
}

} // verus!
