//! The Flatpak portal: sandbox and spawn flags, the options of a spawned
//! process, and the updates of an application.

use vstd::prelude::*;
use crate::file_chooser::{nul_terminated, terminate_all, no_nul, all_no_nul, bytes_view};
use crate::proxy::{Proxy, ProxyView};
use crate::text::owned;

verus! {

/// The flags of a sandboxed process.
#[derive(Debug, Clone, Copy, PartialEq, Eq, Structural)]
pub enum SandboxFlags {
    /// Share the display access (X11, Wayland) with the caller.
    DisplayAccess,
    /// Share the sound access (PulseAudio) with the caller.
    SoundAccess,
    /// Share the GPU access with the caller.
    GpuAccess,
    /// Allow sandbox access to (filtered) session bus.
    SessionBusAccess,
    /// Allow sandbox access to accessibility bus.
    AccessibilityBusAccess,
}

/// The bit that stands for a [`SandboxFlags`].
pub open spec fn sandbox_flags_bit(x: SandboxFlags) -> u32 {
    match x {
        SandboxFlags::DisplayAccess => 1,
        SandboxFlags::SoundAccess => 2,
        SandboxFlags::GpuAccess => 4,
        SandboxFlags::SessionBusAccess => 8,
        SandboxFlags::AccessibilityBusAccess => 16,
    }
}

/// What `sandbox_flags_bit` gives, value by value, each different from the others:
/// DisplayAccess is 1; SoundAccess is 2; GpuAccess is 4; SessionBusAccess is 8; AccessibilityBusAccess is 16.
pub proof fn lemma_sandbox_flags_bit_values(x: SandboxFlags)
    ensures
        (sandbox_flags_bit(x) == 1) == (x is DisplayAccess),
        (sandbox_flags_bit(x) == 2) == (x is SoundAccess),
        (sandbox_flags_bit(x) == 4) == (x is GpuAccess),
        (sandbox_flags_bit(x) == 8) == (x is SessionBusAccess),
        (sandbox_flags_bit(x) == 16) == (x is AccessibilityBusAccess),
{
}

impl SandboxFlags {
    /// The bit that stands for the value.
    pub fn bits(self) -> (b: u32)
        ensures
            b == sandbox_flags_bit(self),
    {
        match self {
            SandboxFlags::DisplayAccess => 1,
            SandboxFlags::SoundAccess => 2,
            SandboxFlags::GpuAccess => 4,
            SandboxFlags::SessionBusAccess => 8,
            SandboxFlags::AccessibilityBusAccess => 16,
        }
    }

    /// The value that a single bit stands for.
    pub fn from_bit(bit: u32) -> (x: Option<SandboxFlags>)
        ensures
            match x {
                Some(v) => sandbox_flags_bit(v) == bit,
                None => bit != 1 && bit != 2 && bit != 4 && bit != 8 && bit != 16,
            },
    {
        if bit == 1 {
            Some(SandboxFlags::DisplayAccess)
        } else if bit == 2 {
            Some(SandboxFlags::SoundAccess)
        } else if bit == 4 {
            Some(SandboxFlags::GpuAccess)
        } else if bit == 8 {
            Some(SandboxFlags::SessionBusAccess)
        } else if bit == 16 {
            Some(SandboxFlags::AccessibilityBusAccess)
        } else {
            None
        }
    }

    /// The bits of all values.
    pub fn all_bits() -> (b: u32)
        ensures
            b == 31,
    {
        31
    }
}

/// The flags of a spawned process.
#[derive(Debug, Clone, Copy, PartialEq, Eq, Structural)]
pub enum SpawnFlags {
    /// Clear the environment.
    ClearEnv,
    /// Spawn the latest version of the app.
    Latest,
    /// Spawn in a sandbox (equivalent to the sandbox option of flatpak run).
    Sandbox,
    /// Spawn without network (equivalent to the unshare=network option of flatpak run).
    NoNetwork,
    /// Kill the sandbox when the caller disappears from the session bus.
    Kill,
    /// Expose the sandbox pids in the callers sandbox, only supported if using user namespaces for containers (not setuid).
    Expose,
    /// Emit a SpawnStarted signal once the sandboxed process has been fully started.
    Emit,
}

/// The bit that stands for a [`SpawnFlags`].
pub open spec fn spawn_flags_bit(x: SpawnFlags) -> u32 {
    match x {
        SpawnFlags::ClearEnv => 1,
        SpawnFlags::Latest => 2,
        SpawnFlags::Sandbox => 4,
        SpawnFlags::NoNetwork => 8,
        SpawnFlags::Kill => 16,
        SpawnFlags::Expose => 32,
        SpawnFlags::Emit => 64,
    }
}

/// What `spawn_flags_bit` gives, value by value, each different from the others:
/// ClearEnv is 1; Latest is 2; Sandbox is 4; NoNetwork is 8; Kill is 16; Expose is 32; Emit is 64.
pub proof fn lemma_spawn_flags_bit_values(x: SpawnFlags)
    ensures
        (spawn_flags_bit(x) == 1) == (x is ClearEnv),
        (spawn_flags_bit(x) == 2) == (x is Latest),
        (spawn_flags_bit(x) == 4) == (x is Sandbox),
        (spawn_flags_bit(x) == 8) == (x is NoNetwork),
        (spawn_flags_bit(x) == 16) == (x is Kill),
        (spawn_flags_bit(x) == 32) == (x is Expose),
        (spawn_flags_bit(x) == 64) == (x is Emit),
{
}

impl SpawnFlags {
    /// The bit that stands for the value.
    pub fn bits(self) -> (b: u32)
        ensures
            b == spawn_flags_bit(self),
    {
        match self {
            SpawnFlags::ClearEnv => 1,
            SpawnFlags::Latest => 2,
            SpawnFlags::Sandbox => 4,
            SpawnFlags::NoNetwork => 8,
            SpawnFlags::Kill => 16,
            SpawnFlags::Expose => 32,
            SpawnFlags::Emit => 64,
        }
    }

    /// The value that a single bit stands for.
    pub fn from_bit(bit: u32) -> (x: Option<SpawnFlags>)
        ensures
            match x {
                Some(v) => spawn_flags_bit(v) == bit,
                None => bit != 1 && bit != 2 && bit != 4 && bit != 8 && bit != 16 && bit != 32 && bit != 64,
            },
    {
        if bit == 1 {
            Some(SpawnFlags::ClearEnv)
        } else if bit == 2 {
            Some(SpawnFlags::Latest)
        } else if bit == 4 {
            Some(SpawnFlags::Sandbox)
        } else if bit == 8 {
            Some(SpawnFlags::NoNetwork)
        } else if bit == 16 {
            Some(SpawnFlags::Kill)
        } else if bit == 32 {
            Some(SpawnFlags::Expose)
        } else if bit == 64 {
            Some(SpawnFlags::Emit)
        } else {
            None
        }
    }

    /// The bits of all values.
    pub fn all_bits() -> (b: u32)
        ensures
            b == 127,
    {
        127
    }
}

/// The features the Flatpak portal supports.
#[derive(Debug, Clone, Copy, PartialEq, Eq, Structural)]
pub enum SupportsFlags {
    /// Supports the expose sandbox pids flag of Spawn.
    ExposePids,
}

/// The bit that stands for a [`SupportsFlags`].
pub open spec fn supports_flags_bit(x: SupportsFlags) -> u32 {
    match x {
        SupportsFlags::ExposePids => 1,
    }
}

/// What `supports_flags_bit` gives, value by value, each different from the others:
/// ExposePids is 1.
pub proof fn lemma_supports_flags_bit_values(x: SupportsFlags)
    ensures
        (supports_flags_bit(x) == 1) == (x is ExposePids),
{
}

impl SupportsFlags {
    /// The bit that stands for the value.
    pub fn bits(self) -> (b: u32)
        ensures
            b == supports_flags_bit(self),
    {
        match self {
            SupportsFlags::ExposePids => 1,
        }
    }

    /// The value that a single bit stands for.
    pub fn from_bit(bit: u32) -> (x: Option<SupportsFlags>)
        ensures
            match x {
                Some(v) => supports_flags_bit(v) == bit,
                None => bit != 1,
            },
    {
        if bit == 1 {
            Some(SupportsFlags::ExposePids)
        } else {
            None
        }
    }

    /// The bits of all values.
    pub fn all_bits() -> (b: u32)
        ensures
            b == 1,
    {
        1
    }
}

/// A copy of a list of strings.
fn copy_texts(v: &[&str]) -> (r: Vec<String>)
    ensures
        r@.len() == v@.len(),
        forall|i: int| 0 <= i < v@.len() ==> (#[trigger] r@[i])@ == v@[i]@,
{
    let mut r: Vec<String> = Vec::new();
    let mut i: usize = 0;
    while i < v.len()
        invariant
            i <= v@.len(),
            r@.len() == i,
            forall|j: int| 0 <= j < i ==> (#[trigger] r@[j])@ == v@[j]@,
        decreases v@.len() - i,
    {
        r.push(owned(v[i]));
        i = i + 1;
    }
    r
}

/// The texts of a list of strings.
pub open spec fn strs_view(v: Seq<&str>) -> Seq<Seq<char>> {
    v.map_values(|s: &str| s@)
}

/// The texts of a list of owned strings.
pub open spec fn strings_view(v: Seq<String>) -> Seq<Seq<char>> {
    v.map_values(|s: String| s@)
}

/// Specified options for spawning a process.
#[derive(Debug)]
pub struct SpawnOptions {
    sandbox_expose: Option<Vec<String>>,
    sandbox_expose_ro: Option<Vec<String>>,
    sandbox_expose_fd: Option<Vec<i32>>,
    sandbox_expose_fd_ro: Option<Vec<i32>>,
    sandbox_flags: Option<u32>,
}

/// The model of a [`SpawnOptions`].
pub struct SpawnOptionsView {
    pub sandbox_expose: Option<Seq<Seq<char>>>,
    pub sandbox_expose_ro: Option<Seq<Seq<char>>>,
    pub sandbox_expose_fd: Option<Seq<i32>>,
    pub sandbox_expose_fd_ro: Option<Seq<i32>>,
    pub sandbox_flags: Option<u32>,
}

impl View for SpawnOptions {
    type V = SpawnOptionsView;

    closed spec fn view(&self) -> SpawnOptionsView {
        SpawnOptionsView {
            sandbox_expose: match self.sandbox_expose {
                Some(v) => Some(strings_view(v@)),
                None => None,
            },
            sandbox_expose_ro: match self.sandbox_expose_ro {
                Some(v) => Some(strings_view(v@)),
                None => None,
            },
            sandbox_expose_fd: match self.sandbox_expose_fd {
                Some(v) => Some(v@),
                None => None,
            },
            sandbox_expose_fd_ro: match self.sandbox_expose_fd_ro {
                Some(v) => Some(v@),
                None => None,
            },
            sandbox_flags: self.sandbox_flags,
        }
    }
}

impl SpawnOptions {
    /// Options with nothing set.
    pub fn default() -> (o: SpawnOptions)
        ensures
            o@.sandbox_expose is None,
            o@.sandbox_expose_ro is None,
            o@.sandbox_expose_fd is None,
            o@.sandbox_expose_fd_ro is None,
            o@.sandbox_flags is None,
    {
        SpawnOptions {
            sandbox_expose: None,
            sandbox_expose_ro: None,
            sandbox_expose_fd: None,
            sandbox_expose_fd_ro: None,
            sandbox_flags: None,
        }
    }

    /// Sets the files to expose to the sandbox, read-write.
    pub fn sandbox_expose(self, sandbox_expose: &[&str]) -> (o: SpawnOptions)
        ensures
            o@ == (SpawnOptionsView { sandbox_expose: Some(strs_view(sandbox_expose@)), ..self@ }),
    {
        let mut o = self;
        let v = copy_texts(sandbox_expose);
        assert(strings_view(v@) =~= strs_view(sandbox_expose@));
        o.sandbox_expose = Some(v);
        o
    }

    /// Sets the files to expose to the sandbox, read-only.
    pub fn sandbox_expose_ro(self, sandbox_expose_ro: &[&str]) -> (o: SpawnOptions)
        ensures
            o@ == (SpawnOptionsView { sandbox_expose_ro: Some(strs_view(sandbox_expose_ro@)), ..self@ }),
    {
        let mut o = self;
        let v = copy_texts(sandbox_expose_ro);
        assert(strings_view(v@) =~= strs_view(sandbox_expose_ro@));
        o.sandbox_expose_ro = Some(v);
        o
    }

    /// Sets the file descriptors of the files to expose, read-write.
    pub fn sandbox_expose_fd(self, sandbox_expose_fd: Vec<i32>) -> (o: SpawnOptions)
        ensures
            o@ == (SpawnOptionsView { sandbox_expose_fd: Some(sandbox_expose_fd@), ..self@ }),
    {
        let mut o = self;
        o.sandbox_expose_fd = Some(sandbox_expose_fd);
        o
    }

    /// Sets the file descriptors of the files to expose, read-only.
    pub fn sandbox_expose_fd_ro(self, sandbox_expose_fd_ro: Vec<i32>) -> (o: SpawnOptions)
        ensures
            o@ == (SpawnOptionsView { sandbox_expose_fd_ro: Some(sandbox_expose_fd_ro@), ..self@ }),
    {
        let mut o = self;
        o.sandbox_expose_fd_ro = Some(sandbox_expose_fd_ro);
        o
    }

    /// Sets the sandbox flags, as [`SandboxFlags`] bits.
    pub fn sandbox_flags(self, sandbox_flags: u32) -> (o: SpawnOptions)
        ensures
            o@ == (SpawnOptionsView { sandbox_flags: Some(sandbox_flags), ..self@ }),
    {
        let mut o = self;
        o.sandbox_flags = Some(sandbox_flags);
        o
    }
}

/// The working directory and arguments of a process to spawn, as the portal
/// takes them: each as its bytes and a closing nul byte. A path or argument
/// that holds a nul byte is outside the contract.
pub fn spawn_arguments(cwd_path: &[u8], argv: &Vec<Vec<u8>>) -> (r: (Vec<u8>, Vec<Vec<u8>>))
    requires
        no_nul(cwd_path@),
        all_no_nul(argv@),
    ensures
        r.0@ == cwd_path@.push(0u8),
        bytes_view(r.1@) == bytes_view(argv@).map_values(|p: Seq<u8>| p.push(0u8)),
{
    (nul_terminated(cwd_path), terminate_all(argv))
}

/// The status of an update.
#[derive(Debug, Clone, Copy, PartialEq, Eq, Structural)]
pub enum UpdateStatus {
    /// Running.
    Running,
    /// No update to install.
    Empty,
    /// Done.
    Done,
    /// Failed.
    Failed,
}

/// The number that stands for a [`UpdateStatus`] on the bus.
pub open spec fn update_status_code(x: UpdateStatus) -> u32 {
    match x {
        UpdateStatus::Running => 0,
        UpdateStatus::Empty => 1,
        UpdateStatus::Done => 2,
        UpdateStatus::Failed => 3,
    }
}

/// What `update_status_code` gives, value by value, each different from the others:
/// Running is 0; Empty is 1; Done is 2; Failed is 3.
pub proof fn lemma_update_status_code_values(x: UpdateStatus)
    ensures
        (update_status_code(x) == 0) == (x is Running),
        (update_status_code(x) == 1) == (x is Empty),
        (update_status_code(x) == 2) == (x is Done),
        (update_status_code(x) == 3) == (x is Failed),
{
}

impl UpdateStatus {
    /// The number that stands for the value on the bus.
    pub fn code(self) -> (n: u32)
        ensures
            n == update_status_code(self),
    {
        match self {
            UpdateStatus::Running => 0,
            UpdateStatus::Empty => 1,
            UpdateStatus::Done => 2,
            UpdateStatus::Failed => 3,
        }
    }

    /// The value that a number stands for on the bus.
    pub fn from_code(n: u32) -> (x: Option<UpdateStatus>)
        ensures
            match x {
                Some(v) => update_status_code(v) == n,
                None => n != 0 && n != 1 && n != 2 && n != 3,
            },
    {
        if n == 0 {
            Some(UpdateStatus::Running)
        } else if n == 1 {
            Some(UpdateStatus::Empty)
        } else if n == 2 {
            Some(UpdateStatus::Done)
        } else if n == 3 {
            Some(UpdateStatus::Failed)
        } else {
            None
        }
    }
}

/// Decoding the number of a value gives the value back.
pub proof fn lemma_update_status_code_round_trip(x: UpdateStatus)
    ensures
        forall|y: UpdateStatus| update_status_code(y) == update_status_code(x) ==> y == x,
{
}

/// The commits involved in an available update.
#[derive(Debug)]
pub struct UpdateInfo {
    /// The currently running OSTree commit.
    pub running_commit: String,
    /// The locally installed OSTree commit.
    pub local_commit: String,
    /// The available OSTree commit.
    pub remote_commit: String,
}

/// The progress of an update.
#[derive(Debug)]
pub struct UpdateProgress {
    /// The number of operations that the update consists of.
    pub n_ops: Option<u32>,
    /// The position of the currently active operation.
    pub op: Option<u32>,
    /// The progress of the currently active operation, as a number between
    /// 0 and 100.
    pub progress: Option<u32>,
    /// The overall status of the update.
    pub status: Option<UpdateStatus>,
    /// The error name, sent when status is `UpdateStatus::Failed`.
    pub error: Option<String>,
    /// The error message, sent when status is `UpdateStatus::Failed`.
    pub error_message: Option<String>,
}

/// The Flatpak portal.
///
/// Wrapper of the DBus interface `org.freedesktop.portal.Flatpak`, served by
/// `org.freedesktop.portal.Flatpak` at `/org/freedesktop/portal/Flatpak`.
#[derive(Debug)]
pub struct FlatpakProxy {
    proxy: Proxy,
}

impl View for FlatpakProxy {
    type V = ProxyView;

    closed spec fn view(&self) -> ProxyView {
        self.proxy@
    }
}

impl FlatpakProxy {
    /// The portal, which implements the given version of its interface.
    pub fn new(version: u32) -> (p: FlatpakProxy)
        ensures
            p@.destination == "org.freedesktop.portal.Flatpak"@,
            p@.path == "/org/freedesktop/portal/Flatpak"@,
            p@.interface == "org.freedesktop.portal.Flatpak"@,
            p@.version == version,
    {
        FlatpakProxy {
            proxy: Proxy::new(
                "org.freedesktop.portal.Flatpak",
                "/org/freedesktop/portal/Flatpak",
                "org.freedesktop.portal.Flatpak",
                version,
            ),
        }
    }

    /// Where the portal's calls go.
    pub fn inner(&self) -> (p: &Proxy)
        ensures
            p@ == self@,
    {
        &self.proxy
    }
}

/// The monitor of the updates of the running application.
///
/// Wrapper of the DBus interface `org.freedesktop.portal.UpdateMonitor`,
/// served by `org.freedesktop.portal.Flatpak.UpdateMonitor`.
#[derive(Debug)]
pub struct UpdateMonitorProxy {
    proxy: Proxy,
}

impl View for UpdateMonitorProxy {
    type V = ProxyView;

    closed spec fn view(&self) -> ProxyView {
        self.proxy@
    }
}

impl UpdateMonitorProxy {
    /// The monitor at `path`, which implements the given version of its
    /// interface.
    pub fn new(path: &str, version: u32) -> (p: UpdateMonitorProxy)
        ensures
            p@.destination == "org.freedesktop.portal.Flatpak.UpdateMonitor"@,
            p@.path == path@,
            p@.interface == "org.freedesktop.portal.UpdateMonitor"@,
            p@.version == version,
    {
        UpdateMonitorProxy {
            proxy: Proxy::new(
                "org.freedesktop.portal.Flatpak.UpdateMonitor",
                path,
                "org.freedesktop.portal.UpdateMonitor",
                version,
            ),
        }
    }

    /// Where the monitor's calls go.
    pub fn inner(&self) -> (p: &Proxy)
        ensures
            p@ == self@,
    {
        &self.proxy
    }
}

} // verus!
