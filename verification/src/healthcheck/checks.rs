//! All checks of the host.
//!
//! Looking for programs, binding ports and writing files is left to the
//! caller, who hands in what was observed.
use vstd::prelude::*;

use crate::healthcheck::gpu;
use crate::healthcheck::gpu::GpuObservations;
use crate::healthcheck::report;
use crate::healthcheck::report::{CheckOutcome, HealthReport, ReportValues};
use crate::scanner::common;
use crate::text;

verus! {

/// The report after the X11 server was looked for.
pub open spec fn after_xwayland(r: ReportValues, path: Option<Seq<char>>, ms: u64) -> ReportValues {
    match path {
        Some(p) => r.passed("Xwayland"@, p, ms),
        None => r.warned(
            "Xwayland"@,
            "  Xwayland not found in PATH.\n  Ubuntu: `sudo apt install xwayland`\n  Fedora: `sudo dnf install xorg-x11-server-Xwayland`\n  Arch: `sudo pacman -S xorg-x11-server`"@,
            ms,
        ),
    }
}

/// Notes whether the X11 server was found; see [`after_xwayland`].
pub fn check_xwayland(report: &mut HealthReport, path: &Option<String>, ms: u64)
    ensures
        final(report)@ == after_xwayland(old(report)@, common::maybe(*path), ms),
{
    match path {
        Some(p) => report.add_passed("Xwayland", p.clone(), ms),
        None => report.add_warn(
            "Xwayland",
            "  Xwayland not found in PATH.\n  Ubuntu: `sudo apt install xwayland`\n  Fedora: `sudo dnf install xorg-x11-server-Xwayland`\n  Arch: `sudo pacman -S xorg-x11-server`".to_owned(),
            ms,
        ),
    }
}

/// What came of connecting to the session bus.
#[derive(Debug)]
pub enum BusProbe {
    /// It answers; its address, where that is set.
    Connected(Option<String>),
    /// It does not, and why.
    Failed(String),
}

/// The report after the session bus was connected to.
pub open spec fn after_dbus(r: ReportValues, bus: BusProbe, ms: u64) -> ReportValues {
    match bus {
        BusProbe::Connected(address) => r.passed(
            "D-Bus"@,
            match address {
                Some(a) => a@,
                None => "unset"@,
            },
            ms,
        ),
        BusProbe::Failed(e) => r.failed(
            "D-Bus"@,
            "  Cannot connect to D-Bus session bus: "@ + e@
                + "\n  Ensure DBUS_SESSION_BUS_ADDRESS is set and a session bus is running.\n  Usually: export DBUS_SESSION_BUS_ADDRESS=unix:path=$XDG_RUNTIME_DIR/bus\n  For headless operation run: `sudo loginctl enable-linger $USER`"@,
            ms,
        ),
    }
}

/// Notes whether the session bus answers; see [`after_dbus`].
pub fn check_dbus(report: &mut HealthReport, bus: &BusProbe, ms: u64)
    ensures
        final(report)@ == after_dbus(old(report)@, *bus, ms),
{
    match bus {
        BusProbe::Connected(address) => {
            let shown = match address {
                Some(a) => a.clone(),
                None => "unset".to_owned(),
            };
            report.add_passed("D-Bus", shown, ms);
        },
        BusProbe::Failed(e) => {
            let mut message = text::joined("  Cannot connect to D-Bus session bus: ", e.as_str());
            message.append(
                "\n  Ensure DBUS_SESSION_BUS_ADDRESS is set and a session bus is running.\n  Usually: export DBUS_SESSION_BUS_ADDRESS=unix:path=$XDG_RUNTIME_DIR/bus\n  For headless operation run: `sudo loginctl enable-linger $USER`",
            );
            report.add_failed("D-Bus", message, ms);
        },
    }
}

/// What came of writing to the runtime directory.
#[derive(Debug)]
pub enum RuntimeProbe {
    /// It is not set.
    Unset,
    /// It is no directory.
    NotDirectory(String),
    /// It cannot be written to, and why.
    Unwritable {
        /// The directory.
        dir: String,
        /// Why.
        error: String,
    },
    /// It can be written to.
    Writable(String),
}

/// The report after the runtime directory was written to.
pub open spec fn after_runtime(r: ReportValues, runtime: RuntimeProbe, ms: u64) -> ReportValues {
    match runtime {
        RuntimeProbe::Unset => r.failed(
            "Runtime dir"@,
            "  XDG_RUNTIME_DIR is not set.\n  Set: export XDG_RUNTIME_DIR=/run/user/$(id -u)"@,
            ms,
        ),
        RuntimeProbe::NotDirectory(dir) => r.failed(
            "Runtime dir"@,
            "  XDG_RUNTIME_DIR ("@ + dir@
                + ") is not a directory.\n  Ensure XDG_RUNTIME_DIR points to a valid runtime directory:\n  export XDG_RUNTIME_DIR=/run/user/$(id -u)"@,
            ms,
        ),
        RuntimeProbe::Unwritable { dir, error } => r.failed(
            "Runtime dir"@,
            "  Cannot write to XDG_RUNTIME_DIR ("@ + dir@ + "): "@ + error@
                + "\n  Check permissions on the runtime directory."@,
            ms,
        ),
        RuntimeProbe::Writable(dir) => r.passed("Runtime dir"@, dir@, ms),
    }
}

/// Notes whether the runtime directory can be written to; see
/// [`after_runtime`].
pub fn check_xdg_runtime(report: &mut HealthReport, runtime: &RuntimeProbe, ms: u64)
    ensures
        final(report)@ == after_runtime(old(report)@, *runtime, ms),
{
    match runtime {
        RuntimeProbe::Unset => report.add_failed(
            "Runtime dir",
            "  XDG_RUNTIME_DIR is not set.\n  Set: export XDG_RUNTIME_DIR=/run/user/$(id -u)".to_owned(),
            ms,
        ),
        RuntimeProbe::NotDirectory(dir) => {
            let mut message = text::joined("  XDG_RUNTIME_DIR (", dir.as_str());
            message.append(
                ") is not a directory.\n  Ensure XDG_RUNTIME_DIR points to a valid runtime directory:\n  export XDG_RUNTIME_DIR=/run/user/$(id -u)",
            );
            report.add_failed("Runtime dir", message, ms);
        },
        RuntimeProbe::Unwritable { dir, error } => {
            let mut message = text::joined("  Cannot write to XDG_RUNTIME_DIR (", dir.as_str());
            message.append("): ");
            message.append(error.as_str());
            message.append("\n  Check permissions on the runtime directory.");
            report.add_failed("Runtime dir", message, ms);
        },
        RuntimeProbe::Writable(dir) => report.add_passed("Runtime dir", dir.clone(), ms),
    }
}

/// A port that was bound.
#[derive(Debug)]
pub struct PortProbe {
    /// What it is for.
    pub name: String,
    /// The port.
    pub port: u16,
    /// Why it could not be bound, if so.
    pub error: Option<String>,
}

/// A port that is to be bound.
#[derive(Debug, Clone, Copy, PartialEq, Eq, Structural)]
pub enum PortUse {
    /// The web server.
    Http,
    /// The web server under TLS.
    Https,
    /// Session control.
    Rtsp,
    /// Video.
    Video,
    /// Audio.
    Audio,
    /// Input.
    Control,
}

impl PortUse {
    /// What it is called.
    pub fn name(self) -> (r: &'static str)
        ensures
            r@ == match self {
                PortUse::Http => "HTTP"@,
                PortUse::Https => "HTTPS"@,
                PortUse::Rtsp => "RTSP"@,
                PortUse::Video => "Video UDP"@,
                PortUse::Audio => "Audio UDP"@,
                PortUse::Control => "Control UDP"@,
            },
    {
        match self {
            PortUse::Http => "HTTP",
            PortUse::Https => "HTTPS",
            PortUse::Rtsp => "RTSP",
            PortUse::Video => "Video UDP",
            PortUse::Audio => "Audio UDP",
            PortUse::Control => "Control UDP",
        }
    }

    /// It is bound for TCP, else for UDP.
    pub fn is_tcp(self) -> (r: bool)
        ensures
            r == (self == PortUse::Http || self == PortUse::Https || self == PortUse::Rtsp),
    {
        match self {
            PortUse::Http | PortUse::Https | PortUse::Rtsp => true,
            _ => false,
        }
    }
}

/// The ports that could be bound, as they are shown.
pub open spec fn free_ports(ports: Seq<PortProbe>) -> Seq<Seq<char>>
    decreases ports.len(),
{
    if ports.len() == 0 {
        Seq::empty()
    } else if ports.last().error is None {
        free_ports(ports.drop_last()).push(
            ports.last().name@ + "("@ + text::decimal(ports.last().port as nat) + ")"@,
        )
    } else {
        free_ports(ports.drop_last())
    }
}

/// A line for each port that could not be bound.
pub open spec fn conflict_lines(ports: Seq<PortProbe>) -> Seq<char>
    decreases ports.len(),
{
    if ports.len() == 0 {
        "  Port conflicts detected:\n"@
    } else if ports.last().error is None {
        conflict_lines(ports.drop_last())
    } else {
        conflict_lines(ports.drop_last()) + "    "@ + ports.last().name@ + " port "@ + text::decimal(
            ports.last().port as nat,
        ) + ": "@ + ports.last().error->0@ + "\n"@
    }
}

/// All ports could be bound.
pub open spec fn all_free(ports: Seq<PortProbe>) -> bool
    decreases ports.len(),
{
    ports.len() == 0 || (ports.last().error is None && all_free(ports.drop_last()))
}

/// The report after the ports were bound.
pub open spec fn after_ports(r: ReportValues, ports: Seq<PortProbe>, ms: u64) -> ReportValues {
    let free = text::listed_with(free_ports(ports), ", "@);
    if all_free(ports) {
        r.passed("Ports"@, free, ms)
    } else {
        r.failed("Ports"@, conflict_lines(ports) + "  Available ports: "@ + free, ms)
    }
}

/// Notes whether the ports could be bound; see [`after_ports`].
pub fn check_ports(report: &mut HealthReport, ports: &Vec<PortProbe>, ms: u64)
    ensures
        final(report)@ == after_ports(old(report)@, ports@, ms),
{
    let mut free: Vec<String> = Vec::new();
    let mut message = "  Port conflicts detected:\n".to_owned();
    let mut conflict: bool = false;
    let mut i: usize = 0;
    assert(text::texts(free@) == free_ports(ports@.take(0)));
    while i < ports.len()
        invariant
            i <= ports@.len(),
            text::texts(free@) == free_ports(ports@.take(i as int)),
            message@ == conflict_lines(ports@.take(i as int)),
            conflict == !all_free(ports@.take(i as int)),
        decreases ports@.len() - i,
    {
        assert(ports@.take(i + 1).drop_last() == ports@.take(i as int));
        let port = &ports[i];
        let number = text::decimal_string(port.port as u64);
        match &port.error {
            None => {
                let mut shown = text::joined(port.name.as_str(), "(");
                shown.append(number.as_str());
                shown.append(")");
                let ghost before = text::texts(free@);
                free.push(shown);
                assert(text::texts(free@) == before.push(shown@));
            },
            Some(e) => {
                conflict = true;
                message.append("    ");
                message.append(port.name.as_str());
                message.append(" port ");
                message.append(number.as_str());
                message.append(": ");
                message.append(e.as_str());
                message.append("\n");
            },
        }
        i = i + 1;
    }
    assert(ports@.take(ports@.len() as int) == ports@);
    let list = text::join_texts(&free, ", ");
    if conflict {
        message.append("  Available ports: ");
        message.append(list.as_str());
        report.add_failed("Ports", message, ms);
    } else {
        report.add_passed("Ports", list, ms);
    }
}

/// The report after the device for gamepads was opened.
pub open spec fn after_uinput(r: ReportValues, error: Option<Seq<char>>, ms: u64) -> ReportValues {
    match error {
        None => r.passed("uinput"@, "Writable"@, ms),
        Some(e) => r.warned(
            "uinput"@,
            "  Cannot access /dev/uinput: "@ + e
                + "\n  Gamepad emulation will not work.\n  Load the module: `sudo modprobe uinput`\n  Persistent: `echo uinput | sudo tee /etc/modules-load.d/moonshine.conf`\n  Check udev rules are installed: /usr/lib/udev/rules.d/60-moonshine.rules"@,
            ms,
        ),
    }
}

/// Notes whether the device for gamepads can be opened; see [`after_uinput`].
pub fn check_uinput(report: &mut HealthReport, error: &Option<String>, ms: u64)
    ensures
        final(report)@ == after_uinput(old(report)@, common::maybe(*error), ms),
{
    match error {
        None => report.add_passed("uinput", "Writable".to_owned(), ms),
        Some(e) => {
            let mut message = text::joined("  Cannot access /dev/uinput: ", e.as_str());
            message.append(
                "\n  Gamepad emulation will not work.\n  Load the module: `sudo modprobe uinput`\n  Persistent: `echo uinput | sudo tee /etc/modules-load.d/moonshine.conf`\n  Check udev rules are installed: /usr/lib/udev/rules.d/60-moonshine.rules",
            );
            report.add_warn("uinput", message, ms);
        },
    }
}

/// The report after the other device for gamepads was opened.
pub open spec fn after_uhid(r: ReportValues, error: Option<Seq<char>>, ms: u64) -> ReportValues {
    match error {
        None => r.passed("uhid"@, "Writable"@, ms),
        Some(e) => r.warned(
            "uhid"@,
            "  Cannot access /dev/uhid: "@ + e
                + "\n  Gamepad emulation may not work.\n  Load the module: `sudo modprobe uhid`\n  Persistent: `echo uhid | sudo tee /etc/modules-load.d/moonshine.conf`"@,
            ms,
        ),
    }
}

/// Notes whether the other device for gamepads can be opened; see
/// [`after_uhid`].
pub fn check_uhid(report: &mut HealthReport, error: &Option<String>, ms: u64)
    ensures
        final(report)@ == after_uhid(old(report)@, common::maybe(*error), ms),
{
    match error {
        None => report.add_passed("uhid", "Writable".to_owned(), ms),
        Some(e) => {
            let mut message = text::joined("  Cannot access /dev/uhid: ", e.as_str());
            message.append(
                "\n  Gamepad emulation may not work.\n  Load the module: `sudo modprobe uhid`\n  Persistent: `echo uhid | sudo tee /etc/modules-load.d/moonshine.conf`",
            );
            report.add_warn("uhid", message, ms);
        },
    }
}

/// The report after the layer for games was looked for.
pub open spec fn after_wsi(r: ReportValues, manifest: bool, library: bool, ms: u64) -> ReportValues {
    if !manifest {
        r.warned(
            "WSI layer"@,
            "  WSI layer manifest not found.\n  Games will render through XWayland (higher latency, no direct scanout).\n  Build and install from the moonshine-wsi crate."@,
            ms,
        )
    } else if !library {
        r.warned(
            "WSI layer"@,
            "  WSI layer library not found: /usr/lib/moonshine/vulkan-layers/libmoonshine_wsi.so\n  Reinstall from the moonshine-wsi crate."@,
            ms,
        )
    } else {
        r.passed("WSI layer"@, "/usr/lib/moonshine/vulkan-layers/libmoonshine_wsi.so"@, ms)
    }
}

/// Notes whether the layer for games is there; see [`after_wsi`].
pub fn check_wsi_layer(report: &mut HealthReport, manifest: bool, library: bool, ms: u64)
    ensures
        final(report)@ == after_wsi(old(report)@, manifest, library, ms),
{
    if !manifest {
        report.add_warn(
            "WSI layer",
            "  WSI layer manifest not found.\n  Games will render through XWayland (higher latency, no direct scanout).\n  Build and install from the moonshine-wsi crate.".to_owned(),
            ms,
        );
    } else if !library {
        report.add_warn(
            "WSI layer",
            "  WSI layer library not found: /usr/lib/moonshine/vulkan-layers/libmoonshine_wsi.so\n  Reinstall from the moonshine-wsi crate.".to_owned(),
            ms,
        );
    } else {
        report.add_passed(
            "WSI layer",
            "/usr/lib/moonshine/vulkan-layers/libmoonshine_wsi.so".to_owned(),
            ms,
        );
    }
}

/// What came of writing to a directory.
#[derive(Debug)]
pub enum DirState {
    /// It can be written to, or made.
    Fine,
    /// It is there and cannot be written to, and why.
    Unwritable(String),
    /// It is not there and cannot be made, and why.
    Uncreatable(String),
    /// It is not there and has no parent.
    NoParent,
}

/// What came of writing to a directory: into it where it is there, else into
/// its parent, so that it can be made. `error` says why that failed, if so.
pub fn dir_state(exists: bool, has_parent: bool, error: Option<String>) -> (r: DirState)
    ensures
        r == if !exists && !has_parent {
            DirState::NoParent
        } else {
            match error {
                None => DirState::Fine,
                Some(e) => if exists {
                    DirState::Unwritable(e)
                } else {
                    DirState::Uncreatable(e)
                },
            }
        },
{
    if !exists && !has_parent {
        return DirState::NoParent;
    }
    match error {
        None => DirState::Fine,
        Some(e) => if exists {
            DirState::Unwritable(e)
        } else {
            DirState::Uncreatable(e)
        },
    }
}

/// The directory of the state, below the directory for data.
pub fn state_dir(data_dir: Option<&str>) -> (r: String)
    ensures
        r@ == match data_dir {
            Some(d) => common::path_below(d@, "moonshine"@),
            None => "/var/lib/moonshine"@,
        },
{
    match data_dir {
        Some(d) => common::join_path(d, "moonshine"),
        None => "/var/lib/moonshine".to_owned(),
    }
}

/// The group that owns a file: `gid` is its number, where the file could be
/// asked, and `name` its name, where it has one.
pub fn group_name_of(gid: Option<u32>, name: Option<&str>) -> (r: String)
    ensures
        r@ == match gid {
            None => "unknown"@,
            Some(g) => match name {
                Some(n) => n@,
                None => "gid "@ + text::decimal(g as nat),
            },
        },
{
    match gid {
        None => "unknown".to_owned(),
        Some(g) => match name {
            Some(n) => n.to_owned(),
            None => {
                let number = text::decimal_string(g as u64);
                text::joined("gid ", number.as_str())
            },
        },
    }
}

/// A directory that was written to.
#[derive(Debug)]
pub struct DirProbe {
    /// What it is for.
    pub label: String,
    /// Its path.
    pub path: String,
    /// What came of it.
    pub state: DirState,
}

/// What is wrong with a directory.
pub open spec fn dir_issue(dir: DirProbe) -> Option<Seq<char>> {
    match dir.state {
        DirState::Fine => None,
        DirState::Unwritable(e) => Some(dir.label@ + " "@ + dir.path@ + ": "@ + e@),
        DirState::Uncreatable(e) => Some(
            dir.label@ + " "@ + dir.path@
                + " does not exist and cannot be created (parent not writable): "@ + e@,
        ),
        DirState::NoParent => Some(dir.label@ + " "@ + dir.path@ + " has no parent directory"@),
    }
}

/// What is wrong with a directory; see [`dir_issue`].
fn say_dir_issue(dir: &DirProbe) -> (r: Option<String>)
    ensures
        common::maybe(r) == dir_issue(*dir),
{
    let mut message = text::joined(dir.label.as_str(), " ");
    message.append(dir.path.as_str());
    match &dir.state {
        DirState::Fine => None,
        DirState::Unwritable(e) => {
            message.append(": ");
            message.append(e.as_str());
            Some(message)
        },
        DirState::Uncreatable(e) => {
            message.append(" does not exist and cannot be created (parent not writable): ");
            message.append(e.as_str());
            Some(message)
        },
        DirState::NoParent => {
            message.append(" has no parent directory");
            Some(message)
        },
    }
}

/// What is wrong with the directories.
pub open spec fn dir_issues(dirs: Seq<DirProbe>) -> Seq<Seq<char>>
    decreases dirs.len(),
{
    if dirs.len() == 0 {
        Seq::empty()
    } else {
        match dir_issue(dirs.last()) {
            Some(issue) => dir_issues(dirs.drop_last()).push(issue),
            None => dir_issues(dirs.drop_last()),
        }
    }
}

/// The directories that were written to: that of the state, then those of
/// certificate and key.
#[derive(Debug)]
pub struct DirsProbe {
    /// The directory of the state.
    pub state_dir: String,
    /// The directory of the certificate, where it has one.
    pub cert_dir: Option<String>,
    /// What came of them.
    pub dirs: Vec<DirProbe>,
}

/// The report after the directories were written to.
pub open spec fn after_dirs(r: ReportValues, probe: DirsProbe, ms: u64) -> ReportValues {
    let issues = dir_issues(probe.dirs@);
    if issues.len() == 0 {
        r.passed(
            "Config dirs"@,
            probe.state_dir@ + ", "@ + match probe.cert_dir {
                Some(d) => d@,
                None => Seq::empty(),
            },
            ms,
        )
    } else {
        r.warned(
            "Config dirs"@,
            "  Directory issues:\n    "@ + text::listed_with(issues, "\n    "@)
                + "\n  Check permissions."@,
            ms,
        )
    }
}

/// Notes whether the directories can be written to; see [`after_dirs`].
pub fn check_dirs(report: &mut HealthReport, probe: &DirsProbe, ms: u64)
    ensures
        final(report)@ == after_dirs(old(report)@, *probe, ms),
{
    let dirs = &probe.dirs;
    let mut issues: Vec<String> = Vec::new();
    let mut i: usize = 0;
    assert(text::texts(issues@) == dir_issues(dirs@.take(0)));
    while i < dirs.len()
        invariant
            i <= dirs@.len(),
            text::texts(issues@) == dir_issues(dirs@.take(i as int)),
        decreases dirs@.len() - i,
    {
        assert(dirs@.take(i + 1).drop_last() == dirs@.take(i as int));
        if let Some(issue) = say_dir_issue(&dirs[i]) {
            let ghost before = text::texts(issues@);
            issues.push(issue);
            assert(text::texts(issues@) == before.push(issue@));
        }
        i = i + 1;
    }
    assert(dirs@.take(dirs@.len() as int) == dirs@);
    assert(text::texts(issues@).len() == issues@.len());
    if issues.len() == 0 {
        let mut message = text::joined(probe.state_dir.as_str(), ", ");
        if let Some(d) = &probe.cert_dir {
            message.append(d.as_str());
        } else {
            assert(message@ + Seq::<char>::empty() == message@);
        }
        report.add_passed("Config dirs", message, ms);
    } else {
        let list = text::join_texts(&issues, "\n    ");
        let mut message = text::joined("  Directory issues:\n    ", list.as_str());
        message.append("\n  Check permissions.");
        report.add_warn("Config dirs", message, ms);
    }
}

/// What was observed of what is configured.
#[derive(Debug)]
pub struct ConfigObservations {
    /// The ports.
    pub ports: Vec<PortProbe>,
    /// The directories.
    pub dirs: DirsProbe,
}

/// How long each check took, in milliseconds.
#[derive(Debug, Clone, Copy, PartialEq, Eq, Structural)]
pub struct HostTimes {
    /// Looking for the X11 server.
    pub xwayland: u64,
    /// Connecting to the session bus.
    pub dbus: u64,
    /// Writing to the runtime directory.
    pub runtime: u64,
    /// Binding the ports.
    pub ports: u64,
    /// Opening the device for gamepads.
    pub uinput: u64,
    /// Opening the other device for gamepads.
    pub uhid: u64,
    /// Looking for the layer for games.
    pub wsi: u64,
    /// Writing to the directories.
    pub dirs: u64,
}

/// What was observed of the host.
#[derive(Debug)]
pub struct HostObservations {
    /// The graphics device.
    pub gpu: GpuObservations,
    /// Where the X11 server was found.
    pub xwayland: Option<String>,
    /// The session bus.
    pub bus: BusProbe,
    /// The runtime directory.
    pub runtime: RuntimeProbe,
    /// What is configured, where there is a configuration.
    pub config: Option<ConfigObservations>,
    /// Why the device for gamepads could not be opened, if so.
    pub uinput: Option<String>,
    /// Why the other device for gamepads could not be opened, if so.
    pub uhid: Option<String>,
    /// The manifest of the layer for games is there.
    pub wsi_manifest: bool,
    /// The layer for games is there.
    pub wsi_library: bool,
    /// How long each check took.
    pub times: HostTimes,
    /// How long all took, in nanoseconds.
    pub duration: u128,
}

impl HostObservations {
    /// The report of all checks, in their order. What is configured is checked
    /// only where there is a configuration.
    pub open spec fn report(self) -> ReportValues {
        let t = self.times;
        let r1 = self.gpu.checked(report::blank());
        let r2 = after_xwayland(r1, common::maybe(self.xwayland), t.xwayland);
        let r3 = after_dbus(r2, self.bus, t.dbus);
        let r4 = after_runtime(r3, self.runtime, t.runtime);
        let r5 = match self.config {
            Some(c) => after_ports(r4, c.ports@, t.ports),
            None => r4,
        };
        let r6 = after_uinput(r5, common::maybe(self.uinput), t.uinput);
        let r7 = after_uhid(r6, common::maybe(self.uhid), t.uhid);
        let r8 = after_wsi(r7, self.wsi_manifest, self.wsi_library, t.wsi);
        let r9 = match self.config {
            Some(c) => after_dirs(r8, c.dirs, t.dirs),
            None => r8,
        };
        ReportValues { duration: self.duration, ..r9 }
    }
}

/// The report of all checks; see [`HostObservations::report`].
pub fn run_healthcheck(seen: &HostObservations) -> (r: HealthReport)
    ensures
        r@ == seen.report(),
{
    let mut report = HealthReport::new();
    gpu::run_gpu_checks(&mut report, &seen.gpu);
    check_xwayland(&mut report, &seen.xwayland, seen.times.xwayland);
    check_dbus(&mut report, &seen.bus, seen.times.dbus);
    check_xdg_runtime(&mut report, &seen.runtime, seen.times.runtime);
    if let Some(c) = &seen.config {
        check_ports(&mut report, &c.ports, seen.times.ports);
    }
    check_uinput(&mut report, &seen.uinput, seen.times.uinput);
    check_uhid(&mut report, &seen.uhid, seen.times.uhid);
    check_wsi_layer(&mut report, seen.wsi_manifest, seen.wsi_library, seen.times.wsi);
    if let Some(c) = &seen.config {
        check_dirs(&mut report, &c.dirs, seen.times.dirs);
    }
    report.duration = seen.duration;
    report
}

/// What the graphics device can do.
#[derive(Debug)]
pub struct Capabilities {
    /// The bits of the codecs that can be encoded.
    pub supported_codecs: u32,
    /// Colours can go beyond the standard range.
    pub hdr_supported: bool,
    /// Buffers can be shared with the encoder.
    pub dma_buf_supported: bool,
    /// The name of the graphics device.
    pub gpu_name: String,
}

/// What the graphics device can do, as the full check would report it.
pub fn probe_capabilities(seen: &GpuObservations) -> (r: Capabilities)
    ensures
        r.supported_codecs == seen.checked(report::blank()).supported_codecs,
        r.hdr_supported == seen.checked(report::blank()).hdr_supported,
        r.dma_buf_supported == seen.checked(report::blank()).dma_buf_supported,
        r.gpu_name@ == seen.checked(report::blank()).gpu_name,
{
    let mut report = HealthReport::new();
    gpu::run_gpu_checks(&mut report, seen);
    Capabilities {
        supported_codecs: report.supported_codecs,
        hdr_supported: report.hdr_supported,
        dma_buf_supported: report.dma_buf_supported,
        gpu_name: report.gpu_name,
    }
}

/// The full check tells the same of the graphics device as the probe of its
/// capabilities.
pub proof fn check_and_probe_agree(seen: HostObservations)
    ensures
        seen.report().supported_codecs == seen.gpu.checked(report::blank()).supported_codecs,
        seen.report().hdr_supported == seen.gpu.checked(report::blank()).hdr_supported,
        seen.report().dma_buf_supported == seen.gpu.checked(report::blank()).dma_buf_supported,
        seen.report().gpu_name == seen.gpu.checked(report::blank()).gpu_name,
{
}

/// The report says that the host can start exactly where no check has failed:
/// warnings do not keep it from starting.
pub proof fn report_is_consistent(seen: HostObservations)
    ensures
        seen.report().is_consistent(),
{
    let t = seen.times;
    let r0 = report::blank();
    assert(r0.is_consistent());
    let r1 = seen.gpu.checked(r0);
    gpu::checks_keep_consistent(seen.gpu, r0);
    let r2 = after_xwayland(r1, common::maybe(seen.xwayland), t.xwayland);
    gpu::last_noted(r1, r2);
    let r3 = after_dbus(r2, seen.bus, t.dbus);
    gpu::last_noted(r2, r3);
    let r4 = after_runtime(r3, seen.runtime, t.runtime);
    gpu::last_noted(r3, r4);
    let r5 = match seen.config {
        Some(c) => after_ports(r4, c.ports@, t.ports),
        None => r4,
    };
    if seen.config is Some {
        gpu::last_noted(r4, r5);
    }
    let r6 = after_uinput(r5, common::maybe(seen.uinput), t.uinput);
    gpu::last_noted(r5, r6);
    let r7 = after_uhid(r6, common::maybe(seen.uhid), t.uhid);
    gpu::last_noted(r6, r7);
    let r8 = after_wsi(r7, seen.wsi_manifest, seen.wsi_library, t.wsi);
    gpu::last_noted(r7, r8);
    let r9 = match seen.config {
        Some(c) => after_dirs(r8, c.dirs, t.dirs),
        None => r8,
    };
    if seen.config is Some {
        gpu::last_noted(r8, r9);
    }
    let r10 = seen.report();
    assert(r10.checks == r9.checks && r10.all_fatal_passed == r9.all_fatal_passed);
}

/// Each check is noted under its name and ends as what was observed says: what
/// the host can do without is warned about, what it cannot do without fails.
pub proof fn checks_end_as_observed(
    r: ReportValues,
    found: Option<Seq<char>>,
    bus: BusProbe,
    runtime: RuntimeProbe,
    manifest: bool,
    library: bool,
    ms: u64,
)
    ensures
        report::notes(
            r,
            after_xwayland(r, found, ms),
            "Xwayland"@,
            if found is Some { CheckOutcome::Passed } else { CheckOutcome::Warning },
            ms,
        ),
        found is Some ==> after_xwayland(r, found, ms).checks.last().message == found->0,
        report::notes(
            r,
            after_dbus(r, bus, ms),
            "D-Bus"@,
            if bus is Connected { CheckOutcome::Passed } else { CheckOutcome::Failed },
            ms,
        ),
        bus matches BusProbe::Connected(Some(a)) ==> after_dbus(r, bus, ms).checks.last().message == a@,
        report::notes(
            r,
            after_runtime(r, runtime, ms),
            "Runtime dir"@,
            if runtime is Writable { CheckOutcome::Passed } else { CheckOutcome::Failed },
            ms,
        ),
        runtime matches RuntimeProbe::Writable(d) ==> after_runtime(r, runtime, ms).checks.last().message
            == d@,
        report::notes(
            r,
            after_uinput(r, found, ms),
            "uinput"@,
            if found is None { CheckOutcome::Passed } else { CheckOutcome::Warning },
            ms,
        ),
        report::notes(
            r,
            after_uhid(r, found, ms),
            "uhid"@,
            if found is None { CheckOutcome::Passed } else { CheckOutcome::Warning },
            ms,
        ),
        report::notes(
            r,
            after_wsi(r, manifest, library, ms),
            "WSI layer"@,
            if manifest && library { CheckOutcome::Passed } else { CheckOutcome::Warning },
            ms,
        ),
{
}

/// The check of the ports passes exactly if every port could be bound.
pub proof fn every_port_counts(r: ReportValues, ports: Seq<PortProbe>, ms: u64)
    ensures
        all_free(ports) <==> forall|i: int| 0 <= i < ports.len() ==> (#[trigger] ports[i]).error is None,
        all_free(ports) ==> report::notes(
            r,
            after_ports(r, ports, ms),
            "Ports"@,
            CheckOutcome::Passed,
            ms,
        ),
        !all_free(ports) ==> report::notes(
            r,
            after_ports(r, ports, ms),
            "Ports"@,
            CheckOutcome::Failed,
            ms,
        ),
    decreases ports.len(),
{
    if ports.len() > 0 {
        let rest = ports.drop_last();
        let last = ports.len() - 1;
        every_port_counts(r, rest, ms);
        assert(ports[last] == ports.last());
        assert(forall|i: int| #![trigger ports[i]] 0 <= i < last ==> ports[i] == rest[i]);
        assert(forall|i: int| #![trigger rest[i]] 0 <= i < last ==> ports[i] == rest[i]);
    }
}

/// A port that could be bound is listed with its name and number; one that
/// could not has a line with its name, its number and the reason.
pub proof fn every_port_is_told(ports: Seq<PortProbe>, port: PortProbe)
    ensures
        free_ports(Seq::empty()) == Seq::<Seq<char>>::empty(),
        conflict_lines(Seq::empty()) == "  Port conflicts detected:\n"@,
        port.error is None ==> {
            &&& free_ports(ports.push(port)) == free_ports(ports).push(
                port.name@ + "("@ + text::decimal(port.port as nat) + ")"@,
            )
            &&& conflict_lines(ports.push(port)) == conflict_lines(ports)
        },
        port.error matches Some(e) ==> {
            &&& free_ports(ports.push(port)) == free_ports(ports)
            &&& conflict_lines(ports.push(port)) == conflict_lines(ports) + "    "@ + port.name@
                + " port "@ + text::decimal(port.port as nat) + ": "@ + e@ + "\n"@
        },
{
    assert(ports.push(port).drop_last() == ports);
}

/// The check of the directories passes exactly if all of them can be written to
/// or made, and warns otherwise; each that cannot is told, in order.
pub proof fn every_directory_counts(r: ReportValues, probe: DirsProbe, ms: u64)
    ensures
        (forall|i: int| 0 <= i < probe.dirs@.len() ==> (#[trigger] probe.dirs@[i]).state is Fine)
            ==> report::notes(
            r,
            after_dirs(r, probe, ms),
            "Config dirs"@,
            CheckOutcome::Passed,
            ms,
        ),
        (exists|i: int| 0 <= i < probe.dirs@.len() && !((#[trigger] probe.dirs@[i]).state is Fine))
            ==> report::notes(
            r,
            after_dirs(r, probe, ms),
            "Config dirs"@,
            CheckOutcome::Warning,
            ms,
        ),
{
    issues_are_of_directories(probe.dirs@);
}

/// There are issues exactly if some directory has one.
proof fn issues_are_of_directories(dirs: Seq<DirProbe>)
    ensures
        dir_issues(dirs).len() == 0 <==> forall|i: int|
            0 <= i < dirs.len() ==> (#[trigger] dirs[i]).state is Fine,
    decreases dirs.len(),
{
    if dirs.len() > 0 {
        let rest = dirs.drop_last();
        let last = dirs.len() - 1;
        issues_are_of_directories(rest);
        assert(dirs[last] == dirs.last());
        assert(forall|i: int| #![trigger dirs[i]] 0 <= i < last ==> dirs[i] == rest[i]);
        assert(forall|i: int| #![trigger rest[i]] 0 <= i < last ==> dirs[i] == rest[i]);
    }
}

/// What is wrong with a directory is told with its label, its path and the
/// reason; of one that is fine nothing is told.
pub proof fn issues_are_told(dirs: Seq<DirProbe>, dir: DirProbe)
    ensures
        dir_issues(Seq::empty()) == Seq::<Seq<char>>::empty(),
        dir.state is Fine ==> dir_issues(dirs.push(dir)) == dir_issues(dirs),
        dir.state matches DirState::Unwritable(e) ==> dir_issues(dirs.push(dir)) == dir_issues(dirs).push(
            dir.label@ + " "@ + dir.path@ + ": "@ + e@,
        ),
        dir.state matches DirState::Uncreatable(e) ==> dir_issues(dirs.push(dir)) == dir_issues(
            dirs,
        ).push(
            dir.label@ + " "@ + dir.path@
                + " does not exist and cannot be created (parent not writable): "@ + e@,
        ),
        dir.state is NoParent ==> dir_issues(dirs.push(dir)) == dir_issues(dirs).push(
            dir.label@ + " "@ + dir.path@ + " has no parent directory"@,
        ),
{
    assert(dirs.push(dir).drop_last() == dirs);
}

/// The host can start exactly if the graphics device passes, the session bus
/// answers, the runtime directory can be written to and, where there is a
/// configuration, every port can be bound: nothing else keeps it from starting.
pub proof fn what_keeps_the_host_from_starting(seen: HostObservations)
    ensures
        seen.report().all_fatal_passed <==> {
            &&& seen.gpu.checked(report::blank()).all_fatal_passed
            &&& seen.bus is Connected
            &&& seen.runtime is Writable
            &&& seen.config matches Some(c) ==> forall|i: int|
                0 <= i < c.ports@.len() ==> (#[trigger] c.ports@[i]).error is None
        },
        seen.report().checks.len() == seen.gpu.checked(report::blank()).checks.len() + (
        if seen.config is Some {
            8int
        } else {
            6
        }),
        seen.report().duration == seen.duration,
{
    if let Some(c) = seen.config {
        every_port_counts(report::blank(), c.ports@, 0);
    }
}

} // verus!
