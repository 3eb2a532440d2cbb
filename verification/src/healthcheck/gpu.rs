//! Checks of the graphics device.
//!
//! Opening nodes and asking drivers is left to the caller, who hands in what
//! was observed.
use vstd::prelude::*;

use crate::healthcheck::nodes;
use crate::healthcheck::nodes::DriListing;
use crate::healthcheck::report;
use crate::healthcheck::report::{CheckOutcome, HealthReport, ReportValues};
use crate::scanner::common;
use crate::text;

verus! {

/// The bit of H.264.
pub const CODEC_H264: u32 = 0x0000_0001;

/// The bit of HEVC.
pub const CODEC_HEVC: u32 = 0x0000_0100;

/// The bit of HEVC with 10 bits.
pub const CODEC_HEVC_MAIN10: u32 = 0x0000_0200;

/// The bit of AV1.
pub const CODEC_AV1_MAIN8: u32 = 0x0001_0000;

/// The bit of AV1 with 10 bits.
pub const CODEC_AV1_MAIN10: u32 = 0x0002_0000;

/// The bit of H.264 with full chroma.
pub const CODEC_H264_HIGH_8444: u32 = 0x0004_0000;

/// The bit of HEVC with full chroma.
pub const CODEC_HEVC_REXT_8444: u32 = 0x0008_0000;

/// The bit of HEVC with 10 bits and full chroma.
pub const CODEC_HEVC_REXT_10444: u32 = 0x0010_0000;

/// The bit of AV1 with full chroma.
pub const CODEC_AV1_HIGH_8444: u32 = 0x0020_0000;

/// The bit of AV1 with 10 bits and full chroma.
pub const CODEC_AV1_HIGH_10444: u32 = 0x0040_0000;

/// The bits of all codecs.
pub const SERVER_CODEC_MODE_SUPPORT: u32 = CODEC_H264 | CODEC_H264_HIGH_8444 | CODEC_HEVC
    | CODEC_HEVC_REXT_8444 | CODEC_HEVC_MAIN10 | CODEC_HEVC_REXT_10444 | CODEC_AV1_MAIN8
    | CODEC_AV1_HIGH_8444 | CODEC_AV1_MAIN10 | CODEC_AV1_HIGH_10444;

/// The first node that renders, for want of a better one.
pub open spec fn fallback_of(dri: DriListing) -> Option<Seq<char>> {
    match dri {
        DriListing::Nodes(n) => if nodes::ordered_names(n@).len() > 0 {
            Some(nodes::node_path(nodes::ordered_names(n@)[0]))
        } else {
            None
        },
        _ => None,
    }
}

/// The report after the nodes were looked for.
pub open spec fn after_render_nodes(r: ReportValues, dri: DriListing, ms: u64) -> ReportValues {
    match dri {
        DriListing::Missing => r.failed(
            "Render nodes"@,
            "  No /dev/dri directory found.\n  Ensure the GPU kernel DRM driver is loaded and /dev/dri exists.\n  Ubuntu: `sudo ubuntu-drivers autoinstall` (or install matching kernel/firmware)\n  Fedora: `sudo dnf install mesa-dri-drivers`"@,
            ms,
        ),
        DriListing::Unreadable(e) => r.failed(
            "Render nodes"@,
            "  Cannot read /dev/dri: "@ + e@ + "\n  Check directory permissions."@,
            ms,
        ),
        DriListing::Nodes(n) => if nodes::ordered_names(n@).len() == 0 {
            r.failed(
                "Render nodes"@,
                "  No render nodes found in /dev/dri.\n  Install GPU drivers with render node support.\n  Ubuntu: `sudo ubuntu-drivers autoinstall`\n  Fedora: `sudo dnf install mesa-dri-drivers`"@,
                ms,
            )
        } else {
            r.passed(
                "Render nodes"@,
                text::listed_with(nodes::ordered_names(n@), ", "@),
                ms,
            )
        },
    }
}

/// Looks for the nodes; see [`after_render_nodes`] and [`fallback_of`].
pub fn check_render_nodes(report: &mut HealthReport, dri: &DriListing, ms: u64) -> (r: Option<String>)
    ensures
        final(report)@ == after_render_nodes(old(report)@, *dri, ms),
        common::maybe(r) == fallback_of(*dri),
{
    match dri {
        DriListing::Missing => {
            report.add_failed(
                "Render nodes",
                "  No /dev/dri directory found.\n  Ensure the GPU kernel DRM driver is loaded and /dev/dri exists.\n  Ubuntu: `sudo ubuntu-drivers autoinstall` (or install matching kernel/firmware)\n  Fedora: `sudo dnf install mesa-dri-drivers`".to_owned(),
                ms,
            );
            None
        },
        DriListing::Unreadable(e) => {
            let mut message = text::joined("  Cannot read /dev/dri: ", e.as_str());
            message.append("\n  Check directory permissions.");
            report.add_failed("Render nodes", message, ms);
            None
        },
        DriListing::Nodes(n) => {
            let names = nodes::render_node_names(n);
            proof {
                assert(nodes::ordered_names(n@).len() == names@.len());
            }
            if names.len() == 0 {
                report.add_failed(
                    "Render nodes",
                    "  No render nodes found in /dev/dri.\n  Install GPU drivers with render node support.\n  Ubuntu: `sudo ubuntu-drivers autoinstall`\n  Fedora: `sudo dnf install mesa-dri-drivers`".to_owned(),
                    ms,
                );
                return None;
            }
            assert(nodes::ordered_names(n@)[0] == names@[0]@);
            let message = text::join_texts(&names, ", ");
            report.add_passed("Render nodes", message, ms);
            Some(text::joined("/dev/dri/", names[0].as_str()))
        },
    }
}

/// The node that is opened: the one that was found, else the fallback.
pub open spec fn chosen_of(
    resolved: Result<Seq<char>, Seq<char>>,
    fallback: Option<Seq<char>>,
) -> Option<Seq<char>> {
    match resolved {
        Ok(n) => Some(n),
        Err(_) => fallback,
    }
}

/// The report after the node was chosen: a configured device that is not found
/// is a failure, whatever the fallback, for the compositor will not start.
pub open spec fn after_choice(
    r: ReportValues,
    configured: Option<Seq<char>>,
    resolved: Result<Seq<char>, Seq<char>>,
    fallback: Option<Seq<char>>,
    ms: u64,
) -> ReportValues {
    match resolved {
        Ok(_) => r,
        Err(e) => match configured {
            None => r,
            Some(c) => match fallback {
                Some(f) => r.failed(
                    "GPU config"@,
                    "  Configured GPU `"@ + c + "` could not be resolved: "@ + e
                        + "\n  Falling back to "@ + f
                        + " for the remaining checks, but the compositor will fail to start with this configuration."@,
                    ms,
                ),
                None => r.failed(
                    "GPU config"@,
                    "  Configured GPU `"@ + c + "` could not be resolved: "@ + e
                        + "\n  No usable render node found."@,
                    ms,
                ),
            },
        },
    }
}

/// A result as characters.
pub open spec fn result_texts(r: Result<String, String>) -> Result<Seq<char>, Seq<char>> {
    match r {
        Ok(s) => Ok(s@),
        Err(e) => Err(e@),
    }
}

/// Chooses the node that is opened; see [`after_choice`] and [`chosen_of`].
pub fn choose_node(
    report: &mut HealthReport,
    configured: &Option<String>,
    resolved: &Result<String, String>,
    fallback: &Option<String>,
    ms: u64,
) -> (r: Option<String>)
    ensures
        final(report)@ == after_choice(
            old(report)@,
            common::maybe(*configured),
            result_texts(*resolved),
            common::maybe(*fallback),
            ms,
        ),
        common::maybe(r) == chosen_of(result_texts(*resolved), common::maybe(*fallback)),
{
    match resolved {
        Ok(n) => Some(n.clone()),
        Err(e) => {
            if let Some(c) = configured {
                let mut message = text::joined("  Configured GPU `", c.as_str());
                message.append("` could not be resolved: ");
                message.append(e.as_str());
                match fallback {
                    Some(f) => {
                        message.append("\n  Falling back to ");
                        message.append(f.as_str());
                        message.append(
                            " for the remaining checks, but the compositor will fail to start with this configuration.",
                        );
                    },
                    None => {
                        message.append("\n  No usable render node found.");
                    },
                }
                report.add_failed("GPU config", message, ms);
            }
            match fallback {
                Some(f) => Some(f.clone()),
                None => None,
            }
        },
    }
}

/// What came of opening a node, and who owns it.
#[derive(Debug)]
pub struct NodeAccess {
    /// Why it could not be opened, if so.
    pub error: Option<String>,
    /// The group that owns it.
    pub group: String,
}

/// The report after the node was opened.
pub open spec fn after_access(
    r: ReportValues,
    node: Option<Seq<char>>,
    access: NodeAccess,
    ms: u64,
) -> ReportValues {
    match node {
        None => r,
        Some(n) => match access.error {
            None => r.passed(
                "Render access"@,
                n + " (owned by group '"@ + access.group@ + "')"@,
                ms,
            ),
            Some(e) => r.failed(
                "Render access"@,
                "  Cannot open "@ + n + ": "@ + e@ + "\n  The node is owned by group '"@
                    + access.group@ + "'.\n  Add your user to this group: `sudo usermod -aG "@
                    + access.group@
                    + " $USER`\n  Then log out and back in, or use systemd service with SupplementaryGroups="@
                    + access.group@ + "."@,
                ms,
            ),
        },
    }
}

/// Notes what came of opening a node, and gives the node if it was opened; see
/// [`after_access`].
pub fn check_render_access(
    report: &mut HealthReport,
    node: &Option<String>,
    access: &NodeAccess,
    ms: u64,
) -> (r: Option<String>)
    ensures
        final(report)@ == after_access(old(report)@, common::maybe(*node), *access, ms),
        common::maybe(r) == if access.error is None {
            common::maybe(*node)
        } else {
            None
        },
{
    let n = match node {
        Some(n) => n,
        None => return None,
    };
    let group = access.group.as_str();
    match &access.error {
        None => {
            let mut message = text::joined(n.as_str(), " (owned by group '");
            message.append(group);
            message.append("')");
            report.add_passed("Render access", message, ms);
            Some(n.clone())
        },
        Some(e) => {
            let mut message = text::joined("  Cannot open ", n.as_str());
            message.append(": ");
            message.append(e.as_str());
            message.append("\n  The node is owned by group '");
            message.append(group);
            message.append("'.\n  Add your user to this group: `sudo usermod -aG ");
            message.append(group);
            message.append(
                " $USER`\n  Then log out and back in, or use systemd service with SupplementaryGroups=",
            );
            message.append(group);
            message.append(".");
            report.add_failed("Render access", message, ms);
            None
        },
    }
}

/// What came of setting up rendering on a node.
#[derive(Debug)]
pub enum EglProbe {
    /// The node could not be opened.
    NotOpened(String),
    /// There is no buffer manager.
    NoGbm(String),
    /// There is no display.
    NoDisplay(String),
    /// There is no context.
    NoContext(String),
    /// The formats that can be rendered to, and what the kernel says of the
    /// device.
    Formats {
        /// The names of the formats.
        codes: Vec<String>,
        /// What the kernel says.
        uevent: Option<String>,
    },
}

/// `s` without what is the same as the text before it.
pub open spec fn without_repeats(s: Seq<Seq<char>>) -> Seq<Seq<char>>
    decreases s.len(),
{
    if s.len() <= 1 {
        s
    } else if s[s.len() - 2] == s.last() {
        without_repeats(s.drop_last())
    } else {
        without_repeats(s.drop_last()).push(s.last())
    }
}

/// `s` without what is the same as the text before it; see
/// [`without_repeats`].
fn drop_repeats(s: &Vec<String>) -> (r: Vec<String>)
    ensures
        text::texts(r@) == without_repeats(text::texts(s@)),
{
    let ghost all = text::texts(s@);
    let mut r: Vec<String> = Vec::new();
    let mut i: usize = 0;
    while i < s.len()
        invariant
            i <= s@.len(),
            all == text::texts(s@),
            text::texts(r@) == without_repeats(all.take(i as int)),
        decreases s@.len() - i,
    {
        proof {
            let here = all.take(i + 1);
            assert(here.drop_last() == all.take(i as int));
            assert(here.last() == s@[i as int]@);
            if i > 0 {
                assert(here[here.len() - 2] == s@[i - 1]@);
            } else {
                assert(here == seq![s@[0]@]);
                assert(text::texts(r@).len() == 0);
            }
        }
        if i == 0 || !text::same_text(s[i - 1].as_str(), s[i].as_str()) {
            let ghost before = text::texts(r@);
            r.push(s[i].clone());
            assert(text::texts(r@) == before.push(s@[i as int]@));
        }
        i = i + 1;
    }
    assert(all.take(all.len() as int) == all);
    r
}

/// The names of the formats, in order, each once.
pub open spec fn format_names(codes: Seq<Seq<char>>) -> Seq<Seq<char>> {
    without_repeats(common::sorted(codes))
}

/// A format beyond the standard range is among them.
pub open spec fn has_hdr_format(codes: Seq<Seq<char>>) -> bool {
    codes.contains("Abgr2101010"@) || codes.contains("Abgr16161616f"@)
}

/// What rendering says of the device: its name, and whether colours can go
/// beyond the standard range.
pub open spec fn egl_found(node: Option<Seq<char>>, egl: EglProbe) -> Option<(Seq<char>, bool)> {
    match (node, egl) {
        (Some(n), EglProbe::Formats { codes, uevent }) => Some(
            (
                nodes::device_name(common::maybe(uevent), n),
                has_hdr_format(text::texts(codes@)),
            ),
        ),
        _ => None,
    }
}

/// The report after rendering was set up on a node.
pub open spec fn after_egl(r: ReportValues, node: Option<Seq<char>>, egl: EglProbe, ms: u64) -> ReportValues {
    match node {
        None => r,
        Some(n) => match egl {
            EglProbe::NotOpened(e) => r.failed(
                "EGL/GLES"@,
                "  Cannot open render node for EGL probe: "@ + e@,
                ms,
            ),
            EglProbe::NoGbm(e) => r.failed(
                "EGL/GLES"@,
                "  Failed to create GBM device: "@ + e@
                    + "\n  libgbm is required for GPU rendering.\n  Ubuntu: `sudo apt install libgbm1`\n  Fedora: `sudo dnf install mesa-libgbm`"@,
                ms,
            ),
            EglProbe::NoDisplay(e) => r.failed(
                "EGL/GLES"@,
                "  Failed to create EGL display: "@ + e@
                    + "\n  GPU drivers may be missing or incomplete.\n  Ubuntu: `sudo ubuntu-drivers autoinstall`\n  Fedora: `sudo dnf install mesa-libEGL`"@,
                ms,
            ),
            EglProbe::NoContext(e) => r.failed(
                "EGL/GLES"@,
                "  Failed to create EGL context: "@ + e@
                    + "\n  GPU does not support the required OpenGL ES features."@,
                ms,
            ),
            EglProbe::Formats { codes, uevent } => r.passed(
                "EGL/GLES"@,
                nodes::device_name(common::maybe(uevent), n) + (if has_hdr_format(
                    text::texts(codes@),
                ) {
                    " (HDR-capable, formats: "@
                } else {
                    " (SDR-only, formats: "@
                }) + text::listed_with(format_names(text::texts(codes@)), ", "@) + ")"@,
                ms,
            ),
        },
    }
}

/// Notes what came of setting up rendering; see [`after_egl`] and
/// [`egl_found`].
pub fn check_egl(report: &mut HealthReport, node: Option<&str>, egl: &EglProbe, ms: u64) -> (r: Option<
    (String, bool),
>)
    ensures
        ({
            let n = match node {
                Some(n) => Some(n@),
                None => None,
            };
            &&& final(report)@ == after_egl(old(report)@, n, *egl, ms)
            &&& match r {
                Some((name, hdr)) => egl_found(n, *egl) == Some((name@, hdr)),
                None => egl_found(n, *egl) is None,
            }
        }),
{
    let n: &str = match node {
        Some(n) => n,
        None => return None,
    };
    match egl {
        EglProbe::NotOpened(e) => {
            report.add_failed(
                "EGL/GLES",
                text::joined("  Cannot open render node for EGL probe: ", e.as_str()),
                ms,
            );
            None
        },
        EglProbe::NoGbm(e) => {
            let mut message = text::joined("  Failed to create GBM device: ", e.as_str());
            message.append(
                "\n  libgbm is required for GPU rendering.\n  Ubuntu: `sudo apt install libgbm1`\n  Fedora: `sudo dnf install mesa-libgbm`",
            );
            report.add_failed("EGL/GLES", message, ms);
            None
        },
        EglProbe::NoDisplay(e) => {
            let mut message = text::joined("  Failed to create EGL display: ", e.as_str());
            message.append(
                "\n  GPU drivers may be missing or incomplete.\n  Ubuntu: `sudo ubuntu-drivers autoinstall`\n  Fedora: `sudo dnf install mesa-libEGL`",
            );
            report.add_failed("EGL/GLES", message, ms);
            None
        },
        EglProbe::NoContext(e) => {
            let mut message = text::joined("  Failed to create EGL context: ", e.as_str());
            message.append("\n  GPU does not support the required OpenGL ES features.");
            report.add_failed("EGL/GLES", message, ms);
            None
        },
        EglProbe::Formats { codes, uevent } => {
            let sorted = common::sort_texts(codes);
            let names = drop_repeats(&sorted);
            let hdr = common::is_listed(codes, "Abgr2101010") || common::is_listed(
                codes,
                "Abgr16161616f",
            );
            let name = match uevent {
                Some(u) => nodes::gpu_name(Some(u.as_str()), n),
                None => nodes::gpu_name(None, n),
            };
            let list = text::join_texts(&names, ", ");
            let mut message = name.clone();
            if hdr {
                message.append(" (HDR-capable, formats: ");
            } else {
                message.append(" (SDR-only, formats: ");
            }
            message.append(list.as_str());
            message.append(")");
            report.add_passed("EGL/GLES", message, ms);
            Some((name, hdr))
        },
    }
}

/// The parts of a version number: 10, 10 and 12 bits.
pub open spec fn version_parts(v: u32) -> (int, int, int) {
    (v as int / 0x40_0000, v as int / 0x1000 % 0x400, v as int % 0x1000)
}

/// The first part of a version number.
pub fn vk_version_major(v: u32) -> (r: u32)
    ensures
        r == version_parts(v).0,
{
    v / 0x40_0000
}

/// The second part of a version number.
pub fn vk_version_minor(v: u32) -> (r: u32)
    ensures
        r == version_parts(v).1,
{
    v / 0x1000 % 0x400
}

/// The third part of a version number.
pub fn vk_version_patch(v: u32) -> (r: u32)
    ensures
        r == version_parts(v).2,
{
    v % 0x1000
}

/// The parts make up the version number.
pub proof fn version_parts_make_version(v: u32)
    ensures
        v == version_parts(v).0 * 0x40_0000 + version_parts(v).1 * 0x1000 + version_parts(v).2,
        version_parts(v).1 < 0x400,
        version_parts(v).2 < 0x1000,
{
}

/// A version number with dots.
pub open spec fn version_text(v: u32) -> Seq<char> {
    let (a, b, c) = version_parts(v);
    text::decimal(a as nat) + "."@ + text::decimal(b as nat) + "."@ + text::decimal(c as nat)
}

/// A version number with dots; see [`version_text`].
fn show_version(v: u32) -> (r: String)
    ensures
        r@ == version_text(v),
{
    let mut r = text::decimal_string(vk_version_major(v) as u64);
    let minor = text::decimal_string(vk_version_minor(v) as u64);
    let patch = text::decimal_string(vk_version_patch(v) as u64);
    r.append(".");
    r.append(minor.as_str());
    r.append(".");
    r.append(patch.as_str());
    r
}

/// What came of setting up the encoder's device.
#[derive(Debug)]
pub enum VulkanProbe {
    /// It could not be set up.
    Failed(String),
    /// It was set up.
    Found(VulkanDevice),
}

/// The encoder's device.
#[derive(Debug)]
pub struct VulkanDevice {
    /// Its name.
    pub name: String,
    /// The version of its driver.
    pub driver_version: u32,
    /// The version of the interface.
    pub api_version: u32,
    /// It encodes H.264.
    pub h264: bool,
    /// It encodes HEVC.
    pub h265: bool,
    /// It encodes AV1.
    pub av1: bool,
    /// Whether it takes memory by descriptor, and images by format modifier;
    /// or why that could not be asked.
    pub extensions: Result<(bool, bool), String>,
}

/// The report after the encoder's device was set up.
pub open spec fn after_vulkan(r: ReportValues, vulkan: VulkanProbe, ms: u64) -> ReportValues {
    match vulkan {
        VulkanProbe::Found(d) => r.passed(
            "Vulkan"@,
            d.name@ + ", driver "@ + version_text(d.driver_version) + ", Vulkan "@ + version_text(
                d.api_version,
            ),
            ms,
        ),
        VulkanProbe::Failed(e) => r.failed(
            "Vulkan"@,
            "  Failed to initialize Vulkan: "@ + e@
                + "\n  Ensure Vulkan drivers with video encode support are installed.\n  Requires NVIDIA RTX 20xx+, AMD RDNA2+, or Intel Arc.\n  Ubuntu: `sudo ubuntu-drivers autoinstall`\n  Fedora: `sudo dnf install vulkan-loader mesa-vulkan-drivers`"@,
            ms,
        ),
    }
}

/// Notes what came of setting up the encoder's device; see [`after_vulkan`].
pub fn check_vulkan(report: &mut HealthReport, vulkan: &VulkanProbe, ms: u64)
    ensures
        final(report)@ == after_vulkan(old(report)@, *vulkan, ms),
{
    match vulkan {
        VulkanProbe::Found(d) => {
            let driver = show_version(d.driver_version);
            let api = show_version(d.api_version);
            let mut message = text::joined(d.name.as_str(), ", driver ");
            message.append(driver.as_str());
            message.append(", Vulkan ");
            message.append(api.as_str());
            report.add_passed("Vulkan", message, ms);
        },
        VulkanProbe::Failed(e) => {
            let mut message = text::joined("  Failed to initialize Vulkan: ", e.as_str());
            message.append(
                "\n  Ensure Vulkan drivers with video encode support are installed.\n  Requires NVIDIA RTX 20xx+, AMD RDNA2+, or Intel Arc.\n  Ubuntu: `sudo ubuntu-drivers autoinstall`\n  Fedora: `sudo dnf install vulkan-loader mesa-vulkan-drivers`",
            );
            report.add_failed("Vulkan", message, ms);
        },
    }
}

/// The bits of the codecs that a device encodes.
pub open spec fn codec_bits(h264: bool, h265: bool, av1: bool) -> u32 {
    (if h264 {
        CODEC_H264 | CODEC_H264_HIGH_8444
    } else {
        0
    }) | (if h265 {
        CODEC_HEVC | CODEC_HEVC_MAIN10 | CODEC_HEVC_REXT_8444 | CODEC_HEVC_REXT_10444
    } else {
        0
    }) | (if av1 {
        CODEC_AV1_MAIN8 | CODEC_AV1_MAIN10 | CODEC_AV1_HIGH_8444 | CODEC_AV1_HIGH_10444
    } else {
        0
    })
}

/// The names of the codecs that a device encodes.
pub open spec fn codec_names(h264: bool, h265: bool, av1: bool) -> Seq<Seq<char>> {
    (if h264 {
        seq!["H.264"@]
    } else {
        Seq::empty()
    }) + (if h265 {
        seq!["HEVC"@]
    } else {
        Seq::empty()
    }) + (if av1 {
        seq!["AV1"@]
    } else {
        Seq::empty()
    })
}

/// A device that encodes all codecs has all bits.
pub proof fn all_codecs_give_all_bits()
    ensures
        codec_bits(true, true, true) == SERVER_CODEC_MODE_SUPPORT,
        SERVER_CODEC_MODE_SUPPORT == 0x7f_0301,
        codec_bits(false, false, false) == 0,
{
    assert((0x1u32 | 0x4_0000u32) | (0x100u32 | 0x200u32 | 0x8_0000u32 | 0x10_0000u32) | (0x1_0000u32
        | 0x2_0000u32 | 0x20_0000u32 | 0x40_0000u32) == 0x7f_0301u32) by (bit_vector);
    assert(0x1u32 | 0x4_0000u32 | 0x100u32 | 0x8_0000u32 | 0x200u32 | 0x10_0000u32 | 0x1_0000u32
        | 0x20_0000u32 | 0x2_0000u32 | 0x40_0000u32 == 0x7f_0301u32) by (bit_vector);
    assert(0u32 | 0u32 | 0u32 == 0u32) by (bit_vector);
}

/// The report after the codecs were asked for.
pub open spec fn after_codecs(r: ReportValues, vulkan: VulkanProbe, ms: u64) -> ReportValues {
    match vulkan {
        VulkanProbe::Failed(_) => r.failed("Codecs"@, "  Skipped (Vulkan check failed)."@, ms),
        VulkanProbe::Found(d) => {
            let known = ReportValues {
                supported_codecs: codec_bits(d.h264, d.h265, d.av1),
                ..r
            };
            let names = codec_names(d.h264, d.h265, d.av1);
            if names.len() == 0 {
                known.failed(
                    "Codecs"@,
                    "  No video encode codec supported (H.264, HEVC, AV1).\n  GPU driver may be outdated or missing Vulkan Video extensions.\n  Update to the latest GPU driver."@,
                    ms,
                )
            } else {
                known.passed("Codecs"@, text::listed_with(names, ", "@), ms)
            }
        },
    }
}

/// Notes the codecs; see [`after_codecs`].
pub fn check_codecs(report: &mut HealthReport, vulkan: &VulkanProbe, ms: u64)
    ensures
        final(report)@ == after_codecs(old(report)@, *vulkan, ms),
{
    let d = match vulkan {
        VulkanProbe::Found(d) => d,
        VulkanProbe::Failed(_) => {
            report.add_failed("Codecs", "  Skipped (Vulkan check failed).".to_owned(), ms);
            return;
        },
    };
    let h264: u32 = if d.h264 {
        CODEC_H264 | CODEC_H264_HIGH_8444
    } else {
        0
    };
    let h265: u32 = if d.h265 {
        CODEC_HEVC | CODEC_HEVC_MAIN10 | CODEC_HEVC_REXT_8444 | CODEC_HEVC_REXT_10444
    } else {
        0
    };
    let av1: u32 = if d.av1 {
        CODEC_AV1_MAIN8 | CODEC_AV1_MAIN10 | CODEC_AV1_HIGH_8444 | CODEC_AV1_HIGH_10444
    } else {
        0
    };
    let mut names: Vec<String> = Vec::new();
    if d.h264 {
        names.push("H.264".to_owned());
    }
    if d.h265 {
        names.push("HEVC".to_owned());
    }
    if d.av1 {
        names.push("AV1".to_owned());
    }
    assert(text::texts(names@) == codec_names(d.h264, d.h265, d.av1));
    let ghost before = report@;
    report.supported_codecs = h264 | h265 | av1;
    assert(report@ == (ReportValues {
        supported_codecs: codec_bits(d.h264, d.h265, d.av1),
        ..before
    }));
    if names.len() == 0 {
        report.add_failed(
            "Codecs",
            "  No video encode codec supported (H.264, HEVC, AV1).\n  GPU driver may be outdated or missing Vulkan Video extensions.\n  Update to the latest GPU driver.".to_owned(),
            ms,
        );
    } else {
        let message = text::join_texts(&names, ", ");
        report.add_passed("Codecs", message, ms);
    }
}

/// The names of the extensions that are missing.
pub open spec fn missing_extensions(memory_fd: bool, modifier: bool) -> Seq<Seq<char>> {
    (if !memory_fd {
        seq!["VK_KHR_external_memory_fd"@]
    } else {
        Seq::empty()
    }) + (if !modifier {
        seq!["VK_EXT_image_drm_format_modifier"@]
    } else {
        Seq::empty()
    })
}

/// Buffers can be shared with the encoder.
pub open spec fn shares_buffers(vulkan: VulkanProbe) -> bool {
    vulkan matches VulkanProbe::Found(d) && d.extensions == Ok::<(bool, bool), String>((true, true))
}

/// The report after it was asked whether buffers can be shared.
pub open spec fn after_dmabuf(r: ReportValues, vulkan: VulkanProbe, ms: u64) -> ReportValues {
    match vulkan {
        VulkanProbe::Failed(_) => r.failed("DMA-BUF"@, "  Skipped (Vulkan check failed)."@, ms),
        VulkanProbe::Found(d) => match d.extensions {
            Err(e) => r.failed(
                "DMA-BUF"@,
                "  Failed to enumerate Vulkan device extensions: "@ + e@,
                ms,
            ),
            Ok((memory_fd, modifier)) => if memory_fd && modifier {
                r.passed(
                    "DMA-BUF"@,
                    "VK_KHR_external_memory_fd, VK_EXT_image_drm_format_modifier"@,
                    ms,
                )
            } else {
                r.failed(
                    "DMA-BUF"@,
                    "  Missing extensions: "@ + text::listed_with(
                        missing_extensions(memory_fd, modifier),
                        ", "@,
                    )
                        + "\n  DMA-BUF import is required for zero-copy video encoding.\n  Update GPU drivers to the latest version."@,
                    ms,
                )
            },
        },
    }
}

/// Notes whether buffers can be shared; see [`after_dmabuf`] and
/// [`shares_buffers`].
pub fn check_dmabuf(report: &mut HealthReport, vulkan: &VulkanProbe, ms: u64) -> (r: bool)
    ensures
        final(report)@ == after_dmabuf(old(report)@, *vulkan, ms),
        r == shares_buffers(*vulkan),
{
    let d = match vulkan {
        VulkanProbe::Found(d) => d,
        VulkanProbe::Failed(_) => {
            report.add_failed("DMA-BUF", "  Skipped (Vulkan check failed).".to_owned(), ms);
            return false;
        },
    };
    match &d.extensions {
        Err(e) => {
            report.add_failed(
                "DMA-BUF",
                text::joined("  Failed to enumerate Vulkan device extensions: ", e.as_str()),
                ms,
            );
            false
        },
        Ok((memory_fd, modifier)) => {
            if *memory_fd && *modifier {
                report.add_passed(
                    "DMA-BUF",
                    "VK_KHR_external_memory_fd, VK_EXT_image_drm_format_modifier".to_owned(),
                    ms,
                );
                return true;
            }
            let mut missing: Vec<String> = Vec::new();
            if !*memory_fd {
                missing.push("VK_KHR_external_memory_fd".to_owned());
            }
            if !*modifier {
                missing.push("VK_EXT_image_drm_format_modifier".to_owned());
            }
            assert(text::texts(missing@) == missing_extensions(*memory_fd, *modifier));
            let list = text::join_texts(&missing, ", ");
            let mut message = text::joined("  Missing extensions: ", list.as_str());
            message.append(
                "\n  DMA-BUF import is required for zero-copy video encoding.\n  Update GPU drivers to the latest version.",
            );
            report.add_failed("DMA-BUF", message, ms);
            false
        },
    }
}

/// What was observed of the graphics device. What a check does not get to is
/// not looked at.
#[derive(Debug)]
pub struct GpuObservations {
    /// The node that the environment names.
    pub environment: Option<String>,
    /// The device that is configured.
    pub configured: Option<String>,
    /// A configured path is there.
    pub configured_exists: bool,
    /// The nodes.
    pub dri: DriListing,
    /// What came of opening the chosen node.
    pub access: NodeAccess,
    /// What came of setting up rendering.
    pub egl: EglProbe,
    /// What came of setting up the encoder's device.
    pub vulkan: VulkanProbe,
    /// How long each check took, in milliseconds: nodes, access, rendering,
    /// encoder's device, codecs, buffers.
    pub times: GpuTimes,
}

/// How long each check took, in milliseconds.
#[derive(Debug, Clone, Copy, PartialEq, Eq, Structural)]
pub struct GpuTimes {
    /// Looking for nodes.
    pub nodes: u64,
    /// Opening the node.
    pub access: u64,
    /// Setting up rendering.
    pub egl: u64,
    /// Setting up the encoder's device.
    pub vulkan: u64,
    /// Asking for codecs.
    pub codecs: u64,
    /// Asking for shared buffers.
    pub dmabuf: u64,
}

impl GpuObservations {
    /// What looking for the node came to.
    pub open spec fn resolved(self) -> Result<Seq<char>, Seq<char>> {
        nodes::node_of(
            common::maybe(self.environment),
            common::maybe(self.configured),
            self.configured_exists,
            self.dri,
        )
    }

    /// The node that is opened.
    pub open spec fn chosen(self) -> Option<Seq<char>> {
        chosen_of(self.resolved(), fallback_of(self.dri))
    }

    /// The node on which rendering is set up: the one that was opened, else
    /// the first.
    pub open spec fn egl_node(self) -> Option<Seq<char>> {
        if self.access.error is None && self.chosen() is Some {
            self.chosen()
        } else {
            fallback_of(self.dri)
        }
    }

    /// The name of the device.
    pub open spec fn name(self) -> Seq<char> {
        match self.vulkan {
            VulkanProbe::Found(d) => d.name@,
            VulkanProbe::Failed(_) => match egl_found(self.egl_node(), self.egl) {
                Some((name, _)) => name,
                None => Seq::empty(),
            },
        }
    }

    /// The report after all checks of the graphics device.
    pub open spec fn checked(self, r: ReportValues) -> ReportValues {
        let r1 = after_render_nodes(r, self.dri, self.times.nodes);
        let r2 = after_choice(
            r1,
            common::maybe(self.configured),
            self.resolved(),
            fallback_of(self.dri),
            self.times.access,
        );
        let r3 = after_access(r2, self.chosen(), self.access, self.times.access);
        let r4 = after_egl(r3, self.egl_node(), self.egl, self.times.egl);
        let r5 = after_vulkan(r4, self.vulkan, self.times.vulkan);
        let r6 = after_codecs(r5, self.vulkan, self.times.codecs);
        let r7 = after_dmabuf(r6, self.vulkan, self.times.dmabuf);
        let found = egl_found(self.egl_node(), self.egl);
        ReportValues {
            dma_buf_supported: shares_buffers(self.vulkan),
            gpu_name: if self.vulkan is Found || found is Some {
                self.name()
            } else {
                r7.gpu_name
            },
            hdr_supported: match found {
                Some((_, hdr)) => hdr,
                None => r7.hdr_supported,
            },
            ..r7
        }
    }
}

/// The checks of the graphics device keep the report consistent.
pub proof fn checks_keep_consistent(seen: GpuObservations, r: ReportValues)
    requires
        r.is_consistent(),
    ensures
        seen.checked(r).is_consistent(),
{
    let t = seen.times;
    let r1 = after_render_nodes(r, seen.dri, t.nodes);
    last_noted(r, r1);
    let r2 = after_choice(
        r1,
        common::maybe(seen.configured),
        seen.resolved(),
        fallback_of(seen.dri),
        t.access,
    );
    if r2 != r1 {
        last_noted(r1, r2);
    }
    let r3 = after_access(r2, seen.chosen(), seen.access, t.access);
    if r3 != r2 {
        last_noted(r2, r3);
    }
    let r4 = after_egl(r3, seen.egl_node(), seen.egl, t.egl);
    if r4 != r3 {
        last_noted(r3, r4);
    }
    let r5 = after_vulkan(r4, seen.vulkan, t.vulkan);
    last_noted(r4, r5);
    let r6 = after_codecs(r5, seen.vulkan, t.codecs);
    if let VulkanProbe::Found(d) = seen.vulkan {
        let known = ReportValues { supported_codecs: codec_bits(d.h264, d.h265, d.av1), ..r5 };
        assert(known.checks == r5.checks && known.all_fatal_passed == r5.all_fatal_passed);
        last_noted(known, r6);
    } else {
        last_noted(r5, r6);
    }
    let r7 = after_dmabuf(r6, seen.vulkan, t.dmabuf);
    last_noted(r6, r7);
    let r8 = seen.checked(r);
    assert(r8.checks == r7.checks && r8.all_fatal_passed == r7.all_fatal_passed);
}

/// One more check keeps the report consistent.
pub proof fn last_noted(before: ReportValues, after: ReportValues)
    requires
        before.is_consistent(),
        exists|name: Seq<char>, outcome: report::CheckOutcome, message: Seq<char>, ms: u64|
            after == #[trigger] before.with(name, outcome, message, ms),
    ensures
        after.is_consistent(),
{
    let (name, outcome, message, ms) = choose|
        name: Seq<char>,
        outcome: report::CheckOutcome,
        message: Seq<char>,
        ms: u64,
    | after == #[trigger] before.with(name, outcome, message, ms);
    report::noting_keeps_consistent(before, name, outcome, message, ms);
}

/// A text that may be missing.
fn as_text(s: &Option<String>) -> (r: Option<&str>)
    ensures
        match r {
            Some(t) => common::maybe(*s) == Some(t@),
            None => s is None,
        },
{
    match s {
        Some(s) => Some(s.as_str()),
        None => None,
    }
}

/// The path of the first node; see [`fallback_of`].
fn first_node(dri: &DriListing) -> (r: Option<String>)
    ensures
        common::maybe(r) == fallback_of(*dri),
{
    match dri {
        DriListing::Nodes(n) => {
            let names = nodes::render_node_names(n);
            proof {
                assert(nodes::ordered_names(n@).len() == names@.len());
            }
            if names.len() == 0 {
                return None;
            }
            assert(nodes::ordered_names(n@)[0] == names@[0]@);
            Some(text::joined("/dev/dri/", names[0].as_str()))
        },
        _ => None,
    }
}

/// The node on which rendering is set up: `chosen`, the node that was to be
/// opened, if that came off, else the first; see [`GpuObservations::egl_node`].
pub fn node_to_render(chosen: Option<String>, access: &NodeAccess, dri: &DriListing) -> (r: Option<String>)
    ensures
        common::maybe(r) == if access.error is None && chosen is Some {
            common::maybe(chosen)
        } else {
            fallback_of(*dri)
        },
{
    if access.error.is_none() && chosen.is_some() {
        return chosen;
    }
    first_node(dri)
}

/// The node that is to be opened; see [`GpuObservations::chosen`].
pub fn node_to_open(
    environment: &Option<String>,
    configured: &Option<String>,
    configured_exists: bool,
    dri: &DriListing,
) -> (r: Option<String>)
    ensures
        common::maybe(r) == chosen_of(
            nodes::node_of(
                common::maybe(*environment),
                common::maybe(*configured),
                configured_exists,
                *dri,
            ),
            fallback_of(*dri),
        ),
{
    match nodes::find_render_node(as_text(environment), as_text(configured), configured_exists, dri) {
        Ok(n) => Some(n),
        Err(_) => first_node(dri),
    }
}

/// All checks of the graphics device; see [`GpuObservations::checked`].
pub fn run_gpu_checks(report: &mut HealthReport, seen: &GpuObservations)
    ensures
        final(report)@ == seen.checked(old(report)@),
{
    let fallback = check_render_nodes(report, &seen.dri, seen.times.nodes);
    let resolved = nodes::find_render_node(
        as_text(&seen.environment),
        as_text(&seen.configured),
        seen.configured_exists,
        &seen.dri,
    );
    let chosen = choose_node(report, &seen.configured, &resolved, &fallback, seen.times.access);
    let opened = check_render_access(report, &chosen, &seen.access, seen.times.access);
    let egl_node = match &opened {
        Some(n) => Some(n.as_str()),
        None => as_text(&fallback),
    };
    let found = check_egl(report, egl_node, &seen.egl, seen.times.egl);
    check_vulkan(report, &seen.vulkan, seen.times.vulkan);
    check_codecs(report, &seen.vulkan, seen.times.codecs);
    let shares = check_dmabuf(report, &seen.vulkan, seen.times.dmabuf);
    report.dma_buf_supported = shares;
    match &seen.vulkan {
        VulkanProbe::Found(d) => {
            report.gpu_name = d.name.clone();
        },
        VulkanProbe::Failed(_) => {
            if let Some((name, _)) = &found {
                report.gpu_name = name.clone();
            }
        },
    }
    if let Some((_, hdr)) = &found {
        report.hdr_supported = *hdr;
    }
}

/// Each codec that a device encodes has its bits, those of 8 and, but for
/// H.264, of 10 bits, with and without full chroma; and no other bits are set.
pub proof fn codecs_have_their_bits(h264: bool, h265: bool, av1: bool)
    ensures
        codec_bits(h264, h265, av1) == (if h264 { 0x4_0001int } else { 0 }) + (if h265 { 0x18_0300int } else {
            0
        }) + (if av1 { 0x63_0000int } else { 0 }),
        codec_names(h264, h265, av1).contains("H.264"@) <==> h264,
        codec_names(h264, h265, av1).contains("HEVC"@) <==> h265,
        codec_names(h264, h265, av1).contains("AV1"@) <==> av1,
        codec_names(h264, h265, av1).len() == (if h264 { 1int } else { 0 }) + (if h265 { 1int } else { 0 })
            + (if av1 { 1int } else { 0 }),
{
    assert(codec_bits(h264, h265, av1) == (if h264 { 0x4_0001u32 } else { 0u32 }) + (if h265 {
        0x18_0300u32
    } else {
        0u32
    }) + (if av1 { 0x63_0000u32 } else { 0u32 })) by (bit_vector);
    reveal_strlit("H.264");
    reveal_strlit("HEVC");
    reveal_strlit("AV1");
    assert("H.264"@.len() == 5 && "HEVC"@.len() == 4 && "AV1"@.len() == 3);
    let names = codec_names(h264, h265, av1);
    let second: int = if h264 { 1 } else { 0 };
    let third: int = second + if h265 { 1int } else { 0 };
    if h264 {
        assert(names[0] == "H.264"@);
    }
    if h265 {
        assert(names[second] == "HEVC"@);
    }
    if av1 {
        assert(names[third] == "AV1"@);
    }
}

/// Texts that repeat are named once: nothing is lost and nothing added, and no
/// two neighbours are the same.
pub proof fn repeats_are_dropped(s: Seq<Seq<char>>, x: Seq<char>)
    ensures
        without_repeats(s).contains(x) <==> s.contains(x),
        forall|i: int|
            0 < i < without_repeats(s).len() ==> #[trigger] without_repeats(s)[i]
                != without_repeats(s)[i - 1],
    decreases s.len(),
{
    if s.len() > 1 {
        let rest = s.drop_last();
        repeats_are_dropped(rest, x);
        last_stays_last(rest);
        let kept = without_repeats(rest);
        let all = without_repeats(s);
        assert(s[s.len() - 1] == s.last());
        assert(rest.last() == s[s.len() - 2]);
        assert(forall|i: int| #![trigger s[i]] 0 <= i < rest.len() ==> s[i] == rest[i]);
        if rest.contains(x) {
            let i = choose|i: int| 0 <= i < rest.len() && rest[i] == x;
            assert(s[i] == x);
        }
        if s[s.len() - 2] == s.last() {
            if s.contains(x) {
                let i = choose|i: int| 0 <= i < s.len() && s[i] == x;
                if i == s.len() - 1 {
                    assert(rest[s.len() - 2] == x);
                } else {
                    assert(rest[i] == x);
                }
            }
        } else {
            assert(all == kept.push(s.last()));
            assert(all[kept.len() as int] == s.last());
            if kept.contains(x) {
                let k = choose|k: int| 0 <= k < kept.len() && kept[k] == x;
                assert(all[k] == x);
            }
            if all.contains(x) {
                let k = choose|k: int| 0 <= k < all.len() && all[k] == x;
                if k < kept.len() {
                    assert(kept[k] == x);
                }
            }
            if s.contains(x) {
                let i = choose|i: int| 0 <= i < s.len() && s[i] == x;
                if i < rest.len() {
                    assert(rest[i] == x);
                }
            }
            assert forall|i: int| 0 < i < all.len() implies #[trigger] all[i] != all[i - 1] by {
                if i < kept.len() {
                    assert(all[i] == kept[i] && all[i - 1] == kept[i - 1]);
                } else {
                    assert(all[i - 1] == kept.last());
                }
            }
        }
    }
}

/// The last text is still the last where repeats are dropped.
proof fn last_stays_last(s: Seq<Seq<char>>)
    requires
        s.len() > 0,
    ensures
        without_repeats(s).len() > 0,
        without_repeats(s).last() == s.last(),
    decreases s.len(),
{
    if s.len() > 1 {
        last_stays_last(s.drop_last());
    }
}

/// Colours go beyond the standard range exactly if one of two formats can be
/// rendered to.
pub proof fn two_formats_go_beyond(codes: Seq<Seq<char>>)
    ensures
        has_hdr_format(codes) <==> exists|i: int|
            0 <= i < codes.len() && (#[trigger] codes[i] == "Abgr2101010"@ || codes[i]
                == "Abgr16161616f"@),
{
}

/// The first of the nodes that render is the one to fall back to, and a node
/// that was found is used before it.
pub proof fn nodes_are_chosen(dri: DriListing, listed: Vec<nodes::DeviceNode>, node: Seq<char>, why: Seq<char>)
    ensures
        dri == DriListing::Nodes(listed) && nodes::ordered_names(listed@).len() > 0 ==> fallback_of(dri)
            == Some("/dev/dri/"@ + nodes::ordered_names(listed@)[0]),
        dri == DriListing::Nodes(listed) && nodes::ordered_names(listed@).len() == 0 ==> fallback_of(
            dri,
        ) is None,
        !(dri is Nodes) ==> fallback_of(dri) is None,
        chosen_of(Ok(node), fallback_of(dri)) == Some(node),
        chosen_of(Err(why), fallback_of(dri)) == fallback_of(dri),
{
}

/// Each check of the graphics device is noted under its name and ends as what
/// was observed says; what there is nothing to observe of is not noted.
pub proof fn device_checks_end_as_observed(
    r: ReportValues,
    dri: DriListing,
    node: Option<Seq<char>>,
    access: NodeAccess,
    egl: EglProbe,
    vulkan: VulkanProbe,
    ms: u64,
)
    ensures
        report::notes(
            r,
            after_render_nodes(r, dri, ms),
            "Render nodes"@,
            if fallback_of(dri) is Some { CheckOutcome::Passed } else { CheckOutcome::Failed },
            ms,
        ),
        node is None ==> after_access(r, node, access, ms) == r && after_egl(r, node, egl, ms) == r,
        node is Some ==> report::notes(
            r,
            after_access(r, node, access, ms),
            "Render access"@,
            if access.error is None { CheckOutcome::Passed } else { CheckOutcome::Failed },
            ms,
        ),
        node is Some ==> report::notes(
            r,
            after_egl(r, node, egl, ms),
            "EGL/GLES"@,
            if egl is Formats { CheckOutcome::Passed } else { CheckOutcome::Failed },
            ms,
        ),
        report::notes(
            r,
            after_vulkan(r, vulkan, ms),
            "Vulkan"@,
            if vulkan is Found { CheckOutcome::Passed } else { CheckOutcome::Failed },
            ms,
        ),
        report::notes(
            r,
            after_dmabuf(r, vulkan, ms),
            "DMA-BUF"@,
            if shares_buffers(vulkan) { CheckOutcome::Passed } else { CheckOutcome::Failed },
            ms,
        ),
        shares_buffers(vulkan) <==> (vulkan matches VulkanProbe::Found(d) && (d.extensions matches Ok(e)
            && e.0 && e.1)),
        vulkan matches VulkanProbe::Found(d) ==> report::notes(
            (ReportValues { supported_codecs: codec_bits(d.h264, d.h265, d.av1), ..r }),
            after_codecs(r, vulkan, ms),
            "Codecs"@,
            if d.h264 || d.h265 || d.av1 { CheckOutcome::Passed } else { CheckOutcome::Failed },
            ms,
        ),
        vulkan is Failed ==> report::notes(
            r,
            after_codecs(r, vulkan, ms),
            "Codecs"@,
            CheckOutcome::Failed,
            ms,
        ),
{
    if let VulkanProbe::Found(d) = vulkan {
        codecs_have_their_bits(d.h264, d.h265, d.av1);
    }
}

/// The graphics device passes exactly if there is a node that renders, a
/// configured one was found, the chosen one can be opened, rendering can be set
/// up, and the encoder's device is there, encodes something and shares buffers.
pub proof fn what_the_device_needs(seen: GpuObservations, r: ReportValues)
    ensures
        seen.checked(r).all_fatal_passed <==> {
            &&& r.all_fatal_passed
            &&& fallback_of(seen.dri) is Some
            &&& seen.resolved() is Err ==> seen.configured is None
            &&& seen.chosen() is Some ==> seen.access.error is None
            &&& seen.egl_node() is Some ==> seen.egl is Formats
            &&& seen.vulkan matches VulkanProbe::Found(d) && (d.h264 || d.h265 || d.av1)
            &&& shares_buffers(seen.vulkan)
        },
        seen.checked(r).dma_buf_supported == shares_buffers(seen.vulkan),
        seen.vulkan matches VulkanProbe::Found(d) ==> {
            &&& seen.checked(r).gpu_name == d.name@
            &&& seen.checked(r).supported_codecs == codec_bits(d.h264, d.h265, d.av1)
        },
        seen.vulkan is Failed ==> seen.checked(r).supported_codecs == r.supported_codecs,
        seen.egl_node() is Some ==> (seen.egl matches EglProbe::Formats { codes, uevent } ==> {
            &&& seen.checked(r).hdr_supported == has_hdr_format(text::texts(codes@))
            &&& seen.vulkan is Failed ==> seen.checked(r).gpu_name == nodes::device_name(
                common::maybe(uevent),
                seen.egl_node()->0,
            )
        }),
{
    if let VulkanProbe::Found(d) = seen.vulkan {
        codecs_have_their_bits(d.h264, d.h265, d.av1);
    }
}

/// A version is written as its three parts with dots between them.
pub proof fn versions_are_written_out(major: int, minor: int, patch: int, v: u32)
    requires
        0 <= major,
        0 <= minor < 0x400,
        0 <= patch < 0x1000,
        v == major * 0x40_0000 + minor * 0x1000 + patch,
    ensures
        version_parts(v) == (major, minor, patch),
        version_text(v) == text::decimal(major as nat) + "."@ + text::decimal(minor as nat) + "."@
            + text::decimal(patch as nat),
{
    version_parts_make_version(v);
    let (a, b, c) = version_parts(v);
    let high = a * 0x400 + b;
    let wanted = major * 0x400 + minor;
    assert(high * 0x1000 + c == wanted * 0x1000 + patch);
    assert(high == wanted && c == patch);
    assert(a == major && b == minor);
}

} // verus!
