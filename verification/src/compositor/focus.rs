//! What is known of a window, and the ranking of windows for focus.
use vstd::prelude::*;

verus! {

/// Steam's own app id, used for its Big Picture window.
pub const STEAM_BIG_PICTURE_APPID: u32 = 769;

/// A rectangle in compositor space.
#[derive(Clone, Copy, Debug, PartialEq, Eq, Structural)]
pub struct Rectangle {
    pub x: i32,
    pub y: i32,
    pub w: i32,
    pub h: i32,
}

impl Default for Rectangle {
    fn default() -> (r: Self)
        ensures
            r == (Rectangle { x: 0, y: 0, w: 0, h: 0 }),
    {
        Rectangle { x: 0, y: 0, w: 0, h: 0 }
    }
}

// ---------------------------------------------------------------------------
// Window flags
// ---------------------------------------------------------------------------

/// Steam overlay (`STEAM_OVERLAY` set and wider than the threshold).
pub const OVERLAY: u8 = 1;

/// Steam notification (`STEAM_OVERLAY` set, not wider than the threshold).
pub const NOTIFICATION: u8 = 2;

/// External overlay (`GAMESCOPE_EXTERNAL_OVERLAY`).
pub const EXTERNAL_OVERLAY: u8 = 4;

/// Steam streaming client (`STEAM_STREAMING_CLIENT`).
pub const STREAMING_CLIENT: u8 = 8;

/// Video window of the streaming client (`STEAM_STREAMING_CLIENT_VIDEO`).
pub const STREAMING_CLIENT_VIDEO: u8 = 16;

/// System tray icon.
pub const SYS_TRAY_ICON: u8 = 32;

/// Target of a VR overlay.
pub const VR_OVERLAY_TARGET: u8 = 64;

/// All flags that keep a window from being a candidate for focus.
pub const SKIP_FOCUS: u8 = OVERLAY | NOTIFICATION | EXTERNAL_OVERLAY | STREAMING_CLIENT
    | STREAMING_CLIENT_VIDEO | SYS_TRAY_ICON | VR_OVERLAY_TARGET;

/// Classification of overlay, tray, streaming and VR windows, one bit each.
#[derive(Clone, Copy, Debug, PartialEq, Eq, Structural)]
pub struct WindowFlags {
    pub bits: u8,
}

impl Default for WindowFlags {
    fn default() -> (r: Self)
        ensures
            r.bits == 0,
    {
        WindowFlags { bits: 0 }
    }
}

impl WindowFlags {
    /// Whether all bits of `mask` are set.
    pub open spec fn has_all(self, mask: u8) -> bool {
        self.bits & mask == mask
    }

    /// Whether some bit of `mask` is set.
    pub open spec fn has_some(self, mask: u8) -> bool {
        self.bits & mask != 0
    }

    /// No flag.
    pub fn empty() -> (r: Self)
        ensures
            r.bits == 0,
    {
        WindowFlags { bits: 0 }
    }

    /// Whether all bits of `mask` are set.
    pub fn contains(self, mask: u8) -> (r: bool)
        ensures
            r == self.has_all(mask),
    {
        self.bits & mask == mask
    }

    /// Whether some bit of `mask` is set.
    pub fn intersects(self, mask: u8) -> (r: bool)
        ensures
            r == self.has_some(mask),
    {
        self.bits & mask != 0
    }

    /// These flags with those of `mask` set.
    pub fn with(self, mask: u8) -> (r: Self)
        ensures
            r == (WindowFlags { bits: self.bits | mask }),
    {
        WindowFlags { bits: self.bits | mask }
    }

    /// These flags with those of `mask` cleared.
    pub fn without(self, mask: u8) -> (r: Self)
        ensures
            r == (WindowFlags { bits: self.bits & !mask }),
    {
        WindowFlags { bits: self.bits & !mask }
    }
}

/// Setting and clearing flags touches exactly those flags: what is set is
/// there, what is cleared is gone, and flags outside the mask stay.
pub proof fn flags_set_and_clear(bits: u8, mask: u8, other: u8)
    ensures
        (WindowFlags { bits: bits | mask }).has_all(mask),
        mask != 0 ==> (WindowFlags { bits: bits | mask }).has_some(mask),
        !(WindowFlags { bits: bits & !mask }).has_some(mask),
        mask & other == 0 ==> (WindowFlags { bits: bits | mask }).has_some(other) == (WindowFlags {
            bits,
        }).has_some(other),
        mask & other == 0 ==> (WindowFlags { bits: bits & !mask }).has_some(other) == (WindowFlags {
            bits,
        }).has_some(other),
{
    assert((bits | mask) & mask == mask) by (bit_vector);
    assert((bits & !mask) & mask == 0) by (bit_vector);
    assert(mask & other == 0 ==> (bits | mask) & other == bits & other) by (bit_vector);
    assert(mask & other == 0 ==> (bits & !mask) & other == bits & other) by (bit_vector);
}

// ---------------------------------------------------------------------------
// Window metadata
// ---------------------------------------------------------------------------

/// What is known of a window when focus is decided.
#[derive(Clone, Copy, Debug, PartialEq, Eq, Structural)]
pub struct WindowMetadata {
    /// App id of the game (0: not a game).
    pub app_id: u32,
    /// `STEAM_GAME`: the app id that the window belongs to (0 when unset).
    pub steam_app_id: u32,
    /// `STEAM_LEGACY_BIG_PICTURE` is set.
    pub steam_legacy_big_picture: bool,
    /// `STEAM_OVERLAY` is set, before the split by width.
    pub is_overlay: bool,
    /// `_WINE_HWND_STYLE` is present.
    pub has_hwnd_style: bool,
    /// `_WINE_HWND_EXSTYLE` is present.
    pub has_hwnd_style_ex: bool,
    /// The window is viewable.
    pub map_state_viewable: bool,
    /// The window is no input-only one.
    pub class_input_output: bool,
    /// The window was picked while it had no buffer.
    pub outdated_interactive_focus: bool,
    /// X11 window id (`None` for Wayland windows).
    pub x11_window_id: Option<u32>,
    /// Process id of the client (0 when unknown).
    pub pid: u32,
    /// X11 window id of the parent that the window is transient for.
    pub transient_for: Option<u32>,
    /// `_NET_WM_STATE_SKIP_TASKBAR` is set.
    pub skip_taskbar: bool,
    /// `_NET_WM_STATE_SKIP_PAGER` is set.
    pub skip_pager: bool,
    /// The window is a dialog.
    pub is_dialog: bool,
    /// The window may be a dropdown or a popup menu.
    pub maybe_a_dropdown: bool,
    /// The window takes no input, by its hints or by its style.
    pub disabled: bool,
    /// Fixed width from the size hints (0 when unset).
    pub requested_width: u32,
    /// Fixed height from the size hints (0 when unset).
    pub requested_height: u32,
    /// Bits of `_WINE_HWND_STYLE`.
    pub hwnd_style: u32,
    /// Bits of `_WINE_HWND_EXSTYLE`.
    pub hwnd_style_ex: u32,
    /// Counts up at every window that is mapped.
    pub map_sequence: u64,
    /// The window is override-redirect.
    pub override_redirect: bool,
    /// The window is an X11 one.
    pub is_x11: bool,
    /// Where the window is and how large.
    pub geometry: Rectangle,
    /// The window is fullscreen.
    pub fullscreen: bool,
    /// Opacity, 0 (transparent) to 255 (opaque).
    pub opacity: u32,
    /// `STEAM_INPUT_FOCUS`: 0 normal, 2 keyboard and pointer apart.
    pub input_focus_mode: u32,
    /// Overlay, tray, streaming and VR classification.
    pub flags: WindowFlags,
    /// Counts up at every commit of a game window.
    pub damage_sequence: u64,
}

impl Default for WindowMetadata {
    fn default() -> (r: Self)
        ensures
            r == blank_metadata(),
    {
        WindowMetadata {
            app_id: 0,
            steam_app_id: 0,
            steam_legacy_big_picture: false,
            is_overlay: false,
            has_hwnd_style: false,
            has_hwnd_style_ex: false,
            map_state_viewable: false,
            class_input_output: false,
            outdated_interactive_focus: false,
            x11_window_id: None,
            pid: 0,
            transient_for: None,
            skip_taskbar: false,
            skip_pager: false,
            is_dialog: false,
            maybe_a_dropdown: false,
            disabled: false,
            requested_width: 0,
            requested_height: 0,
            hwnd_style: 0,
            hwnd_style_ex: 0,
            map_sequence: 0,
            override_redirect: false,
            is_x11: false,
            geometry: Rectangle { x: 0, y: 0, w: 0, h: 0 },
            fullscreen: false,
            opacity: 0,
            input_focus_mode: 0,
            flags: WindowFlags { bits: 0 },
            damage_sequence: 0,
        }
    }
}

/// Metadata of which nothing is known.
pub open spec fn blank_metadata() -> WindowMetadata {
    WindowMetadata {
        app_id: 0,
        steam_app_id: 0,
        steam_legacy_big_picture: false,
        is_overlay: false,
        has_hwnd_style: false,
        has_hwnd_style_ex: false,
        map_state_viewable: false,
        class_input_output: false,
        outdated_interactive_focus: false,
        x11_window_id: None,
        pid: 0,
        transient_for: None,
        skip_taskbar: false,
        skip_pager: false,
        is_dialog: false,
        maybe_a_dropdown: false,
        disabled: false,
        requested_width: 0,
        requested_height: 0,
        hwnd_style: 0,
        hwnd_style_ex: 0,
        map_sequence: 0,
        override_redirect: false,
        is_x11: false,
        geometry: Rectangle { x: 0, y: 0, w: 0, h: 0 },
        fullscreen: false,
        opacity: 0,
        input_focus_mode: 0,
        flags: WindowFlags { bits: 0 },
        damage_sequence: 0,
    }
}

/// Extended window style `WS_EX_TRANSPARENT`.
pub const WS_EX_TRANSPARENT: u32 = 0x0000_0020;

/// Extended window style `WS_EX_CONTROLPARENT`.
pub const WS_EX_CONTROLPARENT: u32 = 0x0001_0000;

/// Extended window style `WS_EX_APPWINDOW`.
pub const WS_EX_APPWINDOW: u32 = 0x0004_0000;

/// Extended window style `WS_EX_LAYERED`.
pub const WS_EX_LAYERED: u32 = 0x0008_0000;

/// Window style `WS_DISABLED`.
pub const WS_DISABLED: u32 = 0x8000_0000;

impl WindowMetadata {
    /// A 1x1 window or a tray icon.
    pub open spec fn useless(self) -> bool {
        self.flags.has_all(SYS_TRAY_ICON) || (self.geometry.w == 1 && self.geometry.h == 1)
    }

    /// Override-redirect and of use.
    pub open spec fn overriding(self) -> bool {
        self.override_redirect && !self.useless()
    }

    /// Skips taskbar and pager and is not fullscreen.
    pub open spec fn skips(self) -> bool {
        self.skip_taskbar && self.skip_pager && !self.fullscreen
    }

    /// The layered control-parent style of a toolkit dropdown.
    pub open spec fn styled_as_dropdown(self) -> bool {
        &&& self.has_hwnd_style_ex
        &&& self.hwnd_style_ex & (WS_EX_CONTROLPARENT | WS_EX_LAYERED) == (WS_EX_CONTROLPARENT
            | WS_EX_LAYERED)
        &&& self.hwnd_style_ex & WS_EX_APPWINDOW == 0
    }

    /// A dropdown candidate that also hides from taskbar or pager, and is no
    /// dialog, unless a parentless one that skips both.
    pub open spec fn hidden_dropdown(self) -> bool {
        &&& self.maybe_a_dropdown
        &&& !self.is_dialog || (self.transient_for is None && self.skips())
        &&& self.skip_pager || self.skip_taskbar
    }

    /// The window is a dropdown; a few games are known by their app id.
    pub open spec fn dropdown(self) -> bool {
        if self.app_id == 230410 && self.maybe_a_dropdown && self.transient_for is Some && (
        self.skip_pager || self.skip_taskbar) {
            !self.useless()
        } else if self.app_id == 219890 {
            false
        } else if self.styled_as_dropdown() {
            true
        } else if (self.app_id == 1293830 || self.app_id == 1551360) && self.maybe_a_dropdown
            && self.requested_width == 0 && self.requested_height == 0 {
            false
        } else {
            (self.hidden_dropdown() || self.overriding()) && !self.useless()
        }
    }

    /// Disabled by its style.
    pub open spec fn style_disabled(self) -> bool {
        self.has_hwnd_style && self.hwnd_style & WS_DISABLED != 0
    }

    /// To be held at the size of the output.
    pub open spec fn fills_output(self) -> bool {
        &&& self.fullscreen || self.app_id == STEAM_BIG_PICTURE_APPID
        &&& self.app_id != 0
        &&& self.transient_for is None
        &&& !self.dropdown()
        &&& !self.flags.has_some(OVERLAY | NOTIFICATION | EXTERNAL_OVERLAY)
    }

    /// An opaque focus identifier for Steam: the X11 window id, or one made
    /// from the map sequence with the top bit set.
    pub fn steam_window_id(&self) -> (r: u32)
        ensures
            r == match self.x11_window_id {
                Some(id) => id,
                None => 0x8000_0000u32 | (self.map_sequence as u32 & 0x7fff_ffff),
            },
    {
        match self.x11_window_id {
            Some(id) => id,
            None => {
                let low: u32 = (self.map_sequence & 0xffff_ffff) as u32;
                let seq: u64 = self.map_sequence;
                assert((seq & 0xffff_ffff) as u32 == seq as u32) by (bit_vector);
                0x8000_0000 | (low & 0x7fff_ffff)
            },
        }
    }

    /// Whether the window belongs to a game.
    pub fn has_game_id(&self) -> (r: bool)
        ensures
            r == (self.app_id != 0),
    {
        self.app_id != 0
    }

    /// Whether the window is override-redirect and of use.
    pub fn is_override_redirect(&self) -> (r: bool)
        ensures
            r == self.overriding(),
    {
        self.override_redirect && !self.is_useless()
    }

    /// Whether the window is a tray icon or 1x1.
    pub fn is_useless(&self) -> (r: bool)
        ensures
            r == self.useless(),
    {
        self.flags.contains(SYS_TRAY_ICON) || (self.geometry.w == 1 && self.geometry.h == 1)
    }

    /// Whether the window is a dropdown.
    pub fn is_dropdown(&self) -> (r: bool)
        ensures
            r == self.dropdown(),
    {
        if self.app_id == 230410 && self.maybe_a_dropdown && self.transient_for.is_some() && (
        self.skip_pager || self.skip_taskbar) {
            return !self.is_useless();
        }
        if self.app_id == 219890 {
            return false;
        }
        if self.has_hwnd_style_ex && (self.hwnd_style_ex & (WS_EX_CONTROLPARENT | WS_EX_LAYERED)) == (
        WS_EX_CONTROLPARENT | WS_EX_LAYERED) && self.hwnd_style_ex & WS_EX_APPWINDOW == 0 {
            return true;
        }
        if (self.app_id == 1293830 || self.app_id == 1551360) && self.maybe_a_dropdown
            && self.requested_width == 0 && self.requested_height == 0 {
            return false;
        }
        let hidden = self.maybe_a_dropdown && ((!self.is_dialog || (self.transient_for.is_none()
            && self.skip_and_not_fullscreen())) && (self.skip_pager || self.skip_taskbar));
        (hidden || self.is_override_redirect()) && !self.is_useless()
    }

    /// Whether the window is disabled by its style.
    pub fn is_disabled(&self) -> (r: bool)
        ensures
            r == self.style_disabled(),
    {
        self.has_hwnd_style && self.hwnd_style & WS_DISABLED != 0
    }

    /// Whether this is a Steam Big Picture window.
    pub fn is_steam_big_picture(&self) -> (r: bool)
        ensures
            r == (self.app_id == STEAM_BIG_PICTURE_APPID),
    {
        self.app_id == STEAM_BIG_PICTURE_APPID
    }

    /// Whether the window is Steam's own.
    pub fn is_steam(&self) -> (r: bool)
        ensures
            r == (self.steam_legacy_big_picture || self.app_id == STEAM_BIG_PICTURE_APPID),
    {
        self.steam_legacy_big_picture || self.app_id == STEAM_BIG_PICTURE_APPID
    }

    /// Whether the window is held at the size of the output: a game window
    /// that went fullscreen, or Big Picture, that is no child, dropdown or
    /// overlay.
    pub fn should_fill_output(&self) -> (r: bool)
        ensures
            r == self.fills_output(),
    {
        (self.fullscreen || self.is_steam_big_picture()) && self.has_game_id()
            && self.transient_for.is_none() && !self.is_dropdown() && !self.flags.intersects(
            OVERLAY | NOTIFICATION | EXTERNAL_OVERLAY,
        )
    }

    /// Whether the window skips taskbar and pager and is not fullscreen.
    pub fn skip_and_not_fullscreen(&self) -> (r: bool)
        ensures
            r == self.skips(),
    {
        (self.skip_taskbar && self.skip_pager) && !self.fullscreen
    }
}

// ---------------------------------------------------------------------------
// Priority
// ---------------------------------------------------------------------------

/// The rank of a window: the larger key, compared field by field, has the
/// higher priority.
pub type PriorityKey = (bool, bool, bool, bool, bool, bool, bool, bool, bool, u64, u64);

/// The rank of a window.
pub open spec fn priority_key(w: WindowMetadata) -> PriorityKey {
    (
        w.app_id != 0,
        !w.overriding(),
        !w.useless(),
        !w.dropdown(),
        !w.style_disabled(),
        !w.skips(),
        !w.is_dialog,
        !w.is_x11,
        w.transient_for is None,
        w.map_sequence,
        w.damage_sequence,
    )
}

/// Whether key `a` ranks below key `b`: at the first field where they differ,
/// `a` has the smaller value (no before yes).
pub open spec fn key_below(a: PriorityKey, b: PriorityKey) -> bool {
    if a.0 != b.0 {
        b.0
    } else if a.1 != b.1 {
        b.1
    } else if a.2 != b.2 {
        b.2
    } else if a.3 != b.3 {
        b.3
    } else if a.4 != b.4 {
        b.4
    } else if a.5 != b.5 {
        b.5
    } else if a.6 != b.6 {
        b.6
    } else if a.7 != b.7 {
        b.7
    } else if a.8 != b.8 {
        b.8
    } else if a.9 != b.9 {
        a.9 < b.9
    } else {
        a.10 < b.10
    }
}

/// The ranking of windows: games first, then windows that are not
/// override-redirect, of use, no dropdown, not disabled, not skipping, no
/// dialog, not X11, without a parent; then the one mapped last, then the one
/// drawn last.
pub fn get_window_priority_key(w: &WindowMetadata) -> (k: PriorityKey)
    ensures
        k == priority_key(*w),
{
    (
        w.has_game_id(),
        !w.is_override_redirect(),
        !w.is_useless(),
        !w.is_dropdown(),
        !w.is_disabled(),
        !w.skip_and_not_fullscreen(),
        !w.is_dialog,
        !w.is_x11,
        w.transient_for.is_none(),
        w.map_sequence,
        w.damage_sequence,
    )
}

/// Whether key `a` ranks below key `b`; see [`key_below`].
pub fn ranks_below(a: PriorityKey, b: PriorityKey) -> (r: bool)
    ensures
        r == key_below(a, b),
{
    if a.0 != b.0 {
        b.0
    } else if a.1 != b.1 {
        b.1
    } else if a.2 != b.2 {
        b.2
    } else if a.3 != b.3 {
        b.3
    } else if a.4 != b.4 {
        b.4
    } else if a.5 != b.5 {
        b.5
    } else if a.6 != b.6 {
        b.6
    } else if a.7 != b.7 {
        b.7
    } else if a.8 != b.8 {
        b.8
    } else if a.9 != b.9 {
        a.9 < b.9
    } else {
        a.10 < b.10
    }
}

/// The ranking is a strict total order on keys: no key ranks below itself,
/// of two different keys exactly one ranks below the other, and ranking is
/// transitive.
pub proof fn ranking_is_a_strict_total_order(a: PriorityKey, b: PriorityKey, c: PriorityKey)
    ensures
        !key_below(a, a),
        !(key_below(a, b) && key_below(b, a)),
        a == b || key_below(a, b) || key_below(b, a),
        key_below(a, b) && key_below(b, c) ==> key_below(a, c),
{
}

/// A game window ranks above every window that is no game; among windows
/// alike in that, one that is not override-redirect ranks above one that is.
pub proof fn games_rank_first(a: WindowMetadata, b: WindowMetadata)
    ensures
        a.app_id != 0 && b.app_id == 0 ==> key_below(priority_key(b), priority_key(a)),
        (a.app_id != 0) == (b.app_id != 0) && !a.overriding() && b.overriding() ==> key_below(
            priority_key(b),
            priority_key(a),
        ),
{
}

// ---------------------------------------------------------------------------
// Connectors and overrides
// ---------------------------------------------------------------------------

/// How windows are put on virtual connectors.
#[derive(Clone, Copy, Debug, PartialEq, Eq, Structural)]
pub enum VirtualConnectorStrategy {
    SingleApplication,
    SteamControlled,
    PerAppId,
    PerWindow,
}

/// Whether the window is its own connector, so that transient links are not
/// followed for focus.
pub fn win_treat_as_per_window(meta: &WindowMetadata, strategy: VirtualConnectorStrategy) -> (r: bool)
    ensures
        r == match strategy {
            VirtualConnectorStrategy::PerWindow => true,
            VirtualConnectorStrategy::PerAppId => meta.app_id == 0,
            _ => false,
        },
{
    match strategy {
        VirtualConnectorStrategy::PerWindow => true,
        VirtualConnectorStrategy::PerAppId => meta.app_id == 0,
        VirtualConnectorStrategy::SingleApplication => false,
        VirtualConnectorStrategy::SteamControlled => false,
    }
}

/// Marks the key of a window that does not belong to Steam.
pub const NON_STEAM_WINDOW_BIT: u64 = 0x8000_0000_0000_0000;

/// Used by the key of the Steam bootstrapper.
pub const RESERVED_BIT: u64 = 0x4000_0000_0000_0000;

/// The key of the virtual connector that a window is put on.
pub open spec fn connector_key(meta: WindowMetadata, strategy: VirtualConnectorStrategy) -> u64 {
    match strategy {
        VirtualConnectorStrategy::SingleApplication => 0,
        VirtualConnectorStrategy::SteamControlled => 0,
        VirtualConnectorStrategy::PerAppId => if meta.steam_legacy_big_picture {
            1u64 | RESERVED_BIT
        } else if meta.app_id != 0 {
            meta.app_id as u64
        } else {
            NON_STEAM_WINDOW_BIT | meta.map_sequence
        },
        VirtualConnectorStrategy::PerWindow => meta.map_sequence,
    }
}

/// The key of the virtual connector that a window is put on.
pub fn virtual_connector_key(meta: &WindowMetadata, strategy: VirtualConnectorStrategy) -> (r: u64)
    ensures
        r == connector_key(*meta, strategy),
{
    match strategy {
        VirtualConnectorStrategy::SingleApplication => 0,
        VirtualConnectorStrategy::SteamControlled => 0,
        VirtualConnectorStrategy::PerAppId => {
            if meta.steam_legacy_big_picture {
                1 | RESERVED_BIT
            } else if meta.app_id != 0 {
                meta.app_id as u64
            } else {
                NON_STEAM_WINDOW_BIT | meta.map_sequence
            }
        },
        VirtualConnectorStrategy::PerWindow => meta.map_sequence,
    }
}

/// Per app id, windows of a game never share a connector with windows of
/// another game, of the legacy Big Picture or of no game.
pub proof fn app_connectors_are_apart(a: WindowMetadata, b: WindowMetadata)
    requires
        a.app_id != 0,
        !a.steam_legacy_big_picture,
        a.app_id != b.app_id || b.steam_legacy_big_picture,
    ensures
        connector_key(a, VirtualConnectorStrategy::PerAppId) != connector_key(
            b,
            VirtualConnectorStrategy::PerAppId,
        ),
{
    let seq: u64 = b.map_sequence;
    assert((1u64 | 0x4000_0000_0000_0000u64) > 0xffff_ffffu64) by (bit_vector);
    assert((0x8000_0000_0000_0000u64 | seq) > 0xffff_ffffu64) by (bit_vector);
}

/// Both windows belong to the same app.
pub open spec fn same_app(a: WindowMetadata, b: WindowMetadata) -> bool {
    (a.app_id != 0 && a.app_id == b.app_id) || (a.steam_app_id != 0 && a.steam_app_id == b.steam_app_id)
}

/// Whether two windows belong to the same app, by app id or Steam game id.
pub fn windows_share_app(a: &WindowMetadata, b: &WindowMetadata) -> (r: bool)
    ensures
        r == same_app(*a, *b),
{
    (a.app_id != 0 && a.app_id == b.app_id) || (a.steam_app_id != 0 && a.steam_app_id == b.steam_app_id)
}

/// An override-redirect window of the same app but another process that is
/// layered and lets input through.
pub open spec fn override_decoration(candidate: WindowMetadata, focus: WindowMetadata) -> bool {
    &&& candidate.pid != focus.pid
    &&& same_app(candidate, focus)
    &&& candidate.overriding()
    &&& candidate.has_hwnd_style_ex
    &&& candidate.hwnd_style_ex & (WS_EX_LAYERED | WS_EX_TRANSPARENT) == (WS_EX_LAYERED
        | WS_EX_TRANSPARENT)
}

/// Whether `candidate` decorates `focus` (such as a highlight) rather than
/// being a dropdown of it.
pub fn is_same_app_override_decoration(candidate: &WindowMetadata, focus: &WindowMetadata) -> (r: bool)
    ensures
        r == override_decoration(*candidate, *focus),
{
    if candidate.pid == focus.pid || !windows_share_app(candidate, focus) {
        return false;
    }
    candidate.is_override_redirect() && candidate.has_hwnd_style_ex && (candidate.hwnd_style_ex & (
    WS_EX_LAYERED | WS_EX_TRANSPARENT)) == (WS_EX_LAYERED | WS_EX_TRANSPARENT)
}

/// Whether `candidate` may stand above `focus` as its override window: of the
/// same process or app, no decoration, another window, and not entirely left
/// of or above the output.
pub fn is_good_override_candidate(candidate: &WindowMetadata, focus: &WindowMetadata) -> (r: bool)
    ensures
        r == {
            &&& !override_decoration(*candidate, *focus)
            &&& candidate.pid == focus.pid || same_app(*candidate, *focus)
            &&& candidate.x11_window_id != focus.x11_window_id
            &&& candidate.geometry.x + candidate.geometry.w > 0
            &&& candidate.geometry.y + candidate.geometry.h > 0
        },
{
    if is_same_app_override_decoration(candidate, focus) {
        return false;
    }
    if candidate.pid != focus.pid && !windows_share_app(candidate, focus) {
        return false;
    }
    let rect = candidate.geometry;
    candidate.x11_window_id != focus.x11_window_id && (rect.x as i64 + rect.w as i64) > 0 && (rect.y as i64
        + rect.h as i64) > 0
}

// ---------------------------------------------------------------------------
// Focus state
// ---------------------------------------------------------------------------

/// Whether focus is to be decided anew, and which focus was asked for.
#[derive(Clone, Copy, Debug, PartialEq, Eq, Structural)]
pub struct FocusState {
    /// Focus has to be decided anew.
    pub dirty: bool,
    /// X11 window that was asked for by `_NET_ACTIVE_WINDOW`.
    pub requested_focus: Option<u32>,
    /// Surface that asked for activation.
    pub requested_focus_surface: Option<u64>,
}

impl Default for FocusState {
    fn default() -> (r: Self)
        ensures
            r == (FocusState { dirty: false, requested_focus: None, requested_focus_surface: None }),
    {
        FocusState { dirty: false, requested_focus: None, requested_focus_surface: None }
    }
}

impl FocusState {
    /// Something that matters for focus has changed.
    pub fn mark_dirty(&mut self)
        ensures
            *final(self) == (FocusState { dirty: true, ..*old(self) }),
    {
        self.dirty = true;
    }

    /// Focus has been set.
    pub fn apply(&mut self)
        ensures
            *final(self) == (FocusState { dirty: false, ..*old(self) }),
    {
        self.dirty = false;
    }

    /// Stores a request for an X11 window in place of an earlier one.
    pub fn set_requested_focus(&mut self, window: u32)
        ensures
            *final(self) == (FocusState { dirty: true, requested_focus: Some(window), ..*old(self) }),
    {
        self.requested_focus = Some(window);
        self.mark_dirty();
    }

    /// The X11 window that was asked for.
    pub fn peek_requested_focus(&self) -> (r: Option<u32>)
        ensures
            r == self.requested_focus,
    {
        self.requested_focus
    }

    /// Forgets the X11 window that was asked for.
    pub fn clear_requested_focus(&mut self)
        ensures
            *final(self) == (FocusState { requested_focus: None, ..*old(self) }),
    {
        self.requested_focus = None;
    }

    /// Stores a request for a surface in place of an earlier one.
    pub fn set_requested_focus_surface(&mut self, surface: u64)
        ensures
            *final(self) == (FocusState {
                dirty: true,
                requested_focus_surface: Some(surface),
                ..*old(self)
            }),
    {
        self.requested_focus_surface = Some(surface);
        self.mark_dirty();
    }

    /// The surface that was asked for.
    pub fn peek_requested_focus_surface(&self) -> (r: Option<u64>)
        ensures
            r == self.requested_focus_surface,
    {
        self.requested_focus_surface
    }

    /// Forgets the surface that was asked for.
    pub fn clear_requested_focus_surface(&mut self)
        ensures
            *final(self) == (FocusState { requested_focus_surface: None, ..*old(self) }),
    {
        self.requested_focus_surface = None;
    }
}

/// A window of which nothing speaks against the focus: not override-redirect,
/// neither a tray icon nor 1x1, of no window style, no candidate for a
/// dropdown, and shown in taskbar and pager or fullscreen.
pub open spec fn plain(m: WindowMetadata) -> bool {
    &&& !m.override_redirect
    &&& m.flags.bits & 32 == 0
    &&& !(m.geometry.w == 1 && m.geometry.h == 1)
    &&& !m.has_hwnd_style
    &&& !m.has_hwnd_style_ex
    &&& !m.maybe_a_dropdown
    &&& !(m.skip_taskbar && m.skip_pager && !m.fullscreen)
}

/// Plain windows rank by what they are, the first difference deciding: a game
/// above what is none, then what is no dialog above a dialog, a Wayland window
/// above an X11 one, one without a parent above one with a parent, then the one
/// mapped last, then the one drawn last.
pub proof fn plain_windows_rank_by_what_they_are(a: WindowMetadata, b: WindowMetadata)
    requires
        plain(a),
        plain(b),
    ensures
        key_below(priority_key(a), priority_key(b)) == if (a.app_id == 0) != (b.app_id == 0) {
            a.app_id == 0
        } else if a.is_dialog != b.is_dialog {
            a.is_dialog
        } else if a.is_x11 != b.is_x11 {
            a.is_x11
        } else if (a.transient_for is None) != (b.transient_for is None) {
            b.transient_for is None
        } else if a.map_sequence != b.map_sequence {
            a.map_sequence < b.map_sequence
        } else {
            a.damage_sequence < b.damage_sequence
        },
{
    let x = a.flags.bits;
    let y = b.flags.bits;
    assert(x & 32 == 0 ==> x & 32 != 32) by (bit_vector);
    assert(y & 32 == 0 ==> y & 32 != 32) by (bit_vector);
}

/// A plain window ranks above every window of the same standing, game or no
/// game, of which something speaks against the focus: one that is
/// override-redirect, of no use, disabled by its style, or that hides from
/// taskbar and pager without being fullscreen.
pub proof fn plain_windows_rank_above_others(a: WindowMetadata, b: WindowMetadata)
    requires
        plain(a),
        (a.app_id == 0) == (b.app_id == 0),
        b.override_redirect || (b.geometry.w == 1 && b.geometry.h == 1) || b.flags.bits & 32 == 32 || (
        b.has_hwnd_style && b.hwnd_style & 0x8000_0000 != 0) || (b.skip_taskbar && b.skip_pager
            && !b.fullscreen),
    ensures
        key_below(priority_key(b), priority_key(a)),
{
    let x = a.flags.bits;
    assert(x & 32 == 0 ==> x & 32 != 32) by (bit_vector);
}

/// A window is a dropdown, for an app that is not known otherwise and without
/// an extended style, exactly if it is of use, and override-redirect or a
/// candidate that hides from taskbar or pager; a dialog only if it has no
/// parent, hides from both and is not fullscreen.
pub proof fn dropdowns_are_told_by_hints(m: WindowMetadata)
    ensures
        m.app_id == 219890 ==> !m.dropdown(),
        !m.has_hwnd_style_ex && m.app_id != 230410 && m.app_id != 219890 && m.app_id != 1293830 && m.app_id
            != 1551360 ==> (m.dropdown() <==> {
            &&& m.flags.bits & 32 != 32
            &&& !(m.geometry.w == 1 && m.geometry.h == 1)
            &&& m.override_redirect || (m.maybe_a_dropdown && (m.skip_pager || m.skip_taskbar) && (
            !m.is_dialog || (m.transient_for is None && m.skip_taskbar && m.skip_pager && !m.fullscreen)))
        }),
        m.has_hwnd_style_ex && m.hwnd_style_ex & 0x9_0000 == 0x9_0000 && m.hwnd_style_ex & 0x4_0000 == 0
            && m.app_id != 230410 && m.app_id != 219890 ==> m.dropdown(),
        plain(m) ==> !m.dropdown(),
{
    assert(0x1_0000u32 | 0x8_0000u32 == 0x9_0000u32) by (bit_vector);
}

/// A window is held at the size of the output only if it belongs to a game and
/// has no parent; a fullscreen game window does, where it is plain and no
/// overlay, and so does Big Picture.
pub proof fn games_fill_the_output(m: WindowMetadata)
    ensures
        m.fills_output() ==> m.app_id != 0 && m.transient_for is None && (m.fullscreen || m.app_id == 769)
            && m.flags.bits & 7 == 0,
        plain(m) && m.app_id != 0 && m.transient_for is None && m.flags.bits & 7 == 0 && (m.fullscreen
            || m.app_id == 769) ==> m.fills_output(),
{
    dropdowns_are_told_by_hints(m);
    assert(1u8 | 2u8 | 4u8 == 7u8) by (bit_vector);
}

/// Two windows share an app exactly if they have the same app id or the same
/// Steam game id, other than 0, whichever is asked of which.
pub proof fn sharing_an_app_is_mutual(a: WindowMetadata, b: WindowMetadata)
    ensures
        same_app(a, b) == same_app(b, a),
        a.app_id != 0 && a.app_id == b.app_id ==> same_app(a, b),
        a.steam_app_id != 0 && a.steam_app_id == b.steam_app_id ==> same_app(a, b),
        same_app(a, b) ==> a.app_id == b.app_id || a.steam_app_id == b.steam_app_id,
        a.app_id != b.app_id && a.steam_app_id != b.steam_app_id ==> !same_app(a, b),
        a.app_id == 0 && a.steam_app_id == 0 ==> !same_app(a, b),
        override_decoration(a, b) ==> a.pid != b.pid && same_app(a, b) && a.override_redirect,
{
}

/// Neither a tray icon nor 1x1.
pub open spec fn of_use(m: WindowMetadata) -> bool {
    m.flags.bits & 32 != 32 && !(m.geometry.w == 1 && m.geometry.h == 1)
}

/// Windows rank by the first thing in which they differ: whether they belong to
/// a game, whether they are override-redirect and of use, whether they are of
/// use, dropdowns, disabled by their style, hidden from taskbar and pager
/// without being fullscreen, dialogs, X11 windows, with a parent; then by when
/// they were mapped and when they were drawn.
pub proof fn first_difference_ranks(a: WindowMetadata, b: WindowMetadata)
    ensures
        key_below(priority_key(a), priority_key(b)) == if (a.app_id == 0) != (b.app_id == 0) {
            a.app_id == 0
        } else if (a.override_redirect && of_use(a)) != (b.override_redirect && of_use(b)) {
            a.override_redirect && of_use(a)
        } else if of_use(a) != of_use(b) {
            of_use(b)
        } else if a.dropdown() != b.dropdown() {
            a.dropdown()
        } else if (a.has_hwnd_style && a.hwnd_style & 0x8000_0000 != 0) != (b.has_hwnd_style && b.hwnd_style
            & 0x8000_0000 != 0) {
            a.has_hwnd_style && a.hwnd_style & 0x8000_0000 != 0
        } else if (a.skip_taskbar && a.skip_pager && !a.fullscreen) != (b.skip_taskbar && b.skip_pager
            && !b.fullscreen) {
            a.skip_taskbar && a.skip_pager && !a.fullscreen
        } else if a.is_dialog != b.is_dialog {
            a.is_dialog
        } else if a.is_x11 != b.is_x11 {
            a.is_x11
        } else if (a.transient_for is None) != (b.transient_for is None) {
            b.transient_for is None
        } else if a.map_sequence != b.map_sequence {
            a.map_sequence < b.map_sequence
        } else {
            a.damage_sequence < b.damage_sequence
        },
{
}

/// A window decorates another one exactly if both share an app but no process,
/// and it is override-redirect, of use, layered and transparent.
pub proof fn decorations_let_input_through(candidate: WindowMetadata, focus: WindowMetadata)
    ensures
        override_decoration(candidate, focus) <==> {
            &&& candidate.pid != focus.pid
            &&& (candidate.app_id != 0 && candidate.app_id == focus.app_id) || (candidate.steam_app_id != 0
                && candidate.steam_app_id == focus.steam_app_id)
            &&& candidate.override_redirect && of_use(candidate)
            &&& candidate.has_hwnd_style_ex && candidate.hwnd_style_ex & 0x8_0020 == 0x8_0020
        },
{
    assert(0x8_0000u32 | 0x20u32 == 0x8_0020u32) by (bit_vector);
}

/// A few games are known by their app id: for one, a candidate with a parent
/// that hides is a dropdown whenever it is of use; for two others, a candidate
/// that asked for no size is none.
pub proof fn some_games_are_known(m: WindowMetadata)
    ensures
        m.app_id == 230410 && m.maybe_a_dropdown && m.transient_for is Some && (m.skip_pager
            || m.skip_taskbar) ==> (m.dropdown() <==> of_use(m)),
        (m.app_id == 1293830 || m.app_id == 1551360) && m.maybe_a_dropdown && m.requested_width == 0
            && m.requested_height == 0 && !m.has_hwnd_style_ex ==> !m.dropdown(),
        m.app_id == 219890 ==> !m.dropdown(),
{
}

/// Windows are put on one connector for all, on one for each app, or on one for
/// each window, as asked for.
pub proof fn connectors_go_by_the_strategy(m: WindowMetadata)
    ensures
        connector_key(m, VirtualConnectorStrategy::SingleApplication) == 0,
        connector_key(m, VirtualConnectorStrategy::SteamControlled) == 0,
        connector_key(m, VirtualConnectorStrategy::PerWindow) == m.map_sequence,
        !m.steam_legacy_big_picture && m.app_id != 0 ==> connector_key(
            m,
            VirtualConnectorStrategy::PerAppId,
        ) == m.app_id,
        !m.steam_legacy_big_picture && m.app_id == 0 ==> connector_key(
            m,
            VirtualConnectorStrategy::PerAppId,
        ) == 0x8000_0000_0000_0000u64 | m.map_sequence,
        m.steam_legacy_big_picture ==> connector_key(m, VirtualConnectorStrategy::PerAppId) == 1u64
            | 0x4000_0000_0000_0000u64,
{
}

/// Of a window of which nothing is known nothing is claimed.
pub proof fn blank_metadata_claims_nothing()
    ensures
        ({
            let m = blank_metadata();
            &&& m.app_id == 0 && m.steam_app_id == 0 && m.pid == 0 && m.flags.bits == 0
            &&& m.x11_window_id is None && m.transient_for is None
            &&& !m.steam_legacy_big_picture && !m.is_overlay && !m.has_hwnd_style && !m.has_hwnd_style_ex
            &&& !m.map_state_viewable && !m.class_input_output && !m.outdated_interactive_focus
            &&& !m.skip_taskbar && !m.skip_pager && !m.is_dialog && !m.maybe_a_dropdown && !m.disabled
            &&& !m.override_redirect && !m.is_x11 && !m.fullscreen
            &&& m.requested_width == 0 && m.requested_height == 0 && m.hwnd_style == 0 && m.hwnd_style_ex
                == 0
            &&& m.map_sequence == 0 && m.damage_sequence == 0 && m.opacity == 0 && m.input_focus_mode == 0
            &&& m.geometry.x == 0 && m.geometry.y == 0 && m.geometry.w == 0 && m.geometry.h == 0
        }),
{
}

} // verus!
