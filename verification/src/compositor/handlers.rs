//! What happens to windows: they are mapped, change, and go away.
//!
//! Each method keeps the compositor's state in step with one protocol event
//! and says whether focus has to be decided anew.
use std::collections::HashMap;
use vstd::prelude::*;

use crate::compositor::focus;
use crate::compositor::focus::{
    FocusState, Rectangle, WindowFlags, WindowMetadata, EXTERNAL_OVERLAY, NOTIFICATION, OVERLAY,
    STEAM_BIG_PICTURE_APPID, STREAMING_CLIENT, STREAMING_CLIENT_VIDEO, SYS_TRAY_ICON,
    VR_OVERLAY_TARGET, WS_DISABLED,
};
use crate::compositor::policy;
use crate::compositor::refocus;
use crate::compositor::state;
use crate::compositor::state::{FocusTargets, MoonshineCompositor, Window};

verus! {

broadcast use vstd::std_specs::hash::group_hash_axioms;

/// A Steam window wider than this is an overlay, another a notification.
pub const OVERLAY_WIDTH: i32 = 1200;

// ---------------------------------------------------------------------------
// Metadata of X11 windows
// ---------------------------------------------------------------------------

/// Window types of X11 windows.
#[derive(Clone, Copy, Debug, PartialEq, Eq, Structural)]
pub enum WmWindowType {
    Dialog,
    DropdownMenu,
    Menu,
    Notification,
    Normal,
    PopupMenu,
    Splash,
    Toolbar,
    Tooltip,
    Utility,
}

/// What the window manager knows of an X11 window.
#[derive(Clone, Copy, Debug, PartialEq, Eq, Structural)]
pub struct X11Window {
    pub window_id: u32,
    pub override_redirect: bool,
    pub transient_for: Option<u32>,
    pub geometry: Rectangle,
    pub fullscreen: bool,
    /// The `input` field of `WM_HINTS`, where it is given.
    pub input_hint: Option<bool>,
    pub window_type: Option<WmWindowType>,
}

/// What was read of an X11 window from the X server.
#[derive(Clone, Copy, Debug, PartialEq, Eq, Structural)]
pub struct X11Properties {
    /// Process id, 0 when unknown.
    pub pid: u32,
    /// The app id found for the process, or 0.
    pub app_id: u32,
    /// `STEAM_LEGACY_BIG_PICTURE`.
    pub big_picture: bool,
    /// `STEAM_INPUT_FOCUS`.
    pub input_focus_mode: u32,
    /// `STEAM_OVERLAY`.
    pub steam_overlay: u32,
    /// `GAMESCOPE_EXTERNAL_OVERLAY`.
    pub external_overlay: bool,
    /// `STEAM_STREAMING_CLIENT`.
    pub streaming_client: bool,
    /// `STEAM_STREAMING_CLIENT_VIDEO`.
    pub streaming_client_video: bool,
    /// `STEAM_GAMESCOPE_VROVERLAY_TARGET`.
    pub vr_overlay_target: u64,
    /// Opacity, 0 to 255.
    pub opacity: u32,
    /// `WINE_HWND_STYLE`.
    pub style: u32,
    /// `_NET_WM_STATE_SKIP_TASKBAR`.
    pub skip_taskbar: bool,
    /// `_NET_WM_STATE_SKIP_PAGER`.
    pub skip_pager: bool,
}

/// What is taken of a window when there is no X server to ask.
pub open spec fn no_properties() -> X11Properties {
    X11Properties {
        pid: 0,
        app_id: 0,
        big_picture: false,
        input_focus_mode: 0,
        steam_overlay: 0,
        external_overlay: false,
        streaming_client: false,
        streaming_client_video: false,
        vr_overlay_target: 0,
        opacity: 0,
        style: 0,
        skip_taskbar: false,
        skip_pager: false,
    }
}

impl X11Properties {
    /// What is taken of a window when there is no X server to ask.
    pub fn none() -> (r: Self)
        ensures
            r == no_properties(),
    {
        X11Properties {
            pid: 0,
            app_id: 0,
            big_picture: false,
            input_focus_mode: 0,
            steam_overlay: 0,
            external_overlay: false,
            streaming_client: false,
            streaming_client_video: false,
            vr_overlay_target: 0,
            opacity: 0,
            style: 0,
            skip_taskbar: false,
            skip_pager: false,
        }
    }
}

/// The app id of a window: that of its process, else Steam's own for Big
/// Picture, else 0.
pub open spec fn window_app_id(p: X11Properties) -> u32 {
    if p.pid != 0 && p.app_id != 0 {
        p.app_id
    } else if p.big_picture {
        STEAM_BIG_PICTURE_APPID
    } else {
        0
    }
}

/// `bits` with those of `mask` if `c`.
pub open spec fn bits_if(bits: u8, c: bool, mask: u8) -> u8 {
    if c {
        bits | mask
    } else {
        bits
    }
}

/// The flags of a window `width` wide; `tray` says that it is a tray icon.
pub open spec fn window_flags(p: X11Properties, width: i32, tray: bool) -> WindowFlags {
    let b = bits_if(0, p.steam_overlay != 0 && width > OVERLAY_WIDTH, OVERLAY);
    let b = bits_if(b, p.steam_overlay != 0 && width <= OVERLAY_WIDTH, NOTIFICATION);
    let b = bits_if(b, p.external_overlay, EXTERNAL_OVERLAY);
    let b = bits_if(b, p.streaming_client, STREAMING_CLIENT);
    let b = bits_if(b, p.streaming_client_video, STREAMING_CLIENT_VIDEO);
    let b = bits_if(b, p.vr_overlay_target != 0, VR_OVERLAY_TARGET);
    WindowFlags { bits: bits_if(b, tray, SYS_TRAY_ICON) }
}

/// A menu or tooltip type.
pub open spec fn menu_type(t: Option<WmWindowType>) -> bool {
    t == Some(WmWindowType::DropdownMenu) || t == Some(WmWindowType::PopupMenu) || t == Some(
        WmWindowType::Tooltip,
    ) || t == Some(WmWindowType::Menu)
}

/// An override-redirect window that is not 1x1 and is a menu, a dialog or
/// some window's child.
pub open spec fn dropdown_candidate(w: X11Window) -> bool {
    &&& w.override_redirect
    &&& !(w.geometry.w == 1 && w.geometry.h == 1)
    &&& menu_type(w.window_type) || w.transient_for is Some || w.window_type == Some(WmWindowType::Dialog)
}

/// What is known of an X11 window for focus; the sequence numbers are the
/// caller's to set.
pub open spec fn x11_metadata(w: X11Window, p: X11Properties, tray: bool) -> WindowMetadata {
    WindowMetadata {
        app_id: window_app_id(p),
        is_overlay: p.steam_overlay != 0,
        has_hwnd_style: p.style != 0,
        hwnd_style: p.style,
        x11_window_id: Some(w.window_id),
        pid: p.pid,
        transient_for: w.transient_for,
        skip_taskbar: p.skip_taskbar || (w.override_redirect && w.transient_for is Some),
        skip_pager: p.skip_pager || (w.override_redirect && w.transient_for is Some),
        is_dialog: w.window_type == Some(WmWindowType::Dialog),
        maybe_a_dropdown: dropdown_candidate(w),
        disabled: w.input_hint == Some(false) || p.style & WS_DISABLED != 0,
        override_redirect: w.override_redirect,
        is_x11: true,
        geometry: w.geometry,
        fullscreen: w.fullscreen,
        opacity: p.opacity,
        input_focus_mode: p.input_focus_mode,
        flags: window_flags(p, w.geometry.w, tray),
        ..focus::blank_metadata()
    }
}

/// `flags` with those of `mask` if `c`.
fn flags_if(flags: WindowFlags, c: bool, mask: u8) -> (r: WindowFlags)
    ensures
        r.bits == bits_if(flags.bits, c, mask),
{
    if c {
        flags.with(mask)
    } else {
        flags
    }
}

/// The flags of a window; see [`window_flags`].
fn classify_window(p: &X11Properties, width: i32, tray: bool) -> (r: WindowFlags)
    ensures
        r == window_flags(*p, width, tray),
{
    let f = WindowFlags::empty();
    let f = flags_if(f, p.steam_overlay != 0 && width > OVERLAY_WIDTH, OVERLAY);
    let f = flags_if(f, p.steam_overlay != 0 && width <= OVERLAY_WIDTH, NOTIFICATION);
    let f = flags_if(f, p.external_overlay, EXTERNAL_OVERLAY);
    let f = flags_if(f, p.streaming_client, STREAMING_CLIENT);
    let f = flags_if(f, p.streaming_client_video, STREAMING_CLIENT_VIDEO);
    let f = flags_if(f, p.vr_overlay_target != 0, VR_OVERLAY_TARGET);
    flags_if(f, tray, SYS_TRAY_ICON)
}

impl MoonshineCompositor {
    /// What is known of an X11 window for focus; see [`x11_metadata`].
    /// `properties` is what was read from the X server, if there is one.
    pub fn x11_surface_metadata(&self, window: &X11Window, properties: Option<X11Properties>) -> (r:
        WindowMetadata)
        ensures
            r == x11_metadata(
                *window,
                match properties {
                    Some(p) => p,
                    None => no_properties(),
                },
                self.sys_tray_icons@.contains(window.window_id),
            ),
    {
        let p = match properties {
            Some(p) => p,
            None => X11Properties::none(),
        };
        let app_id: u32 = if p.pid != 0 && p.app_id != 0 {
            p.app_id
        } else if p.big_picture {
            STEAM_BIG_PICTURE_APPID
        } else {
            0
        };
        let tray = self.sys_tray_icons.contains(&window.window_id);
        let is_dialog = window.window_type == Some(WmWindowType::Dialog);
        let is_menu = window.window_type == Some(WmWindowType::DropdownMenu) || window.window_type
            == Some(WmWindowType::PopupMenu) || window.window_type == Some(WmWindowType::Tooltip)
            || window.window_type == Some(WmWindowType::Menu);
        let has_parent = window.transient_for.is_some();
        let one_by_one = window.geometry.w == 1 && window.geometry.h == 1;
        let hidden = window.override_redirect && has_parent;
        WindowMetadata {
            app_id,
            is_overlay: p.steam_overlay != 0,
            has_hwnd_style: p.style != 0,
            hwnd_style: p.style,
            x11_window_id: Some(window.window_id),
            pid: p.pid,
            transient_for: window.transient_for,
            skip_taskbar: p.skip_taskbar || hidden,
            skip_pager: p.skip_pager || hidden,
            is_dialog,
            maybe_a_dropdown: window.override_redirect && !one_by_one && (is_menu || has_parent
                || is_dialog),
            disabled: window.input_hint == Some(false) || p.style & WS_DISABLED != 0,
            override_redirect: window.override_redirect,
            is_x11: true,
            geometry: window.geometry,
            fullscreen: window.fullscreen,
            opacity: p.opacity,
            input_focus_mode: p.input_focus_mode,
            flags: classify_window(&p, window.geometry.w, tray),
            ..WindowMetadata::default()
        }
    }
}

// ---------------------------------------------------------------------------
// Lists of transient children
// ---------------------------------------------------------------------------

/// The lists with `child` added for `parent`.
pub open spec fn child_added(children: Map<u32, Seq<u64>>, parent: Option<u32>, child: u64) -> Map<
    u32,
    Seq<u64>,
> {
    match parent {
        None => children,
        Some(p) => children.insert(
            p,
            (if children.contains_key(p) {
                children[p]
            } else {
                Seq::empty()
            }).push(child),
        ),
    }
}

/// `list` without `child`.
pub open spec fn without(list: Seq<u64>, child: u64) -> Seq<u64> {
    list.filter(other_than(child))
}

/// Any window but `child`.
pub open spec fn other_than(child: u64) -> spec_fn(u64) -> bool {
    |c: u64| c != child
}

/// The lists without `child` for `parent`; a list that gets empty goes.
pub open spec fn child_removed(children: Map<u32, Seq<u64>>, parent: Option<u32>, child: u64) -> Map<
    u32,
    Seq<u64>,
> {
    match parent {
        Some(p) if children.contains_key(p) => if without(children[p], child).len() == 0 {
            children.remove(p)
        } else {
            children.insert(p, without(children[p], child))
        },
        _ => children,
    }
}

/// Adds a child; see [`child_added`].
pub fn add_child(table: &mut HashMap<u32, Vec<u64>>, parent: Option<u32>, child: u64)
    ensures
        state::child_lists(final(table)@) == child_added(state::child_lists(old(table)@), parent, child),
{
    if let Some(p) = parent {
        let mut list = match table.remove(&p) {
            Some(list) => list,
            None => Vec::new(),
        };
        list.push(child);
        table.insert(p, list);
        proof {
            assert(state::child_lists(table@) =~= child_added(
                state::child_lists(old(table)@),
                parent,
                child,
            ));
        }
    }
}

/// Removes a child; see [`child_removed`].
pub fn remove_child(table: &mut HashMap<u32, Vec<u64>>, parent: Option<u32>, child: u64)
    ensures
        state::child_lists(final(table)@) == child_removed(
            state::child_lists(old(table)@),
            parent,
            child,
        ),
{
    if let Some(p) = parent {
        if let Some(list) = table.remove(&p) {
            let ghost f = other_than(child);
            let mut kept: Vec<u64> = Vec::new();
            let mut i: usize = 0;
            proof {
                reveal(Seq::filter);
            }
            while i < list.len()
                invariant
                    i <= list@.len(),
                    f == other_than(child),
                    kept@ == list@.take(i as int).filter(f),
                decreases list@.len() - i,
            {
                proof {
                    reveal(Seq::filter);
                    assert(list@.take(i + 1).drop_last() == list@.take(i as int));
                }
                if list[i] != child {
                    kept.push(list[i]);
                }
                i += 1;
            }
            let ghost before = state::child_lists(old(table)@);
            proof {
                assert(list@.take(list@.len() as int) == list@);
                assert(before.contains_key(p) && before[p] == list@);
                assert(kept@ == without(before[p], child));
            }
            if kept.len() > 0 {
                table.insert(p, kept);
                proof {
                    assert(state::child_lists(table@) =~= before.insert(p, without(before[p], child)));
                }
            } else {
                proof {
                    assert(state::child_lists(table@) =~= before.remove(p));
                }
            }
        } else {
            proof {
                assert(state::child_lists(table@) =~= state::child_lists(old(table)@));
            }
        }
    }
}

/// A child that was added and then removed is in no list of its parent, and
/// the lists of other parents are untouched.
pub proof fn added_child_can_be_removed(
    children: Map<u32, Seq<u64>>,
    parent: u32,
    child: u64,
    other: u32,
)
    ensures
        ({
            let after = child_removed(child_added(children, Some(parent), child), Some(parent), child);
            &&& after.contains_key(parent) ==> !after[parent].contains(child)
            &&& other != parent ==> after.contains_key(other) == children.contains_key(other) && (
            children.contains_key(other) ==> after[other] == children[other])
        }),
{
    broadcast use vstd::seq_lib::group_filter_ensures;

    let added = child_added(children, Some(parent), child);
    let after = child_removed(added, Some(parent), child);
    if after.contains_key(parent) && after[parent].contains(child) {
        let i = after[parent].index_of(child);
        assert(after[parent][i] == child);
    }
}

// ---------------------------------------------------------------------------
// Windows come
// ---------------------------------------------------------------------------

/// The damage sequence of the registered window that is X11 window `id`.
pub open spec fn damage_of(ws: Seq<Window>, id: u32) -> Option<u64> {
    match state::first_window(ws, |w: Window| w.meta is Some && w.meta->0.x11_window_id == Some(id)) {
        Some(w) => Some(w.meta->0.damage_sequence),
        None => None,
    }
}

/// Finds a damage sequence; see [`damage_of`].
fn find_damage(ws: &[Window], id: u32) -> (r: Option<u64>)
    ensures
        r == damage_of(ws@, id),
{
    let ghost f = |w: Window| w.meta is Some && w.meta->0.x11_window_id == Some(id);
    let mut i: usize = 0;
    while i < ws.len()
        invariant
            i <= ws@.len(),
            f == (|w: Window| w.meta is Some && w.meta->0.x11_window_id == Some(id)),
            forall|j: int| 0 <= j < i ==> !f(#[trigger] ws@[j]),
        decreases ws@.len() - i,
    {
        if let Some(meta) = ws[i].meta {
            if meta.x11_window_id == Some(id) {
                proof {
                    state::first_index_unique(ws@, f, i as int);
                }
                return Some(meta.damage_sequence);
            }
        }
        i += 1;
    }
    proof {
        state::first_index_none(ws@, f);
    }
    None
}

/// What an override-redirect window that was mapped calls for.
#[derive(Clone, Copy, Debug, PartialEq, Eq, Structural)]
pub enum OverrideMapped {
    /// A dropdown that is not of the focused window: nothing.
    Ignored,
    /// A dropdown of the focused window that is off screen: nothing.
    OffScreen,
    /// A dropdown of the focused window: show it there.
    Dropdown { x: i32, y: i32 },
    /// No dropdown: decide focus anew.
    Reevaluate,
}

/// Some of `geo` is within an output of `w` by `h`.
pub open spec fn on_screen(geo: Rectangle, w: i32, h: i32) -> bool {
    geo.x + geo.w > 0 && geo.x < w && geo.y + geo.h > 0 && geo.y < h
}

/// What the metadata `meta` of an override-redirect window just mapped calls
/// for; `child` says that it is transient for the focused window.
pub open spec fn override_outcome(meta: WindowMetadata, child: bool, w: i32, h: i32) -> OverrideMapped {
    if !meta.dropdown() {
        OverrideMapped::Reevaluate
    } else if !child {
        OverrideMapped::Ignored
    } else if !on_screen(meta.geometry, w, h) {
        OverrideMapped::OffScreen
    } else {
        OverrideMapped::Dropdown { x: meta.geometry.x, y: meta.geometry.y }
    }
}

impl MoonshineCompositor {
    /// A toplevel came: it is put on top and registered, at the size of the
    /// output. Focus is to be decided anew.
    pub fn new_toplevel(&mut self, handle: u64, surface: u64, app_id: u32, fullscreen: bool)
        requires
            old(self).targets.map_sequence_counter < u64::MAX,
        ensures
            final(self).windows@ == old(self).windows@.push(
                Window {
                    handle,
                    x11: None,
                    toplevel: true,
                    surface: Some(surface),
                    meta: Some(
                        WindowMetadata {
                            app_id,
                            map_sequence: (old(self).targets.map_sequence_counter + 1) as u64,
                            geometry: Rectangle {
                                x: 0,
                                y: 0,
                                w: old(self).targets.width as i32,
                                h: old(self).targets.height as i32,
                            },
                            fullscreen,
                            ..focus::blank_metadata()
                        },
                    ),
                },
            ),
            *final(self) == (MoonshineCompositor {
                windows: final(self).windows,
                targets: FocusTargets {
                    map_sequence_counter: (old(self).targets.map_sequence_counter + 1) as u64,
                    ..old(self).targets
                },
                ..*old(self)
            }),
    {
        self.targets.map_sequence_counter += 1;
        #[verifier::truncate]
        let w: i32 = self.targets.width as i32;
        #[verifier::truncate]
        let h: i32 = self.targets.height as i32;
        let meta = WindowMetadata {
            app_id,
            map_sequence: self.targets.map_sequence_counter,
            geometry: Rectangle { x: 0, y: 0, w, h },
            fullscreen,
            ..WindowMetadata::default()
        };
        self.windows.push(
            Window { handle, x11: None, toplevel: true, surface: Some(surface), meta: Some(meta) },
        );
    }

    /// An X11 window was mapped: it is put on top and registered, also as a
    /// child of its parent. A game window takes the current damage sequence,
    /// and focus is dirty if that is beyond the focused window's. Focus is to
    /// be decided anew.
    pub fn map_window_request(
        &mut self,
        handle: u64,
        surface: Option<u64>,
        window: &X11Window,
        properties: Option<X11Properties>,
    )
        requires
            old(self).targets.map_sequence_counter < u64::MAX,
        ensures
            ({
                let base = x11_metadata(
                    *window,
                    match properties {
                        Some(p) => p,
                        None => no_properties(),
                    },
                    old(self).sys_tray_icons@.contains(window.window_id),
                );
                let t = old(self).targets;
                let meta = WindowMetadata {
                    map_sequence: (t.map_sequence_counter + 1) as u64,
                    damage_sequence: if base.app_id != 0 { t.damage_sequence_counter } else { 0 },
                    ..base
                };
                let newer = base.app_id != 0 && t.focused_x11_window is Some && damage_of(
                    old(self).windows@,
                    t.focused_x11_window->0,
                ) is Some && t.damage_sequence_counter > damage_of(
                    old(self).windows@,
                    t.focused_x11_window->0,
                )->0;
                &&& final(self).windows@ == old(self).windows@.push(
                    Window {
                        handle,
                        x11: Some(window.window_id),
                        toplevel: false,
                        surface,
                        meta: Some(meta),
                    },
                )
                &&& final(self).children() == child_added(
                    old(self).children(),
                    window.transient_for,
                    handle,
                )
                &&& final(self).targets == (FocusTargets {
                    map_sequence_counter: (t.map_sequence_counter + 1) as u64,
                    focus_state: FocusState {
                        dirty: t.focus_state.dirty || newer,
                        ..t.focus_state
                    },
                    ..t
                })
                &&& final(self).sys_tray_icons == old(self).sys_tray_icons
            }),
    {
        let base = self.x11_surface_metadata(window, properties);
        self.targets.map_sequence_counter += 1;
        let game = base.has_game_id();
        let meta = WindowMetadata {
            map_sequence: self.targets.map_sequence_counter,
            damage_sequence: if game {
                self.targets.damage_sequence_counter
            } else {
                0
            },
            ..base
        };
        if game {
            if let Some(focused) = self.targets.focused_x11_window {
                if let Some(damage) = find_damage(&self.windows, focused) {
                    if meta.damage_sequence > damage {
                        self.targets.focus_state.mark_dirty();
                    }
                }
            }
        }
        self.windows.push(
            Window {
                handle,
                x11: Some(window.window_id),
                toplevel: false,
                surface,
                meta: Some(meta),
            },
        );
        add_child(&mut self.transient_children, window.transient_for, handle);
    }

    /// An override-redirect window was mapped: it is put on top and
    /// registered, also as a child of its parent. `output` is the size of the
    /// output. A dropdown on screen has the special windows picked anew.
    pub fn mapped_override_redirect_window(
        &mut self,
        handle: u64,
        surface: Option<u64>,
        window: &X11Window,
        properties: Option<X11Properties>,
        output: (i32, i32),
    ) -> (r: OverrideMapped)
        ensures
            ({
                let meta = x11_metadata(
                    *window,
                    match properties {
                        Some(p) => p,
                        None => no_properties(),
                    },
                    old(self).sys_tray_icons@.contains(window.window_id),
                );
                let ws = old(self).windows@.push(
                    Window {
                        handle,
                        x11: Some(window.window_id),
                        toplevel: false,
                        surface,
                        meta: Some(meta),
                    },
                );
                let child = refocus::transient_of(
                    ws,
                    old(self).targets.focused_x11_window,
                    window.window_id,
                );
                &&& r == override_outcome(meta, child, output.0, output.1)
                &&& final(self).windows@ == ws
                &&& final(self).children() == child_added(
                    old(self).children(),
                    window.transient_for,
                    handle,
                )
                &&& final(self).targets == if r is Dropdown {
                    policy::classified(old(self).targets, ws)
                } else {
                    old(self).targets
                }
                &&& final(self).sys_tray_icons == old(self).sys_tray_icons
            }),
    {
        let meta = self.x11_surface_metadata(window, properties);
        self.windows.push(
            Window {
                handle,
                x11: Some(window.window_id),
                toplevel: false,
                surface,
                meta: Some(meta),
            },
        );
        let child = self.is_transient_of_focused(window.window_id);
        add_child(&mut self.transient_children, window.transient_for, handle);
        if !meta.is_dropdown() {
            return OverrideMapped::Reevaluate;
        }
        if !child {
            return OverrideMapped::Ignored;
        }
        let geo = meta.geometry;
        let visible = geo.x as i64 + geo.w as i64 > 0 && geo.x < output.0 && geo.y as i64 + geo.h as i64
            > 0 && geo.y < output.1;
        if !visible {
            return OverrideMapped::OffScreen;
        }
        self.classify_special_windows();
        OverrideMapped::Dropdown { x: geo.x, y: geo.y }
    }
}

// ---------------------------------------------------------------------------
// Windows change
// ---------------------------------------------------------------------------

/// Properties of X11 windows.
#[derive(Clone, Copy, Debug, PartialEq, Eq, Structural)]
pub enum WmWindowProperty {
    Title,
    Class,
    Protocols,
    Hints,
    NormalHints,
    TransientFor,
    WindowType,
    MotifHints,
    StartupId,
    Pid,
    Opacity,
}

/// A property that focus depends on.
pub open spec fn focus_relevant(property: WmWindowProperty) -> bool {
    property == WmWindowProperty::Pid || property == WmWindowProperty::Hints || property
        == WmWindowProperty::TransientFor || property == WmWindowProperty::WindowType
}

/// Metadata with what a change of `property` takes over from `new`.
pub open spec fn updated_by(
    meta: WindowMetadata,
    property: WmWindowProperty,
    new: WindowMetadata,
) -> WindowMetadata {
    match property {
        WmWindowProperty::Hints => WindowMetadata { disabled: new.disabled, ..meta },
        WmWindowProperty::TransientFor => WindowMetadata {
            transient_for: new.transient_for,
            skip_taskbar: new.skip_taskbar,
            skip_pager: new.skip_pager,
            maybe_a_dropdown: new.maybe_a_dropdown,
            ..meta
        },
        WmWindowProperty::WindowType => WindowMetadata {
            is_dialog: new.is_dialog,
            maybe_a_dropdown: new.maybe_a_dropdown,
            ..meta
        },
        _ => meta,
    }
}

/// Takes over what a change of `property` calls for; see [`updated_by`].
pub fn update_by(meta: WindowMetadata, property: WmWindowProperty, new: &WindowMetadata) -> (r:
    WindowMetadata)
    ensures
        r == updated_by(meta, property, *new),
{
    match property {
        WmWindowProperty::Hints => WindowMetadata { disabled: new.disabled, ..meta },
        WmWindowProperty::TransientFor => WindowMetadata {
            transient_for: new.transient_for,
            skip_taskbar: new.skip_taskbar,
            skip_pager: new.skip_pager,
            maybe_a_dropdown: new.maybe_a_dropdown,
            ..meta
        },
        WmWindowProperty::WindowType => WindowMetadata {
            is_dialog: new.is_dialog,
            maybe_a_dropdown: new.maybe_a_dropdown,
            ..meta
        },
        _ => meta,
    }
}

/// The index of the toplevel that shows `surface`.
pub open spec fn toplevel_index(ws: Seq<Window>, surface: u64) -> Option<int> {
    state::first_index(ws, |w: Window| w.toplevel && w.surface == Some(surface))
}

/// Finds the toplevel that shows `surface`; see [`toplevel_index`].
pub fn find_window_by_surface(ws: &[Window], surface: u64) -> (r: Option<usize>)
    ensures
        r matches Some(i) ==> i < ws@.len() && toplevel_index(ws@, surface) == Some(i as int),
        r is None ==> toplevel_index(ws@, surface) is None,
{
    let ghost f = |w: Window| w.toplevel && w.surface == Some(surface);
    let mut i: usize = 0;
    while i < ws.len()
        invariant
            i <= ws@.len(),
            f == (|w: Window| w.toplevel && w.surface == Some(surface)),
            forall|j: int| 0 <= j < i ==> !f(#[trigger] ws@[j]),
        decreases ws@.len() - i,
    {
        if ws[i].toplevel && ws[i].surface == Some(surface) {
            proof {
                state::first_index_unique(ws@, f, i as int);
            }
            return Some(i);
        }
        i += 1;
    }
    proof {
        state::first_index_none(ws@, f);
    }
    None
}

/// The windows with the metadata of window `i`, if it has any, replaced.
pub open spec fn with_meta(
    ws: Seq<Window>,
    i: Option<int>,
    f: spec_fn(WindowMetadata) -> WindowMetadata,
) -> Seq<Window> {
    match i {
        Some(i) if ws[i].meta is Some => ws.update(i, Window { meta: Some(f(ws[i].meta->0)), ..ws[i] }),
        _ => ws,
    }
}

/// Metadata after the fullscreen state was found to be `on`, with the new
/// size where there is one.
pub open spec fn fullscreen_changed(meta: WindowMetadata, on: bool, size: Option<(i32, i32)>) -> WindowMetadata {
    if meta.fullscreen == on {
        meta
    } else {
        WindowMetadata {
            fullscreen: on,
            geometry: match size {
                Some((w, h)) => Rectangle { x: 0, y: 0, w, h },
                None => meta.geometry,
            },
            ..meta
        }
    }
}

/// Takes over a fullscreen state; see [`fullscreen_changed`].
fn change_fullscreen(meta: WindowMetadata, on: bool, size: Option<(i32, i32)>) -> (r: WindowMetadata)
    ensures
        r == fullscreen_changed(meta, on, size),
{
    if meta.fullscreen == on {
        return meta;
    }
    let geometry = match size {
        Some((w, h)) => Rectangle { x: 0, y: 0, w, h },
        None => meta.geometry,
    };
    WindowMetadata { fullscreen: on, geometry, ..meta }
}

impl MoonshineCompositor {
    /// A surface was committed: the screen is dirty, and a game window that
    /// shows the surface takes the next damage sequence. `sync_subsurface`
    /// says that the surface waits for its parent.
    pub fn commit(&mut self, surface: u64, sync_subsurface: bool)
        requires
            old(self).targets.damage_sequence_counter < u64::MAX,
        ensures
            ({
                let at = toplevel_index(old(self).windows@, surface);
                let next = (old(self).targets.damage_sequence_counter + 1) as u64;
                let game = !sync_subsurface && at is Some && old(self).windows@[at->0].meta is Some
                    && old(self).windows@[at->0].meta->0.app_id != 0;
                &&& final(self).windows@ == if game {
                    with_meta(
                        old(self).windows@,
                        at,
                        |m: WindowMetadata| WindowMetadata { damage_sequence: next, ..m },
                    )
                } else {
                    old(self).windows@
                }
                &&& *final(self) == (MoonshineCompositor {
                    windows: final(self).windows,
                    targets: FocusTargets {
                        screen_dirty: true,
                        damage_sequence_counter: if game {
                            next
                        } else {
                            old(self).targets.damage_sequence_counter
                        },
                        ..old(self).targets
                    },
                    ..*old(self)
                })
            }),
    {
        self.targets.screen_dirty = true;
        if sync_subsurface {
            return ;
        }
        proof {
            state::first_index_is_first(
                self.windows@,
                |w: Window| w.toplevel && w.surface == Some(surface),
            );
        }
        if let Some(i) = find_window_by_surface(&self.windows, surface) {
            let w = self.windows[i];
            if let Some(meta) = w.meta {
                if meta.has_game_id() {
                    self.targets.damage_sequence_counter += 1;
                    let next = self.targets.damage_sequence_counter;
                    self.windows.set(
                        i,
                        Window {
                            meta: Some(WindowMetadata { damage_sequence: next, ..meta }),
                            ..w
                        },
                    );
                }
            }
        }
    }

    /// A toplevel asked to be fullscreen; `on` is its state now. Focus is to
    /// be decided anew.
    pub fn fullscreen_request(&mut self, surface: u64, on: bool, size: Option<(i32, i32)>)
        ensures
            final(self).windows@ == with_meta(
                old(self).windows@,
                toplevel_index(old(self).windows@, surface),
                |m: WindowMetadata| fullscreen_changed(m, on, size),
            ),
            *final(self) == (MoonshineCompositor { windows: final(self).windows, ..*old(self) }),
    {
        proof {
            state::first_index_is_first(
                self.windows@,
                |w: Window| w.toplevel && w.surface == Some(surface),
            );
        }
        if let Some(i) = find_window_by_surface(&self.windows, surface) {
            let w = self.windows[i];
            if let Some(meta) = w.meta {
                let meta = change_fullscreen(meta, on, size);
                self.windows.set(i, Window { meta: Some(meta), ..w });
            }
        }
    }

    /// A toplevel asked to leave fullscreen; `on` is its state now. Focus is
    /// to be decided anew.
    pub fn unfullscreen_request(&mut self, surface: u64, on: bool, size: Option<(i32, i32)>)
        ensures
            final(self).windows@ == if on {
                old(self).windows@
            } else {
                with_meta(
                    old(self).windows@,
                    toplevel_index(old(self).windows@, surface),
                    |m: WindowMetadata| fullscreen_changed(m, false, size),
                )
            },
            *final(self) == (MoonshineCompositor { windows: final(self).windows, ..*old(self) }),
    {
        if !on {
            self.fullscreen_request(surface, false, size);
        }
    }

    /// A toplevel changed its app; `app_id` is that of its process, where that
    /// is known. Focus is to be decided anew.
    pub fn app_id_changed(&mut self, surface: u64, app_id: Option<u32>)
        ensures
            final(self).windows@ == match app_id {
                Some(id) => with_meta(
                    old(self).windows@,
                    toplevel_index(old(self).windows@, surface),
                    |m: WindowMetadata| WindowMetadata { app_id: id, ..m },
                ),
                None => old(self).windows@,
            },
            *final(self) == (MoonshineCompositor { windows: final(self).windows, ..*old(self) }),
    {
        proof {
            state::first_index_is_first(
                self.windows@,
                |w: Window| w.toplevel && w.surface == Some(surface),
            );
        }
        if let Some(id) = app_id {
            if let Some(i) = find_window_by_surface(&self.windows, surface) {
                let w = self.windows[i];
                if let Some(meta) = w.meta {
                    self.windows.set(
                        i,
                        Window { meta: Some(WindowMetadata { app_id: id, ..meta }), ..w },
                    );
                }
            }
        }
    }
}

/// What is known of an X11 window is what was read of it: its id, parent,
/// place and kind are the window's own, its process and opacity those of the
/// server. Its app id is that of its process; Big Picture without one has
/// Steam's own, and any other window none.
pub proof fn metadata_is_what_was_read(w: X11Window, p: X11Properties, tray: bool)
    ensures
        ({
            let m = x11_metadata(w, p, tray);
            &&& m.x11_window_id == Some(w.window_id)
            &&& m.is_x11
            &&& m.pid == p.pid
            &&& m.transient_for == w.transient_for
            &&& m.override_redirect == w.override_redirect
            &&& m.geometry == w.geometry
            &&& m.fullscreen == w.fullscreen
            &&& m.opacity == p.opacity
            &&& m.input_focus_mode == p.input_focus_mode
            &&& m.is_dialog <==> w.window_type == Some(WmWindowType::Dialog)
            &&& m.is_overlay <==> p.steam_overlay != 0
            &&& p.pid != 0 && p.app_id != 0 ==> m.app_id == p.app_id
            &&& (p.pid == 0 || p.app_id == 0) && p.big_picture ==> m.app_id == 769
            &&& (p.pid == 0 || p.app_id == 0) && !p.big_picture ==> m.app_id == 0
            &&& !w.override_redirect ==> !m.maybe_a_dropdown && m.skip_taskbar == p.skip_taskbar
                && m.skip_pager == p.skip_pager
            &&& w.override_redirect && w.transient_for is Some ==> m.skip_taskbar && m.skip_pager
            &&& w.override_redirect && w.transient_for is Some && !(w.geometry.w == 1 && w.geometry.h == 1)
                ==> m.maybe_a_dropdown
            &&& w.override_redirect && w.window_type == Some(WmWindowType::PopupMenu) && w.geometry.w > 1
                ==> m.maybe_a_dropdown
            &&& w.override_redirect && w.window_type == Some(WmWindowType::DropdownMenu) && w.geometry.w
                > 1 ==> m.maybe_a_dropdown
            &&& w.override_redirect && w.window_type == Some(WmWindowType::Menu) && w.geometry.w > 1
                ==> m.maybe_a_dropdown
            &&& w.override_redirect && w.window_type == Some(WmWindowType::Tooltip) && w.geometry.w > 1
                ==> m.maybe_a_dropdown
            &&& w.geometry.w == 1 && w.geometry.h == 1 ==> !m.maybe_a_dropdown
            &&& m.has_hwnd_style <==> p.style != 0
            &&& m.hwnd_style == p.style
            &&& w.input_hint == Some(false) ==> m.disabled
            &&& m.disabled ==> w.input_hint == Some(false) || p.style & 0x8000_0000 != 0
            &&& m.map_sequence == 0 && m.damage_sequence == 0
            &&& !m.has_hwnd_style_ex
        }),
{
}

/// Every flag of a window tells one thing about it: a Steam window is an
/// overlay if it is wider than 1200 and a notification if it is not, and each
/// other flag is set exactly if its property is.
pub proof fn every_flag_tells_one_thing(p: X11Properties, width: i32, tray: bool)
    ensures
        ({
            let bits = window_flags(p, width, tray).bits;
            &&& (bits & 1 != 0) == (p.steam_overlay != 0 && width > 1200)
            &&& (bits & 2 != 0) == (p.steam_overlay != 0 && width <= 1200)
            &&& (bits & 4 != 0) == p.external_overlay
            &&& (bits & 8 != 0) == p.streaming_client
            &&& (bits & 16 != 0) == p.streaming_client_video
            &&& (bits & 32 != 0) == tray
            &&& (bits & 64 != 0) == (p.vr_overlay_target != 0)
        }),
{
    let c0 = p.steam_overlay != 0 && width > OVERLAY_WIDTH;
    let c1 = p.steam_overlay != 0 && width <= OVERLAY_WIDTH;
    let c2 = p.external_overlay;
    let c3 = p.streaming_client;
    let c4 = p.streaming_client_video;
    let c6 = p.vr_overlay_target != 0;
    flags_bit_by_bit(c0, c1, c2, c3, c4, c6, tray);
}

/// Flags that are set one after the other.
proof fn flags_bit_by_bit(c0: bool, c1: bool, c2: bool, c3: bool, c4: bool, c6: bool, c5: bool)
    ensures
        ({
            let b = bits_if(0, c0, 1);
            let b = bits_if(b, c1, 2);
            let b = bits_if(b, c2, 4);
            let b = bits_if(b, c3, 8);
            let b = bits_if(b, c4, 16);
            let b = bits_if(b, c6, 64);
            let b = bits_if(b, c5, 32);
            &&& (b & 1 != 0) == c0
            &&& (b & 2 != 0) == c1
            &&& (b & 4 != 0) == c2
            &&& (b & 8 != 0) == c3
            &&& (b & 16 != 0) == c4
            &&& (b & 32 != 0) == c5
            &&& (b & 64 != 0) == c6
        }),
{
    assert({
        let b0: u8 = if c0 {
            0u8 | 1u8
        } else {
            0u8
        };
        let b1: u8 = if c1 {
            b0 | 2u8
        } else {
            b0
        };
        let b2: u8 = if c2 {
            b1 | 4u8
        } else {
            b1
        };
        let b3: u8 = if c3 {
            b2 | 8u8
        } else {
            b2
        };
        let b4: u8 = if c4 {
            b3 | 16u8
        } else {
            b3
        };
        let b6: u8 = if c6 {
            b4 | 64u8
        } else {
            b4
        };
        let b: u8 = if c5 {
            b6 | 32u8
        } else {
            b6
        };
        &&& (b & 1 != 0) == c0
        &&& (b & 2 != 0) == c1
        &&& (b & 4 != 0) == c2
        &&& (b & 8 != 0) == c3
        &&& (b & 16 != 0) == c4
        &&& (b & 32 != 0) == c5
        &&& (b & 64 != 0) == c6
    }) by (bit_vector);
}

/// A child is listed for its parent behind the children before it, and for no
/// other window; one that is removed is listed no more, and the other children
/// stay, as do the lists of other parents.
pub proof fn children_are_listed(
    children: Map<u32, Seq<u64>>,
    parent: u32,
    child: u64,
    other: u64,
    other_parent: u32,
)
    ensures
        child_added(children, None, child) == children,
        child_removed(children, None, child) == children,
        ({
            let added = child_added(children, Some(parent), child);
            &&& added.contains_key(parent)
            &&& added[parent].last() == child
            &&& children.contains_key(parent) ==> added[parent].drop_last() == children[parent]
            &&& !children.contains_key(parent) ==> added[parent].len() == 1
            &&& other_parent != parent ==> (added.contains_key(other_parent) == children.contains_key(
                other_parent,
            ) && added[other_parent] == children[other_parent])
        }),
        ({
            let removed = child_removed(children, Some(parent), child);
            &&& removed.contains_key(parent) ==> !removed[parent].contains(child)
            &&& other != child && children.contains_key(parent) && children[parent].contains(other) ==> (
            removed.contains_key(parent) && removed[parent].contains(other))
            &&& other_parent != parent ==> (removed.contains_key(other_parent) == children.contains_key(
                other_parent,
            ) && removed[other_parent] == children[other_parent])
        }),
{
    broadcast use vstd::seq_lib::group_filter_ensures;

    let added = child_added(children, Some(parent), child);
    if children.contains_key(parent) {
        assert(added[parent].drop_last() =~= children[parent]);
        let list = children[parent];
        let keep = other_than(child);
        let left = list.filter(keep);
        if left.contains(child) {
            let k = choose|k: int| 0 <= k < left.len() && left[k] == child;
            assert(keep(left[k]));
        }
        if other != child && list.contains(other) {
            let k = choose|k: int| 0 <= k < list.len() && list[k] == other;
            assert(keep(list[k]));
            list.lemma_filter_contains(keep, k);
            assert(left.contains(other));
        }
    }
}

/// A window is on the screen exactly if some pixel of it is.
pub proof fn on_screen_means_a_pixel_shows(geo: Rectangle, w: i32, h: i32)
    requires
        geo.w > 0,
        geo.h > 0,
        w > 0,
        h > 0,
    ensures
        on_screen(geo, w, h) <==> exists|x: int, y: int| #[trigger] shows(geo, w, h, x, y),
{
    if on_screen(geo, w, h) {
        let x = if geo.x > 0 {
            geo.x as int
        } else {
            0
        };
        let y = if geo.y > 0 {
            geo.y as int
        } else {
            0
        };
        assert(shows(geo, w, h, x, y));
    }
}

/// The pixel at this place belongs to the window and to the output.
pub open spec fn shows(geo: Rectangle, w: i32, h: i32, x: int, y: int) -> bool {
    &&& geo.x <= x < geo.x + geo.w
    &&& geo.y <= y < geo.y + geo.h
    &&& 0 <= x < w
    &&& 0 <= y < h
}

/// A dropdown is shown where it is, if it is one of the focused window and on
/// the screen; what is no dropdown has the focus decided anew.
pub proof fn dropdowns_of_the_focused_window_show(meta: WindowMetadata, child: bool, w: i32, h: i32)
    ensures
        override_outcome(meta, child, w, h) is Reevaluate <==> !meta.dropdown(),
        override_outcome(meta, child, w, h) matches OverrideMapped::Dropdown { x, y } ==> x
            == meta.geometry.x && y == meta.geometry.y,
        override_outcome(meta, child, w, h) is Dropdown <==> meta.dropdown() && child && meta.geometry.x
            + meta.geometry.w > 0 && meta.geometry.x < w && meta.geometry.y + meta.geometry.h > 0
            && meta.geometry.y < h,
        meta.dropdown() && !child ==> override_outcome(meta, child, w, h) is Ignored,
{
}

/// A change of a property takes over what hangs on that property, and leaves
/// the rest: app, process, place and sequence numbers stay in any case.
pub proof fn property_changes_stay_small(meta: WindowMetadata, property: WmWindowProperty, new: WindowMetadata)
    ensures
        ({
            let m = updated_by(meta, property, new);
            &&& m.app_id == meta.app_id && m.pid == meta.pid && m.geometry == meta.geometry
            &&& m.map_sequence == meta.map_sequence && m.damage_sequence == meta.damage_sequence
            &&& m.flags == meta.flags && m.x11_window_id == meta.x11_window_id
            &&& m.override_redirect == meta.override_redirect && m.fullscreen == meta.fullscreen
            &&& property == WmWindowProperty::TransientFor ==> m.transient_for == new.transient_for
                && m.skip_taskbar == new.skip_taskbar && m.skip_pager == new.skip_pager
                && m.maybe_a_dropdown == new.maybe_a_dropdown && m.is_dialog == meta.is_dialog && m.disabled
                == meta.disabled
            &&& property == WmWindowProperty::WindowType ==> m.is_dialog == new.is_dialog
                && m.maybe_a_dropdown == new.maybe_a_dropdown && m.transient_for == meta.transient_for
                && m.disabled == meta.disabled
            &&& property == WmWindowProperty::Hints ==> m.disabled == new.disabled && m.is_dialog
                == meta.is_dialog && m.transient_for == meta.transient_for
            &&& property != WmWindowProperty::TransientFor && property != WmWindowProperty::WindowType
                && property != WmWindowProperty::Hints ==> m == meta
            &&& focus_relevant(property) <==> property == WmWindowProperty::TransientFor || property
                == WmWindowProperty::WindowType || property == WmWindowProperty::Hints || property
                == WmWindowProperty::Pid
        }),
{
}

/// A window that goes fullscreen, or leaves it, takes the new size where there
/// is one; one that is as it was stays as it was.
pub proof fn fullscreen_takes_the_size(meta: WindowMetadata, on: bool, size: Option<(i32, i32)>)
    ensures
        ({
            let m = fullscreen_changed(meta, on, size);
            &&& m.fullscreen == on
            &&& meta.fullscreen == on ==> m == meta
            &&& meta.fullscreen != on ==> (size matches Some((w, h)) ==> m.geometry.w == w && m.geometry.h == h
                && m.geometry.x == 0 && m.geometry.y == 0)
            &&& size is None ==> m.geometry == meta.geometry
            &&& m == (WindowMetadata { fullscreen: on, geometry: m.geometry, ..meta })
        }),
{
}

/// The toplevel that shows a surface is the first that does, and what changes
/// about a window changes about that one alone.
pub proof fn one_window_changes(
    ws: Seq<Window>,
    surface: u64,
    f: spec_fn(WindowMetadata) -> WindowMetadata,
    j: int,
)
    requires
        0 <= j < ws.len(),
    ensures
        toplevel_index(ws, surface) matches Some(i) ==> 0 <= i < ws.len() && ws[i].toplevel && ws[i].surface
            == Some(surface),
        toplevel_index(ws, surface) is None ==> !(ws[j].toplevel && ws[j].surface == Some(surface)),
        with_meta(ws, toplevel_index(ws, surface), f).len() == ws.len(),
        toplevel_index(ws, surface) != Some(j) ==> with_meta(ws, toplevel_index(ws, surface), f)[j] == ws[j],
        toplevel_index(ws, surface) == Some(j) && ws[j].meta is Some ==> with_meta(
            ws,
            toplevel_index(ws, surface),
            f,
        )[j] == (Window { meta: Some(f(ws[j].meta->0)), ..ws[j] }),
{
    let g = |w: Window| w.toplevel && w.surface == Some(surface);
    state::first_index_is_first(ws, g);
    if toplevel_index(ws, surface) is None {
        assert(!g(ws[j]));
    } else {
        assert(g(ws[toplevel_index(ws, surface)->0]));
    }
}

/// A dropdown of the focused window that does not show is told to be off the
/// screen: each of the four outcomes comes where it should.
pub proof fn hidden_dropdowns_are_told(meta: WindowMetadata, child: bool, w: i32, h: i32)
    ensures
        override_outcome(meta, child, w, h) is OffScreen <==> meta.dropdown() && child && !(
        meta.geometry.x + meta.geometry.w > 0 && meta.geometry.x < w && meta.geometry.y + meta.geometry.h
            > 0 && meta.geometry.y < h),
        override_outcome(meta, child, w, h) is Ignored <==> meta.dropdown() && !child,
{
}

/// What is known of when a window was drawn is known of the first registered
/// window of that id, and of none where no registered window has it.
pub proof fn drawing_is_known_of_the_first(ws: Seq<Window>, id: u32, i: int)
    requires
        0 <= i <= ws.len(),
        forall|j: int|
            0 <= j < i ==> !((#[trigger] ws[j]).meta matches Some(m) && m.x11_window_id == Some(id)),
        i < ws.len() ==> (ws[i].meta matches Some(m) && m.x11_window_id == Some(id)),
    ensures
        i == ws.len() ==> damage_of(ws, id) is None,
        i < ws.len() ==> damage_of(ws, id) == Some(ws[i].meta->0.damage_sequence),
{
    let f = |w: Window| w.meta is Some && w.meta->0.x11_window_id == Some(id);
    assert forall|j: int| 0 <= j < i implies !f(#[trigger] ws[j]) by {
        assert(!(ws[j].meta matches Some(m) && m.x11_window_id == Some(id)));
    }
    if i < ws.len() {
        state::first_index_unique(ws, f, i);
    } else {
        state::first_index_none(ws, f);
    }
}

} // verus!
