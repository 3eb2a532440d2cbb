//! Windows are reconfigured, announce themselves and go away.
use vstd::prelude::*;

use crate::compositor::focus::{
    FocusState, Rectangle, WindowFlags, WindowMetadata, EXTERNAL_OVERLAY, NOTIFICATION, OVERLAY,
    STREAMING_CLIENT, STREAMING_CLIENT_VIDEO, SYS_TRAY_ICON, VR_OVERLAY_TARGET,
};
use crate::compositor::handlers;
use crate::compositor::handlers::{WmWindowProperty, OVERLAY_WIDTH};
use crate::compositor::refocus;
use crate::compositor::refocus::FocusAction;
use crate::compositor::state;
use crate::compositor::state::{FocusTargets, MoonshineCompositor, Window};
use crate::text;

verus! {

broadcast use vstd::std_specs::hash::group_hash_axioms;

/// The index of the window that is X11 window `id`.
pub open spec fn x11_index(ws: Seq<Window>, id: u32) -> Option<int> {
    state::first_index(ws, |w: Window| w.x11 == Some(id))
}

/// The parent that window `i` is registered as transient for.
pub open spec fn registered_parent(ws: Seq<Window>, i: int) -> Option<u32> {
    match ws[i].meta {
        Some(meta) => meta.transient_for,
        None => None,
    }
}

/// The windows with window `i` no longer registered.
pub open spec fn unregistered(ws: Seq<Window>, i: int) -> Seq<Window> {
    ws.update(i, Window { meta: None, ..ws[i] })
}

/// The flags that make a window a special one.
pub const SPECIAL: u8 = OVERLAY | NOTIFICATION | EXTERNAL_OVERLAY | STREAMING_CLIENT
    | STREAMING_CLIENT_VIDEO | VR_OVERLAY_TARGET;

/// What a window that was unmapped calls for.
#[derive(Clone, Copy, Debug, PartialEq, Eq, Structural)]
pub struct Unmapped {
    /// Dismiss dropdowns: the window was the override window.
    pub clear_dropdowns: bool,
    /// Take the keyboard from the window that has it.
    pub clear_keyboard: bool,
    /// Decide focus anew.
    pub reevaluate: bool,
}

impl MoonshineCompositor {
    /// Forgets what is known of window `i`, and that it is a child of its
    /// parent.
    pub fn unregister_window(&mut self, i: usize)
        requires
            i < old(self).windows@.len(),
        ensures
            final(self).windows@ == unregistered(old(self).windows@, i as int),
            final(self).children() == handlers::child_removed(
                old(self).children(),
                registered_parent(old(self).windows@, i as int),
                old(self).windows@[i as int].handle,
            ),
            final(self).targets == old(self).targets,
            final(self).sys_tray_icons == old(self).sys_tray_icons,
    {
        let w = self.windows[i];
        let parent = match w.meta {
            Some(meta) => meta.transient_for,
            None => None,
        };
        handlers::remove_child(&mut self.transient_children, parent, w.handle);
        self.windows.set(i, Window { meta: None, ..w });
    }

    /// A toplevel was destroyed: it is forgotten and taken from the stack.
    /// Focus is to be decided anew.
    pub fn toplevel_destroyed(&mut self, surface: u64)
        ensures
            ({
                let ws = old(self).windows@;
                match handlers::toplevel_index(ws, surface) {
                    None => final(self).windows@ == ws && final(self).children() == old(self).children(),
                    Some(i) => {
                        &&& final(self).windows@ == ws.remove(i)
                        &&& final(self).children() == handlers::child_removed(
                            old(self).children(),
                            registered_parent(ws, i),
                            ws[i].handle,
                        )
                    },
                }
            }),
            final(self).targets == old(self).targets,
            final(self).sys_tray_icons == old(self).sys_tray_icons,
    {
        proof {
            state::first_index_is_first(
                self.windows@,
                |w: Window| w.toplevel && w.surface == Some(surface),
            );
        }
        if let Some(i) = handlers::find_window_by_surface(&self.windows, surface) {
            self.unregister_window(i);
            self.windows.remove(i);
            proof {
                assert(self.windows@ =~= old(self).windows@.remove(i as int));
            }
        }
    }

    /// An X11 window was destroyed: it is forgotten, and is no tray icon any
    /// more.
    pub fn destroyed_window(&mut self, window_id: u32)
        ensures
            ({
                let ws = old(self).windows@;
                match x11_index(ws, window_id) {
                    None => final(self).windows@ == ws && final(self).children() == old(self).children(),
                    Some(i) => {
                        &&& final(self).windows@ == unregistered(ws, i)
                        &&& final(self).children() == handlers::child_removed(
                            old(self).children(),
                            registered_parent(ws, i),
                            ws[i].handle,
                        )
                    },
                }
            }),
            final(self).targets == old(self).targets,
            final(self).sys_tray_icons@ == old(self).sys_tray_icons@.remove(window_id),
    {
        self.sys_tray_icons.remove(&window_id);
        if let Some(i) = state::find_x11(&self.windows, window_id) {
            self.unregister_window(i);
        }
    }

    /// An X11 window was unmapped: it is forgotten and taken from the stack.
    /// If it had the focus, or was the parent of the window that has it, the
    /// focus is cleared; then, or if it was a special window, or if no X11
    /// window has the focus, focus is to be decided anew.
    pub fn unmapped_window(&mut self, window_id: u32) -> (r: Unmapped)
        ensures
            ({
                let ws = old(self).windows@;
                let t = old(self).targets;
                let at = x11_index(ws, window_id);
                let was_focused = t.focused_x11_window == Some(window_id);
                let parent_of_focused = t.focused_x11_window is Some && state::by_x11(
                    ws,
                    t.focused_x11_window->0,
                ) is Some && state::by_x11(ws, t.focused_x11_window->0)->0.meta is Some && state::by_x11(
                    ws,
                    t.focused_x11_window->0,
                )->0.meta->0.transient_for == Some(window_id);
                let special = at is Some && ws[at->0].meta is Some && ws[at->0].meta->0.flags.has_some(
                    SPECIAL,
                );
                let was_override = at is Some && t.override_window == Some(ws[at->0].handle);
                let clears = was_focused || parent_of_focused;
                &&& r == (Unmapped {
                    clear_dropdowns: was_override,
                    clear_keyboard: clears,
                    reevaluate: clears || t.focused_x11_window is None || special,
                })
                &&& final(self).windows@ == match at {
                    Some(i) => ws.remove(i),
                    None => ws,
                }
                &&& final(self).children() == match at {
                    Some(i) => handlers::child_removed(
                        old(self).children(),
                        registered_parent(ws, i),
                        ws[i].handle,
                    ),
                    None => old(self).children(),
                }
                &&& final(self).sys_tray_icons@ == old(self).sys_tray_icons@.remove(window_id)
                &&& final(self).targets == (FocusTargets {
                    override_window: if was_override { None } else { t.override_window },
                    focused_x11_window: if clears { None } else { t.focused_x11_window },
                    ..t
                })
            }),
    {
        self.sys_tray_icons.remove(&window_id);
        let was_focused = self.targets.focused_x11_window == Some(window_id);
        let parent_of_focused = match self.targets.focused_x11_window {
            Some(focused) => match state::find_x11(&self.windows, focused) {
                Some(i) => match self.windows[i].meta {
                    Some(meta) => meta.transient_for == Some(window_id),
                    None => false,
                },
                None => false,
            },
            None => false,
        };
        let mut special = false;
        let mut was_override = false;
        if let Some(i) = state::find_x11(&self.windows, window_id) {
            let w = self.windows[i];
            if let Some(meta) = w.meta {
                special = meta.flags.intersects(SPECIAL);
            }
            self.unregister_window(i);
            self.windows.remove(i);
            proof {
                assert(self.windows@ =~= old(self).windows@.remove(i as int));
            }
            was_override = self.targets.override_window == Some(w.handle);
            if was_override {
                self.targets.override_window = None;
            }
        }
        let none_focused = self.targets.focused_x11_window.is_none();
        let clears = was_focused || parent_of_focused;
        if clears {
            self.targets.focused_x11_window = None;
        }
        Unmapped {
            clear_dropdowns: was_override,
            clear_keyboard: clears,
            reevaluate: clears || none_focused || special,
        }
    }

    /// A property of an X11 window changed; `new` is what is known of the
    /// window now. Returns whether focus is to be decided anew.
    pub fn property_notify(
        &mut self,
        window_id: u32,
        property: WmWindowProperty,
        new: &WindowMetadata,
    ) -> (r: bool)
        ensures
            r == handlers::focus_relevant(property),
            ({
                let ws = old(self).windows@;
                let at = x11_index(ws, window_id);
                let hit = r && at is Some && ws[at->0].meta is Some;
                let handle = ws[at->0].handle;
                &&& final(self).windows@ == if hit {
                    handlers::with_meta(
                        ws,
                        at,
                        |m: WindowMetadata| handlers::updated_by(m, property, *new),
                    )
                } else {
                    ws
                }
                &&& final(self).children() == if hit && property == WmWindowProperty::TransientFor {
                    handlers::child_added(
                        handlers::child_removed(
                            old(self).children(),
                            ws[at->0].meta->0.transient_for,
                            handle,
                        ),
                        new.transient_for,
                        handle,
                    )
                } else {
                    old(self).children()
                }
            }),
            final(self).targets == old(self).targets,
            final(self).sys_tray_icons == old(self).sys_tray_icons,
    {
        let relevant = property == WmWindowProperty::Pid || property == WmWindowProperty::Hints
            || property == WmWindowProperty::TransientFor || property == WmWindowProperty::WindowType;
        if !relevant {
            return false;
        }
        if let Some(i) = state::find_x11(&self.windows, window_id) {
            let w = self.windows[i];
            if let Some(meta) = w.meta {
                let updated = handlers::update_by(meta, property, new);
                self.windows.set(i, Window { meta: Some(updated), ..w });
                if property == WmWindowProperty::TransientFor {
                    handlers::remove_child(&mut self.transient_children, meta.transient_for, w.handle);
                    handlers::add_child(&mut self.transient_children, new.transient_for, w.handle);
                }
            }
        }
        true
    }

    /// A client message came. `_NET_ACTIVE_WINDOW` asks for a window to be
    /// focused; `_NET_SYSTEM_TRAY_OPCODE` with opcode 0 docks a window in the
    /// system tray. Returns whether focus is to be decided anew.
    pub fn client_message_event(&mut self, message: &str, window: u32, data: [u32; 5]) -> (r: bool)
        ensures
            ({
                let asks = message@ == "_NET_ACTIVE_WINDOW"@;
                let docks = !asks && message@ == "_NET_SYSTEM_TRAY_OPCODE"@ && data@[1] == 0 && data@[2]
                    != 0;
                let icon = data@[2];
                let ws = old(self).windows@;
                &&& r == (asks || docks)
                &&& final(self).windows@ == if docks {
                    handlers::with_meta(
                        ws,
                        registered_x11_index(ws, icon),
                        |m: WindowMetadata|
                            WindowMetadata {
                                flags: WindowFlags { bits: m.flags.bits | SYS_TRAY_ICON },
                                ..m
                            },
                    )
                } else {
                    ws
                }
                &&& final(self).sys_tray_icons@ == if docks {
                    old(self).sys_tray_icons@.insert(icon)
                } else {
                    old(self).sys_tray_icons@
                }
                &&& final(self).targets == if asks {
                    FocusTargets {
                        focus_state: FocusState {
                            dirty: true,
                            requested_focus: Some(window),
                            ..old(self).targets.focus_state
                        },
                        ..old(self).targets
                    }
                } else {
                    old(self).targets
                }
                &&& final(self).transient_children == old(self).transient_children
            }),
    {
        if text::same_text(message, "_NET_ACTIVE_WINDOW") {
            self.targets.focus_state.set_requested_focus(window);
            return true;
        }
        if !text::same_text(message, "_NET_SYSTEM_TRAY_OPCODE") || data[1] != 0 || data[2] == 0 {
            return false;
        }
        let icon = data[2];
        self.sys_tray_icons.insert(icon);
        proof {
            state::first_index_is_first(
                self.windows@,
                |w: Window| w.meta is Some && w.x11 == Some(icon),
            );
        }
        if let Some(i) = find_registered_x11(&self.windows, icon) {
            let w = self.windows[i];
            if let Some(meta) = w.meta {
                let flags = meta.flags.with(SYS_TRAY_ICON);
                self.windows.set(i, Window { meta: Some(WindowMetadata { flags, ..meta }), ..w });
            }
        }
        true
    }

    /// An X11 window was moved or resized: it is put on top, and a Steam
    /// window, whose `STEAM_OVERLAY` is `steam_overlay` now, is an overlay or
    /// a notification by its new width. Focus is dirty if its kind changed.
    pub fn configure_notify(&mut self, window_id: u32, geometry: Rectangle, steam_overlay: u32)
        ensures
            ({
                let ws = old(self).windows@;
                let t = old(self).targets;
                match x11_index(ws, window_id) {
                    None => final(self).windows@ == ws && final(self).targets == t,
                    Some(i) => {
                        let w = ws[i];
                        let moved = Window {
                            meta: match w.meta {
                                Some(meta) => Some(reconfigured(meta, geometry, steam_overlay)),
                                None => None,
                            },
                            ..w
                        };
                        let changed = w.meta is Some && moved.meta->0.flags != w.meta->0.flags;
                        &&& final(self).windows@ == ws.remove(i).push(moved)
                        &&& final(self).targets == (FocusTargets {
                            focus_state: FocusState {
                                dirty: t.focus_state.dirty || changed,
                                ..t.focus_state
                            },
                            ..t
                        })
                    },
                }
            }),
            final(self).transient_children == old(self).transient_children,
            final(self).sys_tray_icons == old(self).sys_tray_icons,
    {
        if let Some(i) = state::find_x11(&self.windows, window_id) {
            let w = self.windows[i];
            let mut meta = w.meta;
            if let Some(m) = w.meta {
                let new = reconfigure(m, geometry, steam_overlay);
                if new.flags != m.flags {
                    self.targets.focus_state.mark_dirty();
                }
                meta = Some(new);
            }
            self.windows.remove(i);
            self.windows.push(Window { meta, ..w });
        }
    }

    /// The surface of an X11 window came to be; the window shows it from now
    /// on. If the window has the focus, that is set once more, now that there
    /// is a surface to get it.
    pub fn surface_associated(&mut self, window_id: u32, surface: u64, x11: bool) -> (actions: Vec<
        FocusAction,
    >)
        ensures
            final(self).windows@ == with_surface(old(self).windows@, window_id, surface),
            *final(self) == (MoonshineCompositor { windows: final(self).windows, ..*old(self) }),
            actions@ == if old(self).targets.focused_x11_window == Some(window_id) && x11_index(
                old(self).windows@,
                window_id,
            ) is Some {
                let handle = old(self).windows@[x11_index(old(self).windows@, window_id)->0].handle;
                seq![FocusAction::ClearKeyboardFocus, FocusAction::KeyboardFocus { window: handle }]
                    + refocus::only_if(x11, FocusAction::InputFocus { x11_window: window_id })
                    + seq![FocusAction::PointerFocus { window: handle, surface }]
            } else {
                Seq::<FocusAction>::empty()
            },
    {
        let mut actions: Vec<FocusAction> = Vec::new();
        if let Some(i) = state::find_x11(&self.windows, window_id) {
            let w = self.windows[i];
            let handle = w.handle;
            self.windows.set(i, Window { surface: Some(surface), ..w });
            if self.targets.focused_x11_window != Some(window_id) {
                return actions;
            }
            actions.push(FocusAction::ClearKeyboardFocus);
            actions.push(FocusAction::KeyboardFocus { window: handle });
            if x11 {
                actions.push(FocusAction::InputFocus { x11_window: window_id });
            }
            actions.push(FocusAction::PointerFocus { window: handle, surface });
            proof {
                assert(actions@ =~= seq![
                    FocusAction::ClearKeyboardFocus,
                    FocusAction::KeyboardFocus { window: handle },
                ] + refocus::only_if(x11, FocusAction::InputFocus { x11_window: window_id }) + seq![
                    FocusAction::PointerFocus { window: handle, surface },
                ]);
            }
        }
        actions
    }
}

/// The windows after the X11 window `id` came to a surface.
pub open spec fn with_surface(ws: Seq<Window>, id: u32, surface: u64) -> Seq<Window> {
    match x11_index(ws, id) {
        Some(i) => ws.update(i, Window { surface: Some(surface), ..ws[i] }),
        None => ws,
    }
}

/// The index of the registered window that is X11 window `id`.
pub open spec fn registered_x11_index(ws: Seq<Window>, id: u32) -> Option<int> {
    state::first_index(ws, |w: Window| w.meta is Some && w.x11 == Some(id))
}

/// Finds a registered X11 window; see [`registered_x11_index`].
fn find_registered_x11(ws: &[Window], id: u32) -> (r: Option<usize>)
    ensures
        r matches Some(i) ==> i < ws@.len() && registered_x11_index(ws@, id) == Some(i as int),
        r is None ==> registered_x11_index(ws@, id) is None,
{
    let ghost f = |w: Window| w.meta is Some && w.x11 == Some(id);
    let mut i: usize = 0;
    while i < ws.len()
        invariant
            i <= ws@.len(),
            f == (|w: Window| w.meta is Some && w.x11 == Some(id)),
            forall|j: int| 0 <= j < i ==> !f(#[trigger] ws@[j]),
        decreases ws@.len() - i,
    {
        if ws[i].meta.is_some() && ws[i].x11 == Some(id) {
            proof {
                state::first_index_unique(ws@, f, i as int);
            }
            return Some(i);
        }
        i += 1;
    }
    proof {
        state::first_index_none(ws@, f);
    }
    None
}

/// Metadata after a window got a new geometry: a Steam overlay or
/// notification is the one or the other by its width.
pub open spec fn reconfigured(meta: WindowMetadata, geometry: Rectangle, steam_overlay: u32) -> WindowMetadata {
    let steam = meta.flags.has_all(OVERLAY) || meta.flags.has_all(NOTIFICATION);
    let bits = if !steam || steam_overlay == 0 {
        meta.flags.bits
    } else if geometry.w > OVERLAY_WIDTH {
        (meta.flags.bits & !NOTIFICATION) | OVERLAY
    } else {
        (meta.flags.bits & !OVERLAY) | NOTIFICATION
    };
    WindowMetadata { geometry, flags: WindowFlags { bits }, ..meta }
}

/// Takes over a new geometry; see [`reconfigured`].
fn reconfigure(meta: WindowMetadata, geometry: Rectangle, steam_overlay: u32) -> (r: WindowMetadata)
    ensures
        r == reconfigured(meta, geometry, steam_overlay),
{
    let steam = meta.flags.contains(OVERLAY) || meta.flags.contains(NOTIFICATION);
    let flags = if !steam || steam_overlay == 0 {
        meta.flags
    } else if geometry.w > OVERLAY_WIDTH {
        meta.flags.without(NOTIFICATION).with(OVERLAY)
    } else {
        meta.flags.without(OVERLAY).with(NOTIFICATION)
    };
    WindowMetadata { geometry, flags, ..meta }
}

/// After a new geometry a Steam window is exactly one of overlay and
/// notification, by its width.
pub proof fn steam_windows_are_split_by_width(
    meta: WindowMetadata,
    geometry: Rectangle,
    steam_overlay: u32,
)
    requires
        meta.flags.has_all(OVERLAY) || meta.flags.has_all(NOTIFICATION),
        steam_overlay != 0,
    ensures
        reconfigured(meta, geometry, steam_overlay).flags.has_all(OVERLAY) == (geometry.w > OVERLAY_WIDTH),
        reconfigured(meta, geometry, steam_overlay).flags.has_all(NOTIFICATION) == (geometry.w
            <= OVERLAY_WIDTH),
{
    let b = meta.flags.bits;
    assert(((b & !2u8) | 1u8) & 1u8 == 1u8 && ((b & !2u8) | 1u8) & 2u8 == 0u8) by (bit_vector);
    assert(((b & !1u8) | 2u8) & 2u8 == 2u8 && ((b & !1u8) | 2u8) & 1u8 == 0u8) by (bit_vector);
}

/// The geometry granted to an X11 window that asks for a size: its own, with
/// the size it asks for. Its place is not its to choose.
pub fn configure_request(geometry: Rectangle, w: Option<u32>, h: Option<u32>) -> (r: Rectangle)
    ensures
        r == (Rectangle {
            w: match w {
                Some(w) => w as i32,
                None => geometry.w,
            },
            h: match h {
                Some(h) => h as i32,
                None => geometry.h,
            },
            ..geometry
        }),
{
    let mut r = geometry;
    if let Some(w) = w {
        #[verifier::truncate]
        let width: i32 = w as i32;
        r.w = width;
    }
    if let Some(h) = h {
        #[verifier::truncate]
        let height: i32 = h as i32;
        r.h = height;
    }
    r
}

/// A window that is forgotten stays on the stack where it is, not registered;
/// the other windows stay as they are.
pub proof fn one_window_is_forgotten(ws: Seq<Window>, i: int, j: int)
    requires
        0 <= i < ws.len(),
        0 <= j < ws.len(),
    ensures
        unregistered(ws, i).len() == ws.len(),
        unregistered(ws, i)[i].meta is None,
        unregistered(ws, i)[i].handle == ws[i].handle && unregistered(ws, i)[i].x11 == ws[i].x11,
        j != i ==> unregistered(ws, i)[j] == ws[j],
        registered_parent(ws, i) is Some ==> ws[i].meta is Some && ws[i].meta->0.transient_for
            == registered_parent(ws, i),
        ws[i].meta matches Some(m) ==> registered_parent(ws, i) == m.transient_for,
{
}

/// The window that comes to a surface is the first of the id, and it alone.
pub proof fn one_window_gets_the_surface(ws: Seq<Window>, id: u32, surface: u64, j: int)
    requires
        0 <= j < ws.len(),
    ensures
        with_surface(ws, id, surface).len() == ws.len(),
        ws[j].x11 != Some(id) ==> with_surface(ws, id, surface)[j] == ws[j],
        ws[j].x11 == Some(id) && (forall|k: int| 0 <= k < j ==> (#[trigger] ws[k]).x11 != Some(id))
            ==> with_surface(ws, id, surface)[j] == (Window { surface: Some(surface), ..ws[j] }),
        x11_index(ws, id) is None ==> ws[j].x11 != Some(id),
{
    let f = |w: Window| w.x11 == Some(id);
    state::first_index_is_first(ws, f);
    if let Some(i) = x11_index(ws, id) {
        assert(f(ws[i]));
    } else {
        assert(!f(ws[j]));
    }
    if ws[j].x11 == Some(id) && (forall|k: int| 0 <= k < j ==> (#[trigger] ws[k]).x11 != Some(id)) {
        state::first_index_unique(ws, f, j);
    }
}

/// A new geometry is taken over as it is, and changes nothing else but whether
/// a Steam window is an overlay or a notification.
pub proof fn new_geometry_is_taken_over(meta: WindowMetadata, geometry: Rectangle, steam_overlay: u32)
    ensures
        ({
            let m = reconfigured(meta, geometry, steam_overlay);
            &&& m.geometry == geometry
            &&& m.flags.bits & !3u8 == meta.flags.bits & !3u8
            &&& steam_overlay == 0 || meta.flags.bits & 3 == 0 ==> m.flags == meta.flags
            &&& m == (WindowMetadata { geometry, flags: m.flags, ..meta })
        }),
{
    let b = meta.flags.bits;
    assert(((b & !2u8) | 1u8) & !3u8 == b & !3u8 && ((b & !1u8) | 2u8) & !3u8 == b & !3u8 && (b & 3 == 0
        ==> b & 1 != 1 && b & 2 != 2)) by (bit_vector);
}

/// A window is found by its X11 id exactly if some window has it, and then the
/// first; a registered one likewise among the registered ones.
pub proof fn windows_are_found_by_id(ws: Seq<Window>, id: u32)
    ensures
        x11_index(ws, id) matches Some(i) ==> {
            &&& 0 <= i < ws.len() && ws[i].x11 == Some(id)
            &&& forall|j: int| 0 <= j < i ==> (#[trigger] ws[j]).x11 != Some(id)
        },
        x11_index(ws, id) is None ==> forall|j: int|
            0 <= j < ws.len() ==> (#[trigger] ws[j]).x11 != Some(id),
        registered_x11_index(ws, id) matches Some(i) ==> {
            &&& 0 <= i < ws.len() && ws[i].x11 == Some(id) && ws[i].meta is Some
            &&& forall|j: int|
                0 <= j < i ==> (#[trigger] ws[j]).meta is None || ws[j].x11 != Some(id)
        },
        registered_x11_index(ws, id) is None ==> forall|j: int|
            0 <= j < ws.len() ==> (#[trigger] ws[j]).meta is None || ws[j].x11 != Some(id),
{
    let f = |w: Window| w.x11 == Some(id);
    let g = |w: Window| w.meta is Some && w.x11 == Some(id);
    state::first_index_is_first(ws, f);
    state::first_index_is_first(ws, g);
    if let Some(i) = x11_index(ws, id) {
        assert(f(ws[i]));
        assert forall|j: int| 0 <= j < i implies (#[trigger] ws[j]).x11 != Some(id) by {
            assert(!f(ws[j]));
        }
    } else {
        assert forall|j: int| 0 <= j < ws.len() implies (#[trigger] ws[j]).x11 != Some(id) by {
            assert(!f(ws[j]));
        }
    }
    if let Some(i) = registered_x11_index(ws, id) {
        assert(g(ws[i]));
        assert forall|j: int| 0 <= j < i implies (#[trigger] ws[j]).meta is None || ws[j].x11 != Some(
            id,
        ) by {
            assert(!g(ws[j]));
        }
    } else {
        assert forall|j: int| 0 <= j < ws.len() implies (#[trigger] ws[j]).meta is None || ws[j].x11
            != Some(id) by {
            assert(!g(ws[j]));
        }
    }
}

/// A Steam window that is wider than 1200 pixels is an overlay, else a
/// notification.
pub proof fn width_tells_overlays(meta: WindowMetadata, geometry: Rectangle, steam_overlay: u32)
    requires
        meta.flags.bits & 1 != 0 || meta.flags.bits & 2 != 0,
        steam_overlay != 0,
    ensures
        ({
            let m = reconfigured(meta, geometry, steam_overlay);
            &&& (m.flags.bits & 1 != 0) == (geometry.w > 1200)
            &&& (m.flags.bits & 2 != 0) == (geometry.w <= 1200)
        }),
{
    let b = meta.flags.bits;
    assert((b & 1 != 0 ==> b & 1 == 1) && (b & 2 != 0 ==> b & 2 == 2) && ((b & !2u8) | 1u8) & 1 != 0 && ((b
        & !2u8) | 1u8) & 2 == 0 && ((b & !1u8) | 2u8) & 2 != 0 && ((b & !1u8) | 2u8) & 1 == 0) by (bit_vector);
}

} // verus!
