//! The compositor's own view of its windows and of where focus is.
use std::collections::{HashMap, HashSet};
use vstd::prelude::*;

use crate::compositor::focus::{FocusState, WindowMetadata};

verus! {

broadcast use vstd::std_specs::hash::group_hash_axioms;

/// A window on the compositor's stack.
#[derive(Clone, Copy, Debug, PartialEq, Eq, Structural)]
pub struct Window {
    /// What the window is known by.
    pub handle: u64,
    /// X11 window id, for X11 windows.
    pub x11: Option<u32>,
    /// The window is an XDG toplevel.
    pub toplevel: bool,
    /// The Wayland surface that it shows, once there is one.
    pub surface: Option<u64>,
    /// What is known of it for focus, while it is registered.
    pub meta: Option<WindowMetadata>,
}

/// Where focus is and what decides it, apart from the windows themselves.
#[derive(Clone, Copy, Debug, PartialEq, Eq, Structural)]
pub struct FocusTargets {
    /// X11 window with the focus (`None` when a Wayland window or none has it).
    pub focused_x11_window: Option<u32>,
    /// Window with the focus.
    pub focused_window: Option<Window>,
    /// Window that the pointer goes to.
    pub pointer_focus_window: Option<u64>,
    /// The Steam overlay.
    pub overlay_window: Option<u64>,
    /// The Steam notification.
    pub notification_window: Option<u64>,
    /// The external overlay.
    pub external_overlay_window: Option<u64>,
    /// The dropdown above the focused window.
    pub override_window: Option<u64>,
    /// X11 window that last got the keyboard when focus changed.
    pub last_keyboard_focus_window: Option<u32>,
    /// Whether focus is to be decided anew, and what was asked for.
    pub focus_state: FocusState,
    /// Windows mapped so far.
    pub map_sequence_counter: u64,
    /// Commits of game windows so far.
    pub damage_sequence_counter: u64,
    /// Width of the output.
    pub width: u32,
    /// Height of the output.
    pub height: u32,
    /// Something on screen has changed.
    pub screen_dirty: bool,
}

/// The compositor's state.
pub struct MoonshineCompositor {
    /// All windows, bottom first.
    pub windows: Vec<Window>,
    /// From X11 window to the windows transient for it.
    pub transient_children: HashMap<u32, Vec<u64>>,
    /// X11 windows docked in the system tray.
    pub sys_tray_icons: HashSet<u32>,
    /// Where focus is.
    pub targets: FocusTargets,
}

impl MoonshineCompositor {
    /// From X11 window to the windows transient for it, in order.
    pub open spec fn children(self) -> Map<u32, Seq<u64>> {
        child_lists(self.transient_children@)
    }

    /// The same, with the screen to be painted anew if `dirty`.
    pub open spec fn painted_anew_if(self, dirty: bool) -> MoonshineCompositor {
        MoonshineCompositor {
            targets: FocusTargets {
                screen_dirty: self.targets.screen_dirty || dirty,
                ..self.targets
            },
            ..self
        }
    }

    /// A compositor without windows, of which nothing is painted yet.
    pub fn new(width: u32, height: u32) -> (c: Self)
        ensures
            c.windows@ == Seq::<Window>::empty(),
            c.children() == Map::<u32, Seq<u64>>::empty(),
            c.sys_tray_icons@ == Set::<u32>::empty(),
            c.targets == blank_targets(width, height),
    {
        let c = MoonshineCompositor {
            windows: Vec::new(),
            transient_children: HashMap::new(),
            sys_tray_icons: HashSet::new(),
            targets: FocusTargets {
                focused_x11_window: None,
                focused_window: None,
                pointer_focus_window: None,
                overlay_window: None,
                notification_window: None,
                external_overlay_window: None,
                override_window: None,
                last_keyboard_focus_window: None,
                focus_state: FocusState {
                    dirty: false,
                    requested_focus: None,
                    requested_focus_surface: None,
                },
                map_sequence_counter: 0,
                damage_sequence_counter: 0,
                width,
                height,
                screen_dirty: true,
            },
        };
        proof {
            assert(c.children() =~= Map::<u32, Seq<u64>>::empty());
        }
        c
    }
}

/// Targets before any window came.
pub open spec fn blank_targets(width: u32, height: u32) -> FocusTargets {
    FocusTargets {
        focused_x11_window: None,
        focused_window: None,
        pointer_focus_window: None,
        overlay_window: None,
        notification_window: None,
        external_overlay_window: None,
        override_window: None,
        last_keyboard_focus_window: None,
        focus_state: FocusState { dirty: false, requested_focus: None, requested_focus_surface: None },
        map_sequence_counter: 0,
        damage_sequence_counter: 0,
        width,
        height,
        screen_dirty: true,
    }
}

/// The lists in a table of lists.
pub open spec fn child_lists(table: Map<u32, Vec<u64>>) -> Map<u32, Seq<u64>> {
    Map::new(|p: u32| table.contains_key(p), |p: u32| table[p]@)
}

// ---------------------------------------------------------------------------
// Finding windows
// ---------------------------------------------------------------------------

/// The index of the first window that `f` holds of.
pub open spec fn first_index(ws: Seq<Window>, f: spec_fn(Window) -> bool) -> Option<int>
    decreases ws.len(),
{
    if ws.len() == 0 {
        None
    } else {
        match first_index(ws.drop_last(), f) {
            Some(i) => Some(i),
            None => if f(ws.last()) {
                Some(ws.len() - 1)
            } else {
                None
            },
        }
    }
}

/// The first window that `f` holds of.
pub open spec fn first_window(ws: Seq<Window>, f: spec_fn(Window) -> bool) -> Option<Window> {
    match first_index(ws, f) {
        Some(i) => Some(ws[i]),
        None => None,
    }
}

/// The window known by `handle`.
pub open spec fn by_handle(ws: Seq<Window>, handle: u64) -> Option<Window> {
    first_window(ws, |w: Window| w.handle == handle)
}

/// The window that is the X11 window `id`.
pub open spec fn by_x11(ws: Seq<Window>, id: u32) -> Option<Window> {
    first_window(ws, |w: Window| w.x11 == Some(id))
}

/// The metadata of the window known by `handle`.
pub open spec fn meta_of(ws: Seq<Window>, handle: u64) -> Option<WindowMetadata> {
    match by_handle(ws, handle) {
        Some(w) => w.meta,
        None => None,
    }
}

/// A first window is one that `f` holds of, and `f` holds of none before it.
pub proof fn first_index_is_first(ws: Seq<Window>, f: spec_fn(Window) -> bool)
    ensures
        first_index(ws, f) matches Some(i) ==> 0 <= i < ws.len() && f(ws[i]) && (forall|j: int|
            0 <= j < i ==> !f(#[trigger] ws[j])),
        first_index(ws, f) is None ==> forall|j: int| 0 <= j < ws.len() ==> !f(#[trigger] ws[j]),
    decreases ws.len(),
{
    if ws.len() > 0 {
        let t = ws.drop_last();
        first_index_is_first(t, f);
        assert(forall|j: int| 0 <= j < t.len() ==> t[j] == ws[j]);
        if first_index(t, f) is None && !f(ws.last()) {
            assert forall|j: int| 0 <= j < ws.len() implies !f(#[trigger] ws[j]) by {
                if j < t.len() {
                    assert(!f(t[j]));
                }
            }
        } else if first_index(t, f) is None {
            assert forall|j: int| 0 <= j < ws.len() - 1 implies !f(#[trigger] ws[j]) by {
                assert(!f(t[j]));
            }
        } else {
            let i = first_index(t, f)->0;
            assert forall|j: int| 0 <= j < i implies !f(#[trigger] ws[j]) by {
                assert(!f(t[j]));
            }
        }
    }
}

/// An index that is first among the windows is the first index.
pub proof fn first_index_unique(ws: Seq<Window>, f: spec_fn(Window) -> bool, i: int)
    requires
        0 <= i < ws.len(),
        f(ws[i]),
        forall|j: int| 0 <= j < i ==> !f(#[trigger] ws[j]),
    ensures
        first_index(ws, f) == Some(i),
{
    first_index_is_first(ws, f);
    if first_index(ws, f) is Some {
        let k = first_index(ws, f)->0;
        if k < i {
            assert(!f(ws[k]));
        }
        if i < k {
            assert(!f(ws[i]));
        }
    }
}

/// Without a window that `f` holds of there is no first index.
pub proof fn first_index_none(ws: Seq<Window>, f: spec_fn(Window) -> bool)
    requires
        forall|j: int| 0 <= j < ws.len() ==> !f(#[trigger] ws[j]),
    ensures
        first_index(ws, f) is None,
{
    first_index_is_first(ws, f);
}

/// Finds the window known by `handle`.
pub fn find_handle(ws: &[Window], handle: u64) -> (r: Option<usize>)
    ensures
        r matches Some(i) ==> i < ws@.len() && first_index(ws@, |w: Window| w.handle == handle) == Some(i as int),
        r is None ==> first_index(ws@, |w: Window| w.handle == handle) is None,
{
    let ghost f = |w: Window| w.handle == handle;
    let mut i: usize = 0;
    while i < ws.len()
        invariant
            i <= ws@.len(),
            f == (|w: Window| w.handle == handle),
            forall|j: int| 0 <= j < i ==> !f(#[trigger] ws@[j]),
        decreases ws@.len() - i,
    {
        if ws[i].handle == handle {
            proof {
                first_index_unique(ws@, f, i as int);
            }
            return Some(i);
        }
        i += 1;
    }
    proof {
        first_index_none(ws@, f);
    }
    None
}

/// Finds the window that is the X11 window `id`.
pub fn find_x11(ws: &[Window], id: u32) -> (r: Option<usize>)
    ensures
        r matches Some(i) ==> i < ws@.len() && first_index(ws@, |w: Window| w.x11 == Some(id)) == Some(i as int),
        r is None ==> first_index(ws@, |w: Window| w.x11 == Some(id)) is None,
{
    let ghost f = |w: Window| w.x11 == Some(id);
    let mut i: usize = 0;
    while i < ws.len()
        invariant
            i <= ws@.len(),
            f == (|w: Window| w.x11 == Some(id)),
            forall|j: int| 0 <= j < i ==> !f(#[trigger] ws@[j]),
        decreases ws@.len() - i,
    {
        if ws[i].x11 == Some(id) {
            proof {
                first_index_unique(ws@, f, i as int);
            }
            return Some(i);
        }
        i += 1;
    }
    proof {
        first_index_none(ws@, f);
    }
    None
}

/// The metadata of the window known by `handle`; see [`meta_of`].
pub fn metadata(ws: &[Window], handle: u64) -> (r: Option<WindowMetadata>)
    ensures
        r == meta_of(ws@, handle),
{
    match find_handle(ws, handle) {
        Some(i) => ws[i].meta,
        None => None,
    }
}

/// A window is found by what it is known by: the first one on the stack, and
/// none exactly where no window is known by it.
pub proof fn windows_are_found(ws: Seq<Window>, handle: u64, id: u32)
    ensures
        by_handle(ws, handle) matches Some(w) ==> ws.contains(w) && w.handle == handle,
        by_handle(ws, handle) is None ==> forall|j: int| 0 <= j < ws.len() ==> (#[trigger] ws[j]).handle != handle,
        by_x11(ws, id) matches Some(w) ==> ws.contains(w) && w.x11 == Some(id),
        by_x11(ws, id) is None ==> forall|j: int| 0 <= j < ws.len() ==> (#[trigger] ws[j]).x11 != Some(id),
        meta_of(ws, handle) matches Some(m) ==> exists|i: int|
            0 <= i < ws.len() && (#[trigger] ws[i]).handle == handle && ws[i].meta == Some(m),
        meta_of(ws, handle) is None ==> forall|j: int|
            0 <= j < ws.len() && (#[trigger] ws[j]).handle == handle ==> exists|i: int|
                0 <= i <= j && (#[trigger] ws[i]).handle == handle && ws[i].meta is None,
{
    let f = |w: Window| w.handle == handle;
    let g = |w: Window| w.x11 == Some(id);
    first_index_is_first(ws, f);
    first_index_is_first(ws, g);
    if let Some(i) = first_index(ws, f) {
        assert(f(ws[i]));
        assert(ws[i].handle == handle);
        assert forall|j: int| 0 <= j < ws.len() && (#[trigger] ws[j]).handle == handle implies i <= j by {
            if j < i {
                assert(!f(ws[j]));
            }
        }
    } else {
        assert forall|j: int| 0 <= j < ws.len() implies (#[trigger] ws[j]).handle != handle by {
            assert(!f(ws[j]));
        }
    }
    if let Some(i) = first_index(ws, g) {
        assert(g(ws[i]));
        assert(ws[i].x11 == Some(id));
    } else {
        assert forall|j: int| 0 <= j < ws.len() implies (#[trigger] ws[j]).x11 != Some(id) by {
            assert(!g(ws[j]));
        }
    }
}

/// At first nothing has the focus, nothing was counted, and the screen is to be
/// painted.
pub proof fn nothing_is_focused_at_first(width: u32, height: u32)
    ensures
        ({
            let t = blank_targets(width, height);
            &&& t.focused_x11_window is None && t.focused_window is None && t.pointer_focus_window is None
            &&& t.overlay_window is None && t.notification_window is None && t.external_overlay_window
                is None
            &&& t.override_window is None && t.last_keyboard_focus_window is None
            &&& !t.focus_state.dirty && t.focus_state.requested_focus is None
                && t.focus_state.requested_focus_surface is None
            &&& t.map_sequence_counter == 0 && t.damage_sequence_counter == 0
            &&& t.width == width && t.height == height
            &&& t.screen_dirty
        }),
{
}

/// A screen that is to be painted stays so until it is painted, and asking for
/// it changes nothing else.
pub proof fn painting_is_not_forgotten(c: MoonshineCompositor, dirty: bool)
    ensures
        c.painted_anew_if(dirty).targets.screen_dirty <==> c.targets.screen_dirty || dirty,
        c.painted_anew_if(false) == c,
        c.painted_anew_if(dirty).windows == c.windows,
        c.painted_anew_if(dirty).transient_children == c.transient_children,
        c.painted_anew_if(dirty).sys_tray_icons == c.sys_tray_icons,
        c.painted_anew_if(dirty).targets.focused_window == c.targets.focused_window,
        c.painted_anew_if(dirty).targets.focus_state == c.targets.focus_state,
{
}

/// The children of a window are those in its list, in order; a window without a
/// list has none.
pub proof fn children_are_those_listed(table: Map<u32, Vec<u64>>, parent: u32)
    ensures
        child_lists(table).contains_key(parent) <==> table.contains_key(parent),
        table.contains_key(parent) ==> child_lists(table)[parent] == table[parent]@,
{
}

} // verus!
