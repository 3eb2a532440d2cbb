//! Setting the focus: from live window properties to the actions that carry
//! the new focus out.
use vstd::prelude::*;

use crate::compositor::focus;
use crate::compositor::focus::{FocusState, WindowMetadata, OVERLAY};
use crate::compositor::policy;
use crate::compositor::policy::FocusControl;
use crate::compositor::state;
use crate::compositor::state::{FocusTargets, MoonshineCompositor, Window};

verus! {

broadcast use vstd::std_specs::hash::group_hash_axioms;

/// How many links of a transient chain are followed at most.
pub const TRANSIENT_DEPTH: u64 = 10;

// ---------------------------------------------------------------------------
// Transient chains
// ---------------------------------------------------------------------------

/// The parent that the X11 window `id` is transient for, as registered.
pub open spec fn parent_of(ws: Seq<Window>, id: u32) -> Option<u32> {
    match state::first_window(ws, |w: Window| w.meta is Some && w.meta->0.x11_window_id == Some(id)) {
        Some(w) => w.meta->0.transient_for,
        None => None,
    }
}

/// Whether `target` is met going up from `current`, through windows that are
/// not in `visited`, within `depth` links.
pub open spec fn chain_reaches(
    ws: Seq<Window>,
    current: u32,
    target: u32,
    visited: Set<u32>,
    depth: nat,
) -> bool
    decreases depth,
{
    if depth == 0 {
        false
    } else {
        match parent_of(ws, current) {
            None => false,
            Some(p) => if p == target {
                true
            } else if visited.contains(p) {
                false
            } else {
                chain_reaches(ws, p, target, visited.insert(p), (depth - 1) as nat)
            },
        }
    }
}

/// Whether X11 window `id` is the focused one or transient for it, directly
/// or through others.
pub open spec fn transient_of(ws: Seq<Window>, focused: Option<u32>, id: u32) -> bool {
    match focused {
        None => false,
        Some(f) => id == f || chain_reaches(ws, id, f, set![id], TRANSIENT_DEPTH as nat),
    }
}

/// Whether `ids` holds `id`.
fn visited_before(ids: &[u32], id: u32) -> (r: bool)
    ensures
        r == ids@.contains(id),
{
    let mut i: usize = 0;
    while i < ids.len()
        invariant
            i <= ids@.len(),
            forall|j: int| 0 <= j < i ==> ids@[j] != id,
        decreases ids@.len() - i,
    {
        if ids[i] == id {
            return true;
        }
        i += 1;
    }
    false
}

/// The parent of an X11 window; see [`parent_of`].
fn find_parent(ws: &[Window], id: u32) -> (r: Option<u32>)
    ensures
        r == parent_of(ws@, id),
{
    let ghost f = |w: Window| w.meta is Some && w.meta->0.x11_window_id == Some(id);
    let mut i: usize = 0;
    while i < ws.len()
        invariant
            i <= ws@.len(),
            f == (|w: Window| w.meta is Some && w.meta->0.x11_window_id == Some(id)),
            forall|j: int| 0 <= j < i ==> !f(#[trigger] ws@[j]),
        decreases ws@.len() - i,
    {
        if let Some(meta) = ws[i].meta {
            if meta.x11_window_id == Some(id) {
                proof {
                    state::first_index_unique(ws@, f, i as int);
                }
                return meta.transient_for;
            }
        }
        i += 1;
    }
    proof {
        state::first_index_none(ws@, f);
    }
    None
}

// ---------------------------------------------------------------------------
// Promotion of transient children
// ---------------------------------------------------------------------------

/// A child of X11 window `parent` that has not been visited.
pub open spec fn eligible_child(ws: Seq<Window>, parent: u32, visited: Set<u32>, child: u64) -> bool {
    match state::by_handle(ws, child) {
        None => false,
        Some(w) => w.meta is Some && w.meta->0.transient_for == Some(parent) && (w.x11 matches Some(id)
            ==> !visited.contains(id)),
    }
}

/// The child to go on with: the first eligible one that is no dropdown, else
/// the first eligible one.
pub open spec fn preferred_child(
    ws: Seq<Window>,
    list: Seq<u64>,
    parent: u32,
    visited: Set<u32>,
) -> Option<Window>
    decreases list.len(),
{
    if list.len() == 0 {
        None
    } else {
        let before = preferred_child(ws, list.drop_last(), parent, visited);
        let child = list.last();
        if !eligible_child(ws, parent, visited, child) {
            before
        } else {
            let w = state::by_handle(ws, child)->0;
            match before {
                None => Some(w),
                Some(b) => if b.meta is Some && b.meta->0.dropdown() && !w.meta->0.dropdown() {
                    Some(w)
                } else {
                    Some(b)
                },
            }
        }
    }
}

/// The child that takes the focus in place of X11 window `current`: the
/// first that is no dropdown, looking through dropdowns at their children.
pub open spec fn promoted_child(
    ws: Seq<Window>,
    children: Map<u32, Seq<u64>>,
    current: u32,
    visited: Set<u32>,
    depth: nat,
) -> Option<Window>
    decreases depth,
{
    if depth == 0 || !children.contains_key(current) {
        None
    } else {
        match preferred_child(ws, children[current], current, visited) {
            None => None,
            Some(w) => if !w.meta->0.dropdown() {
                Some(w)
            } else {
                match w.x11 {
                    None => None,
                    Some(id) => promoted_child(ws, children, id, visited.insert(id), (depth - 1) as nat),
                }
            },
        }
    }
}

/// The window that takes the focus where `w` was picked.
pub open spec fn promoted(ws: Seq<Window>, children: Map<u32, Seq<u64>>, w: Window) -> Window {
    match w.x11 {
        None => w,
        Some(id) => match promoted_child(ws, children, id, set![id], TRANSIENT_DEPTH as nat) {
            Some(child) => child,
            None => w,
        },
    }
}

/// A preferred child is eligible, and no dropdown if any eligible child is
/// none.
pub proof fn preferred_child_is_eligible(
    ws: Seq<Window>,
    list: Seq<u64>,
    parent: u32,
    visited: Set<u32>,
)
    ensures
        preferred_child(ws, list, parent, visited) matches Some(w) ==> exists|i: int|
            0 <= i < list.len() && eligible_child(ws, parent, visited, #[trigger] list[i])
                && state::by_handle(ws, list[i]) == Some(w),
        forall|i: int|
            0 <= i < list.len() && eligible_child(ws, parent, visited, #[trigger] list[i])
                ==> preferred_child(ws, list, parent, visited) is Some && (
            !state::by_handle(ws, list[i])->0.meta->0.dropdown() ==> !preferred_child(
                ws,
                list,
                parent,
                visited,
            )->0.meta->0.dropdown()),
    decreases list.len(),
{
    if list.len() > 0 {
        let t = list.drop_last();
        preferred_child_is_eligible(ws, t, parent, visited);
        assert(forall|i: int| 0 <= i < t.len() ==> t[i] == list[i]);
        let last = list.len() - 1;
        if preferred_child(ws, t, parent, visited) is Some {
            let i = choose|i: int|
                0 <= i < t.len() && eligible_child(ws, parent, visited, #[trigger] t[i])
                    && state::by_handle(ws, t[i]) == Some(preferred_child(ws, t, parent, visited)->0);
            assert(list[i] == t[i]);
        }
        if eligible_child(ws, parent, visited, list[last]) {
            assert(state::by_handle(ws, list[last]) is Some);
        }
        assert forall|i: int|
            0 <= i < list.len() && eligible_child(ws, parent, visited, #[trigger] list[i]) implies
            preferred_child(ws, list, parent, visited) is Some && (
        !state::by_handle(ws, list[i])->0.meta->0.dropdown() ==> !preferred_child(
            ws,
            list,
            parent,
            visited,
        )->0.meta->0.dropdown()) by {
            if i < last {
                assert(t[i] == list[i]);
            }
        }
    }
}

/// The child to go on with; see [`preferred_child`].
fn pick_child(ws: &[Window], list: &[u64], parent: u32, visited: &[u32]) -> (r: Option<Window>)
    ensures
        r == preferred_child(ws@, list@, parent, visited@.to_set()),
        r matches Some(w) ==> w.meta is Some,
{
    let mut best: Option<Window> = None;
    let mut i: usize = 0;
    while i < list.len()
        invariant
            i <= list@.len(),
            best == preferred_child(ws@, list@.take(i as int), parent, visited@.to_set()),
            best matches Some(w) ==> w.meta is Some,
        decreases list@.len() - i,
    {
        proof {
            assert(list@.take(i + 1).drop_last() == list@.take(i as int));
        }
        let child = list[i];
        if let Some(k) = state::find_handle(ws, child) {
            let w = ws[k];
            let fits = match w.meta {
                Some(meta) => meta.transient_for == Some(parent) && match w.x11 {
                    Some(id) => !visited_before(visited, id),
                    None => true,
                },
                None => false,
            };
            if fits {
                let replace = match best {
                    None => true,
                    Some(b) => match (b.meta, w.meta) {
                        (Some(bm), Some(wm)) => bm.is_dropdown() && !wm.is_dropdown(),
                        _ => false,
                    },
                };
                if replace {
                    best = Some(w);
                }
            }
        }
        i += 1;
    }
    proof {
        assert(list@.take(list@.len() as int) == list@);
    }
    best
}

impl MoonshineCompositor {
    /// Whether X11 window `window_id` is the focused one or transient for it,
    /// directly or through others; see [`transient_of`].
    pub fn is_transient_of_focused(&self, window_id: u32) -> (r: bool)
        ensures
            r == transient_of(self.windows@, self.targets.focused_x11_window, window_id),
    {
        let focused = match self.targets.focused_x11_window {
            Some(id) => id,
            None => return false,
        };
        if window_id == focused {
            return true;
        }
        let mut current: u32 = window_id;
        let mut visited: Vec<u32> = Vec::new();
        visited.push(current);
        let mut left: u64 = TRANSIENT_DEPTH;
        proof {
            assert(visited@[0] == window_id);
            assert(visited@.to_set() =~= set![window_id]);
        }
        while left > 0
            invariant
                left <= TRANSIENT_DEPTH,
                self.targets.focused_x11_window == Some(focused),
                window_id != focused,
                chain_reaches(
                    self.windows@,
                    window_id,
                    focused,
                    set![window_id],
                    TRANSIENT_DEPTH as nat,
                ) == chain_reaches(self.windows@, current, focused, visited@.to_set(), left as nat),
            decreases left,
        {
            match find_parent(&self.windows, current) {
                Some(p) => {
                    if p == focused {
                        return true;
                    }
                    if visited_before(&visited, p) {
                        return false;
                    }
                    let ghost before = visited@;
                    visited.push(p);
                    proof {
                        assert(visited@.to_set() =~= before.to_set().insert(p)) by {
                            assert forall|x: u32| visited@.contains(x) implies before.contains(x) || x
                                == p by {}
                            assert forall|x: u32| before.contains(x) implies visited@.contains(x) by {
                                let k = before.index_of(x);
                                assert(visited@[k] == x);
                            }
                            assert(visited@[before.len() as int] == p);
                        }
                    }
                    current = p;
                },
                None => return false,
            }
            left -= 1;
        }
        false
    }

    /// The window that takes the focus where `window` was picked: a transient
    /// child that is no dropdown, if there is one; see [`promoted`].
    pub fn promote_transient_child(&self, window: Window) -> (r: Window)
        ensures
            r == promoted(self.windows@, self.children(), window),
    {
        let start = match window.x11 {
            Some(id) => id,
            None => return window,
        };
        let mut current: u32 = start;
        let mut visited: Vec<u32> = Vec::new();
        visited.push(current);
        let mut left: u64 = TRANSIENT_DEPTH;
        proof {
            assert(visited@[0] == start);
            assert(visited@.to_set() =~= set![start]);
        }
        while left > 0
            invariant
                left <= TRANSIENT_DEPTH,
                promoted_child(
                    self.windows@,
                    self.children(),
                    start,
                    set![start],
                    TRANSIENT_DEPTH as nat,
                ) == promoted_child(
                    self.windows@,
                    self.children(),
                    current,
                    visited@.to_set(),
                    left as nat,
                ),
                window.x11 == Some(start),
            decreases left,
        {
            let child = match self.transient_children.get(&current) {
                Some(list) => pick_child(&self.windows, list, current, &visited),
                None => None,
            };
            let w = match child {
                Some(w) => w,
                None => return window,
            };
            if let Some(meta) = w.meta {
                if !meta.is_dropdown() {
                    return w;
                }
            }
            match w.x11 {
                Some(id) => {
                    let ghost before = visited@;
                    visited.push(id);
                    proof {
                        assert(visited@.to_set() =~= before.to_set().insert(id)) by {
                            assert forall|x: u32| before.contains(x) implies visited@.contains(x) by {
                                let k = before.index_of(x);
                                assert(visited@[k] == x);
                            }
                            assert(visited@[before.len() as int] == id);
                        }
                    }
                    current = id;
                },
                None => return window,
            }
            left -= 1;
        }
        window
    }
}

// ---------------------------------------------------------------------------
// Live properties
// ---------------------------------------------------------------------------

/// What was just read of an X11 window.
#[derive(Clone, Copy, Debug, PartialEq, Eq, Structural)]
pub struct WindowReading {
    /// The X11 window.
    pub window: u32,
    /// `STEAM_INPUT_FOCUS`.
    pub input_focus_mode: u32,
    /// `_NET_WM_PID`, 0 when unset.
    pub pid: u32,
    /// The app id found for that process, or 0.
    pub app_id: u32,
}

/// What was just read from the X server.
pub struct X11Live {
    /// What was read of each window.
    pub readings: Vec<WindowReading>,
    /// What Steam asks for.
    pub control: Option<FocusControl>,
}

/// What was read of X11 window `id`; all 0 where nothing was.
pub open spec fn reading_of(readings: Seq<WindowReading>, id: u32) -> WindowReading
    decreases readings.len(),
{
    if readings.len() == 0 {
        WindowReading { window: id, input_focus_mode: 0, pid: 0, app_id: 0 }
    } else if readings[0].window == id {
        readings[0]
    } else {
        reading_of(readings.skip(1), id)
    }
}

/// The window with what was just read: an overlay takes the input focus mode,
/// a window without an app id takes the one of its process.
pub open spec fn refreshed(w: Window, readings: Seq<WindowReading>) -> Window {
    match (w.meta, w.x11) {
        (Some(meta), Some(id)) => {
            let r = reading_of(readings, id);
            Window {
                meta: Some(
                    WindowMetadata {
                        input_focus_mode: if meta.flags.has_all(OVERLAY) {
                            r.input_focus_mode
                        } else {
                            meta.input_focus_mode
                        },
                        app_id: if meta.app_id == 0 && r.pid != 0 { r.app_id } else { meta.app_id },
                        ..meta
                    },
                ),
                ..w
            }
        },
        _ => w,
    }
}

/// What was read of X11 window `id`; see [`reading_of`].
pub fn find_reading(readings: &[WindowReading], id: u32) -> (r: WindowReading)
    ensures
        r == reading_of(readings@, id),
{
    let mut i: usize = 0;
    proof {
        assert(readings@.skip(0) == readings@);
    }
    while i < readings.len()
        invariant
            i <= readings@.len(),
            reading_of(readings@, id) == reading_of(readings@.skip(i as int), id),
        decreases readings@.len() - i,
    {
        if readings[i].window == id {
            return readings[i];
        }
        proof {
            assert(readings@.skip(i as int).skip(1) == readings@.skip(i + 1));
        }
        i += 1;
    }
    WindowReading { window: id, input_focus_mode: 0, pid: 0, app_id: 0 }
}

/// The window with what was just read; see [`refreshed`].
fn refresh_window(w: &Window, readings: &[WindowReading]) -> (r: Window)
    ensures
        r == refreshed(*w, readings@),
{
    match (w.meta, w.x11) {
        (Some(meta), Some(id)) => {
            let r = find_reading(readings, id);
            let input_focus_mode: u32 = if meta.flags.contains(OVERLAY) {
                r.input_focus_mode
            } else {
                meta.input_focus_mode
            };
            let app_id: u32 = if meta.app_id == 0 && r.pid != 0 {
                r.app_id
            } else {
                meta.app_id
            };
            let meta = WindowMetadata { input_focus_mode, app_id, ..meta };
            Window { meta: Some(meta), ..*w }
        },
        _ => *w,
    }
}

impl MoonshineCompositor {
    /// The windows with what was just read of them; see [`refreshed`].
    pub open spec fn refreshed_windows(self, live: Option<&X11Live>) -> Seq<Window> {
        match live {
            None => self.windows@,
            Some(x) => self.windows@.map_values(|w: Window| refreshed(w, x.readings@)),
        }
    }

    /// Takes over what was just read of all windows; without an X server
    /// nothing changes.
    pub fn refresh_metadata(&mut self, live: Option<&X11Live>)
        ensures
            final(self).windows@ == old(self).refreshed_windows(live),
            *final(self) == (MoonshineCompositor { windows: final(self).windows, ..*old(self) }),
    {
        let x = match live {
            Some(x) => x,
            None => return ,
        };
        let ghost before = self.windows@;
        let mut i: usize = 0;
        while i < self.windows.len()
            invariant
                i <= self.windows@.len(),
                self.windows@.len() == before.len(),
                *self == (MoonshineCompositor { windows: self.windows, ..*old(self) }),
                forall|j: int| 0 <= j < i ==> self.windows@[j] == refreshed(before[j], x.readings@),
                forall|j: int| i <= j < before.len() ==> self.windows@[j] == before[j],
            decreases before.len() - i,
        {
            let w = refresh_window(&self.windows[i], &x.readings);
            self.windows.set(i, w);
            i += 1;
        }
        proof {
            assert(self.windows@ =~= before.map_values(|w: Window| refreshed(w, x.readings@)));
        }
    }

    /// Picks the overlay, notification and external overlay windows anew; see
    /// [`policy::classified`].
    pub fn classify_special_windows(&mut self)
        ensures
            *final(self) == (MoonshineCompositor {
                targets: policy::classified(old(self).targets, old(self).windows@),
                ..*old(self)
            }),
    {
        let overlay = policy::pick_flagged(&self.windows, OVERLAY);
        let notification = policy::pick_flagged(&self.windows, focus::NOTIFICATION);
        let external = policy::pick_flagged(&self.windows, focus::EXTERNAL_OVERLAY);
        let changed = overlay != self.targets.overlay_window || notification
            != self.targets.notification_window || external != self.targets.external_overlay_window;
        self.targets.overlay_window = overlay;
        self.targets.notification_window = notification;
        self.targets.external_overlay_window = external;
        if changed {
            self.targets.focus_state.mark_dirty();
        }
    }
}

// ---------------------------------------------------------------------------
// Applying focus
// ---------------------------------------------------------------------------

/// Something to be carried out on the seat, on a window or on the X server.
#[derive(Clone, Copy, Debug, PartialEq, Eq, Structural)]
pub enum FocusAction {
    /// Tell Steam which app has the focus.
    SetFocusedApp { app_id: u32 },
    /// Tell Steam that no app has the focus.
    ClearFocusedApp,
    /// Tell Steam the apps that can be focused.
    PublishFocusableApps,
    /// Tell Steam that there is no such app.
    ClearFocusableApps,
    /// Tell Steam the windows that can be focused.
    PublishFocusableWindows,
    /// Tell Steam that there is no such window.
    ClearFocusableWindows,
    /// Take the keyboard from the window that has it.
    ClearKeyboardFocus,
    /// Dismiss dropdowns.
    ClearDropdowns,
    /// Mark a toplevel as not active.
    Deactivate { window: u64 },
    /// Mark a toplevel as active.
    Activate { window: u64 },
    /// Give a window the keyboard.
    KeyboardFocus { window: u64 },
    /// Set the X11 input focus.
    InputFocus { x11_window: u32 },
    /// Send a first pointer motion to a surface.
    PointerFocus { window: u64, surface: u64 },
}

/// The overlay, if it asks for input.
pub open spec fn input_overlay(targets: FocusTargets, ws: Seq<Window>) -> Option<Window> {
    match targets.overlay_window {
        None => None,
        Some(handle) => match state::by_handle(ws, handle) {
            Some(w) if w.meta is Some && w.meta->0.input_focus_mode != 0 => Some(w),
            _ => None,
        },
    }
}

/// The window that the pointer goes to: an overlay that asks for input, else
/// the focused one.
pub open spec fn pointer_target(targets: FocusTargets, ws: Seq<Window>, best: Window) -> Window {
    match input_overlay(targets, ws) {
        Some(overlay) => overlay,
        None => best,
    }
}

/// The window that the keyboard goes to: an overlay that asks for input,
/// unless it asks for the pointer alone; else the focused one.
pub open spec fn keyboard_target(targets: FocusTargets, ws: Seq<Window>, best: Window) -> Window {
    match input_overlay(targets, ws) {
        Some(overlay) if overlay.meta->0.input_focus_mode != 2 => overlay,
        _ => best,
    }
}

/// The surface that the focused window shows now; one that has left the stack
/// shows what it last showed.
pub open spec fn focused_surface(targets: FocusTargets, ws: Seq<Window>) -> Option<u64> {
    match targets.focused_window {
        Some(was) => match state::by_handle(ws, was.handle) {
            Some(w) => w.surface,
            None => was.surface,
        },
        None => None,
    }
}

/// Whether giving `best` the focus changes it.
pub open spec fn focus_changes(targets: FocusTargets, ws: Seq<Window>, best: Window) -> bool {
    targets.focused_x11_window != best.x11 || focused_surface(targets, ws) != best.surface
}

/// The targets after `best` got the focus.
pub open spec fn applied(targets: FocusTargets, ws: Seq<Window>, best: Window) -> FocusTargets {
    let keyboard = keyboard_target(targets, ws, best);
    FocusTargets {
        focused_x11_window: best.x11,
        focused_window: Some(best),
        pointer_focus_window: Some(pointer_target(targets, ws, best).handle),
        override_window: if focus_changes(targets, ws, best) { None } else { targets.override_window },
        last_keyboard_focus_window: if targets.focused_x11_window != best.x11 && keyboard.x11 is Some {
            keyboard.x11
        } else {
            targets.last_keyboard_focus_window
        },
        focus_state: FocusState { dirty: false, ..targets.focus_state },
        ..targets
    }
}

/// An action that is taken only if `c`.
pub open spec fn only_if(c: bool, a: FocusAction) -> Seq<FocusAction> {
    if c {
        seq![a]
    } else {
        Seq::empty()
    }
}

/// What tells Steam the focused app.
pub open spec fn focused_app_action(best: Window) -> FocusAction {
    if best.meta is Some && best.meta->0.app_id != 0 {
        FocusAction::SetFocusedApp { app_id: best.meta->0.app_id }
    } else {
        FocusAction::ClearFocusedApp
    }
}

/// What carries out the focus of `best`, in order.
pub open spec fn apply_actions(
    targets: FocusTargets,
    ws: Seq<Window>,
    best: Window,
    x11: bool,
) -> Seq<FocusAction> {
    let keyboard = keyboard_target(targets, ws, best);
    let pointer = pointer_target(targets, ws, best);
    let was = targets.focused_window;
    only_if(x11, focused_app_action(best)) + only_if(
        focus_changes(targets, ws, best),
        FocusAction::ClearDropdowns,
    ) + only_if(
        was is Some && was->0.toplevel && was->0.handle != best.handle,
        FocusAction::Deactivate { window: was->0.handle },
    ) + only_if(best.toplevel, FocusAction::Activate { window: best.handle }) + seq![
        FocusAction::KeyboardFocus { window: keyboard.handle },
    ] + only_if(
        x11 && keyboard.x11 is Some,
        FocusAction::InputFocus { x11_window: keyboard.x11->0 },
    ) + only_if(
        pointer.surface is Some,
        FocusAction::PointerFocus { window: pointer.handle, surface: pointer.surface->0 },
    )
}

/// The overlay, if it asks for input; see [`input_overlay`].
fn find_input_overlay(targets: &FocusTargets, ws: &[Window]) -> (r: Option<Window>)
    ensures
        r == input_overlay(*targets, ws@),
{
    let handle = match targets.overlay_window {
        Some(handle) => handle,
        None => return None,
    };
    match state::find_handle(ws, handle) {
        Some(i) => {
            let w = ws[i];
            match w.meta {
                Some(meta) => if meta.input_focus_mode != 0 {
                    Some(w)
                } else {
                    None
                },
                None => None,
            }
        },
        None => None,
    }
}

/// The windows that pointer and keyboard go to.
fn find_targets(targets: &FocusTargets, ws: &[Window], best: &Window) -> (r: (Window, Window))
    ensures
        r.0 == pointer_target(*targets, ws@, *best),
        r.1 == keyboard_target(*targets, ws@, *best),
{
    match find_input_overlay(targets, ws) {
        Some(w) => match w.meta {
            Some(meta) => if meta.input_focus_mode == 2 {
                (w, *best)
            } else {
                (w, w)
            },
            None => (w, *best),
        },
        None => (*best, *best),
    }
}

/// Whether giving `best` the focus changes it; see [`focus_changes`].
fn changes_focus(targets: &FocusTargets, ws: &[Window], best: &Window) -> (r: bool)
    ensures
        r == focus_changes(*targets, ws@, *best),
{
    let was_surface = match targets.focused_window {
        Some(was) => match state::find_handle(ws, was.handle) {
            Some(i) => ws[i].surface,
            None => was.surface,
        },
        None => None,
    };
    targets.focused_x11_window != best.x11 || was_surface != best.surface
}

/// Adds an action if `c`.
fn push_if(actions: &mut Vec<FocusAction>, c: bool, a: FocusAction)
    ensures
        final(actions)@ == old(actions)@ + only_if(c, a),
{
    if c {
        actions.push(a);
    }
    proof {
        assert(actions@ =~= old(actions)@ + only_if(c, a));
    }
}

/// What carries out the focus of `best`; see [`apply_actions`].
fn focus_actions(targets: &FocusTargets, ws: &[Window], best: &Window, x11: bool) -> (actions: Vec<
    FocusAction,
>)
    ensures
        actions@ == apply_actions(*targets, ws@, *best, x11),
{
    let (pointer, keyboard) = find_targets(targets, ws, best);
    let app_id = match best.meta {
        Some(meta) => meta.app_id,
        None => 0,
    };
    let app_action = if app_id != 0 {
        FocusAction::SetFocusedApp { app_id }
    } else {
        FocusAction::ClearFocusedApp
    };
    let mut actions: Vec<FocusAction> = Vec::new();
    push_if(&mut actions, x11, app_action);
    proof {
        assert(actions@ =~= only_if(x11, focused_app_action(*best)));
    }
    push_if(&mut actions, changes_focus(targets, ws, best), FocusAction::ClearDropdowns);
    if let Some(w) = targets.focused_window {
        push_if(
            &mut actions,
            w.toplevel && w.handle != best.handle,
            FocusAction::Deactivate { window: w.handle },
        );
    } else {
        proof {
            assert(actions@ + Seq::<FocusAction>::empty() =~= actions@);
        }
    }
    push_if(&mut actions, best.toplevel, FocusAction::Activate { window: best.handle });
    push_if(&mut actions, true, FocusAction::KeyboardFocus { window: keyboard.handle });
    if let Some(id) = keyboard.x11 {
        push_if(&mut actions, x11, FocusAction::InputFocus { x11_window: id });
    } else {
        proof {
            assert(actions@ + Seq::<FocusAction>::empty() =~= actions@);
        }
    }
    if let Some(surface) = pointer.surface {
        push_if(&mut actions, true, FocusAction::PointerFocus { window: pointer.handle, surface });
    } else {
        proof {
            assert(actions@ + Seq::<FocusAction>::empty() =~= actions@);
        }
    }
    actions
}

impl MoonshineCompositor {
    /// Gives `best` the focus; see [`applied`] and [`apply_actions`]. `x11`
    /// says whether there is an X server.
    pub fn apply_focus(&mut self, best: Window, x11: bool) -> (actions: Vec<FocusAction>)
        ensures
            actions@ == apply_actions(old(self).targets, old(self).windows@, best, x11),
            *final(self) == (MoonshineCompositor {
                targets: applied(old(self).targets, old(self).windows@, best),
                ..*old(self)
            }),
    {
        let actions = focus_actions(&self.targets, &self.windows, &best, x11);
        let (pointer, keyboard) = find_targets(&self.targets, &self.windows, &best);
        let mut targets = self.targets;
        if changes_focus(&self.targets, &self.windows, &best) {
            targets.override_window = None;
        }
        if targets.focused_x11_window != best.x11 && keyboard.x11.is_some() {
            targets.last_keyboard_focus_window = keyboard.x11;
        }
        targets.focused_x11_window = best.x11;
        targets.focused_window = Some(best);
        targets.pointer_focus_window = Some(pointer.handle);
        targets.focus_state.apply();
        self.targets = targets;
        actions
    }
}

/// After focus was applied, the focused window is the one that was picked,
/// the keyboard goes where the pointer goes unless the overlay asks for the
/// pointer alone, and focus is clean.
pub proof fn applied_focus_is_set(targets: FocusTargets, ws: Seq<Window>, best: Window, x11: bool)
    ensures
        applied(targets, ws, best).focused_window == Some(best),
        applied(targets, ws, best).focused_x11_window == best.x11,
        !applied(targets, ws, best).focus_state.dirty,
        keyboard_target(targets, ws, best) == pointer_target(targets, ws, best) || keyboard_target(
            targets,
            ws,
            best,
        ) == best,
        apply_actions(targets, ws, best, x11).contains(
            FocusAction::KeyboardFocus { window: keyboard_target(targets, ws, best).handle },
        ),
{
    let a = only_if(x11, focused_app_action(best)) + only_if(
        focus_changes(targets, ws, best),
        FocusAction::ClearDropdowns,
    ) + only_if(
        targets.focused_window is Some && targets.focused_window->0.toplevel
            && targets.focused_window->0.handle != best.handle,
        FocusAction::Deactivate { window: targets.focused_window->0.handle },
    ) + only_if(best.toplevel, FocusAction::Activate { window: best.handle });
    assert(apply_actions(targets, ws, best, x11)[a.len() as int] == (FocusAction::KeyboardFocus {
        window: keyboard_target(targets, ws, best).handle,
    }));
}

/// A window that keeps the focus keeps its dropdown, also where it came to a
/// surface only after it got the focus.
pub proof fn kept_focus_keeps_dropdown(targets: FocusTargets, ws: Seq<Window>, best: Window, x11: bool)
    requires
        targets.focused_window matches Some(was) && was.handle == best.handle,
        targets.focused_x11_window == best.x11,
        state::by_handle(ws, best.handle) == Some(best),
    ensures
        applied(targets, ws, best).override_window == targets.override_window,
        !apply_actions(targets, ws, best, x11).contains(FocusAction::ClearDropdowns),
{
}

/// The parent of an X11 window is the one that the first registered window of
/// this id is transient for.
pub proof fn parent_is_registered(ws: Seq<Window>, id: u32)
    ensures
        match parent_of(ws, id) {
            Some(p) => exists|i: int|
                0 <= i < ws.len() && ((#[trigger] ws[i]).meta matches Some(m) && m.x11_window_id == Some(id)
                    && m.transient_for == Some(p)),
            None => forall|i: int|
                0 <= i < ws.len() && ((#[trigger] ws[i]).meta matches Some(m) && m.x11_window_id == Some(id)
                    && m.transient_for is Some) ==> exists|j: int|
                    0 <= j < i && ((#[trigger] ws[j]).meta matches Some(m) && m.x11_window_id == Some(id)),
        },
{
    let f = |w: Window| w.meta is Some && w.meta->0.x11_window_id == Some(id);
    state::first_index_is_first(ws, f);
    if let Some(i) = state::first_index(ws, f) {
        assert(f(ws[i]));
        assert forall|k: int|
            0 <= k < ws.len() && ((#[trigger] ws[k]).meta matches Some(m) && m.x11_window_id == Some(id)) implies k
            >= i by {
            assert(f(ws[k]));
            if k < i {
                assert(!f(ws[k]));
            }
        }
    } else {
        assert forall|k: int| 0 <= k < ws.len() implies !((#[trigger] ws[k]).meta matches Some(m)
            && m.x11_window_id == Some(id)) by {
            assert(!f(ws[k]));
        }
    }
}

/// A window belongs to the focused one if it is that window, a child of it, or
/// a child of a child of it; a window without a parent belongs to no other,
/// and no window does where none is focused.
pub proof fn children_belong_to_the_focused_window(ws: Seq<Window>, focused: u32, id: u32)
    ensures
        !transient_of(ws, None, id),
        transient_of(ws, Some(focused), focused),
        parent_of(ws, id) == Some(focused) ==> transient_of(ws, Some(focused), id),
        parent_of(ws, id) is None && id != focused ==> !transient_of(ws, Some(focused), id),
        parent_of(ws, id) matches Some(p) && p != id && p != focused && parent_of(ws, p) == Some(focused)
            ==> transient_of(ws, Some(focused), id),
        parent_of(ws, id) == Some(id) && id != focused ==> !transient_of(ws, Some(focused), id),
{
    reveal_with_fuel(chain_reaches, 3);
}

/// The window that takes the focus is the one that was picked, or one of the
/// windows on the stack that has a parent and is no dropdown. A window without
/// children keeps it; one with a child that is no dropdown gives it to such a
/// child.
pub proof fn dialogs_take_the_focus(ws: Seq<Window>, children: Map<u32, Seq<u64>>, w: Window)
    ensures
        promoted(ws, children, w) == w || (ws.contains(promoted(ws, children, w)) && (promoted(
            ws,
            children,
            w,
        ).meta matches Some(m) && m.transient_for is Some && !m.dropdown())),
        w.x11 is None ==> promoted(ws, children, w) == w,
        w.x11 matches Some(id) && !children.contains_key(id) ==> promoted(ws, children, w) == w,
        w.x11 matches Some(id) ==> (children.contains_key(id) ==> forall|i: int|
            0 <= i < children[id].len() && (state::by_handle(ws, #[trigger] children[id][i]) matches Some(c)
                && c.x11 != Some(id) && (c.meta matches Some(m) && m.transient_for == Some(id)
                && !m.dropdown())) ==> (promoted(ws, children, w).meta matches Some(m) && m.transient_for
                == Some(id) && !m.dropdown() && promoted(ws, children, w).x11 != Some(id))),
{
    if let Some(id) = w.x11 {
        promoted_child_is_a_dialog(ws, children, id, set![id], TRANSIENT_DEPTH as nat);
        if children.contains_key(id) {
            let list = children[id];
            preferred_child_is_eligible(ws, list, id, set![id]);
            assert forall|i: int|
                0 <= i < list.len() && (state::by_handle(ws, #[trigger] list[i]) matches Some(c) && c.x11
                    != Some(id) && (c.meta matches Some(m) && m.transient_for == Some(id) && !m.dropdown())) implies (
            promoted(ws, children, w).meta matches Some(m) && m.transient_for == Some(id) && !m.dropdown()
                && promoted(ws, children, w).x11 != Some(id)) by {
                assert(eligible_child(ws, id, set![id], list[i]));
                let p = preferred_child(ws, list, id, set![id])->0;
                assert(!p.meta->0.dropdown());
                assert(promoted(ws, children, w) == p);
            }
        }
    }
}

/// A child that takes the focus is on the stack, has a parent and is no
/// dropdown.
proof fn promoted_child_is_a_dialog(
    ws: Seq<Window>,
    children: Map<u32, Seq<u64>>,
    current: u32,
    visited: Set<u32>,
    depth: nat,
)
    ensures
        promoted_child(ws, children, current, visited, depth) matches Some(c) ==> ws.contains(c) && (
        c.meta matches Some(m) && m.transient_for is Some && !m.dropdown()),
    decreases depth,
{
    if depth > 0 && children.contains_key(current) {
        let list = children[current];
        preferred_child_is_eligible(ws, list, current, visited);
        if let Some(w) = preferred_child(ws, list, current, visited) {
            let i = choose|i: int|
                0 <= i < list.len() && eligible_child(ws, current, visited, #[trigger] list[i])
                    && state::by_handle(ws, list[i]) == Some(w);
            state::windows_are_found(ws, list[i], 0);
            if let Some(id) = w.x11 {
                promoted_child_is_a_dialog(ws, children, id, visited.insert(id), (depth - 1) as nat);
            }
        }
    }
}

/// What was just read changes little: an app id is only given to a window that
/// has none, and only where its process is known; the mode of input is only
/// taken over for an overlay; nothing else changes.
pub proof fn readings_change_little(w: Window, m: WindowMetadata, id: u32, readings: Seq<WindowReading>)
    requires
        w.meta == Some(m),
        w.x11 == Some(id),
    ensures
        ({
            let r = reading_of(readings, id);
            refreshed(w, readings) == (Window {
                meta: Some(
                    WindowMetadata {
                        app_id: if m.app_id != 0 || r.pid == 0 {
                            m.app_id
                        } else {
                            r.app_id
                        },
                        input_focus_mode: if m.flags.bits & 1 != 0 {
                            r.input_focus_mode
                        } else {
                            m.input_focus_mode
                        },
                        ..m
                    },
                ),
                ..w
            })
        }),
{
    let bits = m.flags.bits;
    assert(bits & 1 == 0 || bits & 1 == 1) by (bit_vector);
}

/// A window that is not registered, or no X11 one, is as it was.
pub proof fn other_windows_are_not_read(w: Window, readings: Seq<WindowReading>)
    requires
        w.meta is None || w.x11 is None,
    ensures
        refreshed(w, readings) == w,
{
}

/// The first reading of a window counts.
pub proof fn first_reading_counts(readings: Seq<WindowReading>, id: u32, i: int)
    requires
        0 <= i < readings.len(),
        readings[i].window == id,
        forall|j: int| 0 <= j < i ==> (#[trigger] readings[j]).window != id,
    ensures
        reading_of(readings, id) == readings[i],
    decreases readings.len(),
{
    if i > 0 {
        let rest = readings.skip(1);
        assert(readings[0].window != id);
        assert forall|j: int| 0 <= j < i - 1 implies (#[trigger] rest[j]).window != id by {
            assert(readings[j + 1].window != id);
        }
        first_reading_counts(rest, id, i - 1);
    }
}

/// Keyboard and pointer go to the focused window, unless the overlay asks for
/// input: then the pointer goes to the overlay, and the keyboard too unless
/// the overlay asks for the pointer alone.
pub proof fn input_goes_where_it_is_asked_for(targets: FocusTargets, ws: Seq<Window>, best: Window, overlay: Window)
    ensures
        targets.overlay_window is None ==> pointer_target(targets, ws, best) == best && keyboard_target(
            targets,
            ws,
            best,
        ) == best,
        targets.overlay_window matches Some(h) && state::by_handle(ws, h) == Some(overlay) && (
        overlay.meta matches Some(m) && m.input_focus_mode == 0) ==> pointer_target(targets, ws, best) == best
            && keyboard_target(targets, ws, best) == best,
        targets.overlay_window matches Some(h) && state::by_handle(ws, h) == Some(overlay) && (
        overlay.meta matches Some(m) && m.input_focus_mode == 2) ==> pointer_target(targets, ws, best)
            == overlay && keyboard_target(targets, ws, best) == best,
        targets.overlay_window matches Some(h) && state::by_handle(ws, h) == Some(overlay) && (
        overlay.meta matches Some(m) && m.input_focus_mode != 0 && m.input_focus_mode != 2)
            ==> pointer_target(targets, ws, best) == overlay && keyboard_target(targets, ws, best) == overlay,
{
}

/// What is carried out for the focus of a window, action by action: the
/// keyboard is given in any case; the window is marked as active if it is a
/// toplevel, and the one before it as not active if it was another toplevel;
/// the X11 focus is set if the keyboard goes to an X11 window; the pointer is
/// moved to a surface where there is one; Steam is told the app; and dropdowns
/// go only if the focus changes.
pub proof fn focus_is_carried_out(targets: FocusTargets, ws: Seq<Window>, best: Window, x11: bool, a: FocusAction)
    ensures
        apply_actions(targets, ws, best, x11).contains(a) <==> match a {
            FocusAction::KeyboardFocus { window } => window == keyboard_target(targets, ws, best).handle,
            FocusAction::Activate { window } => best.toplevel && window == best.handle,
            FocusAction::Deactivate { window } => targets.focused_window matches Some(was) && was.toplevel
                && was.handle != best.handle && window == was.handle,
            FocusAction::InputFocus { x11_window } => x11 && keyboard_target(targets, ws, best).x11 == Some(
                x11_window,
            ),
            FocusAction::PointerFocus { window, surface } => {
                let p = pointer_target(targets, ws, best);
                p.handle == window && p.surface == Some(surface)
            },
            FocusAction::SetFocusedApp { app_id } => x11 && app_id != 0 && (best.meta matches Some(m)
                && m.app_id == app_id),
            FocusAction::ClearFocusedApp => x11 && !(best.meta matches Some(m) && m.app_id != 0),
            FocusAction::ClearDropdowns => targets.focused_x11_window != best.x11 || focused_surface(
                targets,
                ws,
            ) != best.surface,
            _ => false,
        },
{
    let keyboard = keyboard_target(targets, ws, best);
    let pointer = pointer_target(targets, ws, best);
    let was = targets.focused_window;
    let p1 = only_if(x11, focused_app_action(best));
    let p2 = only_if(focus_changes(targets, ws, best), FocusAction::ClearDropdowns);
    let p3 = only_if(
        was is Some && was->0.toplevel && was->0.handle != best.handle,
        FocusAction::Deactivate { window: was->0.handle },
    );
    let p4 = only_if(best.toplevel, FocusAction::Activate { window: best.handle });
    let p5 = seq![FocusAction::KeyboardFocus { window: keyboard.handle }];
    let p6 = only_if(
        x11 && keyboard.x11 is Some,
        FocusAction::InputFocus { x11_window: keyboard.x11->0 },
    );
    let p7 = only_if(
        pointer.surface is Some,
        FocusAction::PointerFocus { window: pointer.handle, surface: pointer.surface->0 },
    );
    in_either(p1, p2, a);
    in_either(p1 + p2, p3, a);
    in_either(p1 + p2 + p3, p4, a);
    in_either(p1 + p2 + p3 + p4, p5, a);
    in_either(p1 + p2 + p3 + p4 + p5, p6, a);
    in_either(p1 + p2 + p3 + p4 + p5 + p6, p7, a);
    one_or_none(x11, focused_app_action(best), a);
    one_or_none(focus_changes(targets, ws, best), FocusAction::ClearDropdowns, a);
    one_or_none(
        was is Some && was->0.toplevel && was->0.handle != best.handle,
        FocusAction::Deactivate { window: was->0.handle },
        a,
    );
    one_or_none(best.toplevel, FocusAction::Activate { window: best.handle }, a);
    one_or_none(true, FocusAction::KeyboardFocus { window: keyboard.handle }, a);
    one_or_none(
        x11 && keyboard.x11 is Some,
        FocusAction::InputFocus { x11_window: keyboard.x11->0 },
        a,
    );
    one_or_none(
        pointer.surface is Some,
        FocusAction::PointerFocus { window: pointer.handle, surface: pointer.surface->0 },
        a,
    );
}

/// An action is in two lists together if it is in one of them.
proof fn in_either(x: Seq<FocusAction>, y: Seq<FocusAction>, a: FocusAction)
    ensures
        (x + y).contains(a) == (x.contains(a) || y.contains(a)),
{
    if x.contains(a) {
        let k = choose|k: int| 0 <= k < x.len() && x[k] == a;
        assert((x + y)[k] == a);
    }
    if y.contains(a) {
        let k = choose|k: int| 0 <= k < y.len() && y[k] == a;
        assert((x + y)[x.len() + k] == a);
    }
    if (x + y).contains(a) {
        let k = choose|k: int| 0 <= k < (x + y).len() && (x + y)[k] == a;
        if k < x.len() {
            assert(x[k] == a);
        } else {
            assert(y[k - x.len()] == a);
        }
    }
}

/// An action that is taken only on a condition.
proof fn one_or_none(c: bool, a: FocusAction, other: FocusAction)
    ensures
        only_if(c, a).contains(other) == (c && a == other),
{
    if c {
        assert(only_if(c, a)[0] == a);
    }
}

/// The focus of a window is remembered: the window, its X11 id, the window that
/// has the pointer, and the last X11 window that got the keyboard where the X11
/// focus changed; the override window goes only if the focus changes.
pub proof fn focus_is_remembered(targets: FocusTargets, ws: Seq<Window>, best: Window)
    ensures
        ({
            let after = applied(targets, ws, best);
            let keyboard = keyboard_target(targets, ws, best);
            let same = targets.focused_x11_window == best.x11 && focused_surface(targets, ws)
                == best.surface;
            &&& after.focused_window == Some(best)
            &&& after.focused_x11_window == best.x11
            &&& after.pointer_focus_window == Some(pointer_target(targets, ws, best).handle)
            &&& same ==> after.override_window == targets.override_window
            &&& !same ==> after.override_window is None
            &&& targets.focused_x11_window != best.x11 && keyboard.x11 is Some
                ==> after.last_keyboard_focus_window == keyboard.x11
            &&& targets.focused_x11_window == best.x11 || keyboard.x11 is None
                ==> after.last_keyboard_focus_window == targets.last_keyboard_focus_window
            &&& !after.focus_state.dirty
            &&& after.focus_state.requested_focus == targets.focus_state.requested_focus
            &&& after.overlay_window == targets.overlay_window
            &&& after.notification_window == targets.notification_window
            &&& after.external_overlay_window == targets.external_overlay_window
        }),
{
}

/// The surface that has the focus is that of the focused window as it is now,
/// or as it was where the window is gone.
pub proof fn focused_surface_is_the_present_one(targets: FocusTargets, ws: Seq<Window>, was: Window)
    ensures
        targets.focused_window is None ==> focused_surface(targets, ws) is None,
        targets.focused_window == Some(was) ==> {
            &&& state::by_handle(ws, was.handle) is None ==> focused_surface(targets, ws) == was.surface
            &&& state::by_handle(ws, was.handle) matches Some(w) ==> focused_surface(targets, ws)
                == w.surface
        },
{
}

} // verus!
