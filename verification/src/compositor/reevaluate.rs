//! Deciding focus anew after something changed.
use vstd::prelude::*;

use crate::compositor::focus::FocusState;
use crate::compositor::policy;
use crate::compositor::refocus;
use crate::compositor::refocus::{FocusAction, WindowReading, X11Live};
use crate::compositor::state;
use crate::compositor::state::{FocusTargets, MoonshineCompositor, Window};

verus! {

/// What a new decision on focus calls for.
pub struct FocusOutcome {
    /// The apps that can be focused.
    pub apps: Vec<u32>,
    /// The windows that can be focused: window, app id and process id.
    pub windows: Vec<(u32, u32, u32)>,
    /// What to carry out, in order.
    pub actions: Vec<FocusAction>,
}

/// The app ids of the candidates, in order, without 0.
pub open spec fn focusable_apps(cands: Seq<Window>) -> Seq<u32>
    decreases cands.len(),
{
    if cands.len() == 0 {
        Seq::empty()
    } else {
        let before = focusable_apps(cands.drop_last());
        match cands.last().meta {
            Some(meta) if meta.app_id != 0 => before.push(meta.app_id),
            _ => before,
        }
    }
}

/// The X11 candidates, in order, with app id and process id.
pub open spec fn focusable_windows(cands: Seq<Window>, readings: Seq<WindowReading>) -> Seq<(
    u32,
    u32,
    u32,
)>
    decreases cands.len(),
{
    if cands.len() == 0 {
        Seq::empty()
    } else {
        let before = focusable_windows(cands.drop_last(), readings);
        let w = cands.last();
        match (w.x11, w.meta) {
            (Some(id), Some(meta)) => before.push(
                (
                    id,
                    meta.app_id,
                    if meta.x11_window_id is Some {
                        refocus::reading_of(readings, id).pid
                    } else {
                        0
                    },
                ),
            ),
            _ => before,
        }
    }
}

/// What tells Steam what can be focused.
pub open spec fn publish_actions(apps: Seq<u32>, windows: Seq<(u32, u32, u32)>) -> Seq<FocusAction> {
    seq![
        if apps.len() > 0 {
            FocusAction::PublishFocusableApps
        } else {
            FocusAction::ClearFocusableApps
        },
        if windows.len() > 0 {
            FocusAction::PublishFocusableWindows
        } else {
            FocusAction::ClearFocusableWindows
        },
    ]
}

/// What Steam asks for, as just read.
pub open spec fn live_control(live: Option<&X11Live>) -> Option<(Option<u32>, Seq<u32>)> {
    match live {
        Some(x) => match x.control {
            Some(c) => Some((c.window, c.app_ids@)),
            None => None,
        },
        None => None,
    }
}

/// The window that gets the focus, before its children are considered: the
/// one asked for explicitly, else the one of the highest rank.
pub open spec fn picked(
    cands: Seq<Window>,
    requested: Option<u32>,
    control: Option<(Option<u32>, Seq<u32>)>,
) -> Option<Window> {
    match policy::explicit_pick(cands, requested, control) {
        Some(w) => Some(w),
        None => policy::top_ranked(cands),
    }
}

/// The targets when focus is about to be decided: dirty, with the special
/// windows picked anew.
pub open spec fn before_decision(targets: FocusTargets, ws: Seq<Window>) -> FocusTargets {
    policy::classified(
        FocusTargets {
            focus_state: FocusState { dirty: true, ..targets.focus_state },
            ..targets
        },
        ws,
    )
}

/// The targets after a decision among windows `ws`.
pub open spec fn decided_targets(
    targets: FocusTargets,
    ws: Seq<Window>,
    children: Map<u32, Seq<u64>>,
    control: Option<(Option<u32>, Seq<u32>)>,
) -> FocusTargets {
    let t = before_decision(targets, ws);
    let cands = policy::candidates(ws);
    match picked(cands, t.focus_state.requested_focus, control) {
        None => FocusTargets {
            focused_x11_window: None,
            focus_state: FocusState { dirty: false, ..t.focus_state },
            ..t
        },
        Some(w) => refocus::applied(
            FocusTargets { focus_state: policy::after_pick(cands, t.focus_state), ..t },
            ws,
            refocus::promoted(ws, children, w),
        ),
    }
}

/// What a decision among windows `ws` calls for, besides telling Steam what
/// can be focused.
pub open spec fn decided_actions(
    targets: FocusTargets,
    ws: Seq<Window>,
    children: Map<u32, Seq<u64>>,
    control: Option<(Option<u32>, Seq<u32>)>,
    x11: bool,
) -> Seq<FocusAction> {
    let t = before_decision(targets, ws);
    let cands = policy::candidates(ws);
    match picked(cands, t.focus_state.requested_focus, control) {
        None => seq![FocusAction::ClearKeyboardFocus] + refocus::only_if(
            x11,
            FocusAction::ClearFocusedApp,
        ),
        Some(w) => refocus::apply_actions(
            FocusTargets { focus_state: policy::after_pick(cands, t.focus_state), ..t },
            ws,
            refocus::promoted(ws, children, w),
            x11,
        ),
    }
}

/// The app ids of the candidates; see [`focusable_apps`].
fn collect_apps(cands: &[Window]) -> (r: Vec<u32>)
    ensures
        r@ == focusable_apps(cands@),
{
    let mut r: Vec<u32> = Vec::new();
    let mut i: usize = 0;
    while i < cands.len()
        invariant
            i <= cands@.len(),
            r@ == focusable_apps(cands@.take(i as int)),
        decreases cands@.len() - i,
    {
        proof {
            assert(cands@.take(i + 1).drop_last() == cands@.take(i as int));
        }
        if let Some(meta) = cands[i].meta {
            if meta.app_id != 0 {
                r.push(meta.app_id);
            }
        }
        i += 1;
    }
    proof {
        assert(cands@.take(cands@.len() as int) == cands@);
    }
    r
}

/// The X11 candidates; see [`focusable_windows`].
fn collect_windows(cands: &[Window], readings: &[WindowReading]) -> (r: Vec<(u32, u32, u32)>)
    ensures
        r@ == focusable_windows(cands@, readings@),
{
    let mut r: Vec<(u32, u32, u32)> = Vec::new();
    let mut i: usize = 0;
    while i < cands.len()
        invariant
            i <= cands@.len(),
            r@ == focusable_windows(cands@.take(i as int), readings@),
        decreases cands@.len() - i,
    {
        proof {
            assert(cands@.take(i + 1).drop_last() == cands@.take(i as int));
        }
        let w = cands[i];
        if let Some(id) = w.x11 {
            if let Some(meta) = w.meta {
                let pid: u32 = if meta.x11_window_id.is_some() {
                    refocus::find_reading(readings, id).pid
                } else {
                    0
                };
                r.push((id, meta.app_id, pid));
            }
        }
        i += 1;
    }
    proof {
        assert(cands@.take(cands@.len() as int) == cands@);
    }
    r
}

impl MoonshineCompositor {
    /// Decides focus anew: takes over the live properties, picks the special
    /// windows, collects the candidates and gives the best one, or a
    /// transient child of it, the focus. Without candidates the keyboard
    /// focus is cleared. `live` is what was read from the X server, if there
    /// is one.
    pub fn reevaluate_focus(&mut self, live: Option<&X11Live>) -> (out: FocusOutcome)
        ensures
            final(self).windows@ == old(self).refreshed_windows(live),
            final(self).targets == decided_targets(
                old(self).targets,
                final(self).windows@,
                old(self).children(),
                live_control(live),
            ),
            *final(self) == (MoonshineCompositor {
                windows: final(self).windows,
                targets: final(self).targets,
                ..*old(self)
            }),
            ({
                let cands = policy::candidates(final(self).windows@);
                let decided = decided_actions(
                    old(self).targets,
                    final(self).windows@,
                    old(self).children(),
                    live_control(live),
                    live is Some,
                );
                match live {
                    Some(x) => {
                        &&& out.apps@ == focusable_apps(cands)
                        &&& out.windows@ == focusable_windows(cands, x.readings@)
                        &&& out.actions@ == publish_actions(out.apps@, out.windows@) + decided
                    },
                    None => out.apps@.len() == 0 && out.windows@.len() == 0 && out.actions@ == decided,
                }
            }),
    {
        self.targets.focus_state.mark_dirty();
        self.refresh_metadata(live);
        self.classify_special_windows();
        let cands = policy::build_candidates(&self.windows);
        let mut apps: Vec<u32> = Vec::new();
        let mut windows: Vec<(u32, u32, u32)> = Vec::new();
        let mut actions: Vec<FocusAction> = Vec::new();
        if let Some(x) = live {
            apps = collect_apps(&cands);
            windows = collect_windows(&cands, &x.readings);
            if apps.len() > 0 {
                actions.push(FocusAction::PublishFocusableApps);
            } else {
                actions.push(FocusAction::ClearFocusableApps);
            }
            if windows.len() > 0 {
                actions.push(FocusAction::PublishFocusableWindows);
            } else {
                actions.push(FocusAction::ClearFocusableWindows);
            }
            proof {
                assert(actions@ =~= publish_actions(apps@, windows@));
            }
        }
        let ghost published = actions@;
        let control = match live {
            Some(x) => match &x.control {
                Some(c) => Some(c),
                None => None,
            },
            None => None,
        };
        let best = match policy::pick_best_candidate(&cands, &mut self.targets.focus_state, control) {
            Some(w) => Some(w),
            None => policy::pick_top(&cands),
        };
        let mut rest: Vec<FocusAction>;
        match best {
            Some(w) => {
                let w = self.promote_transient_child(w);
                rest = self.apply_focus(w, live.is_some());
            },
            None => {
                proof {
                    policy::top_ranked_is_highest(cands@);
                }
                self.targets.focused_x11_window = None;
                self.targets.focus_state.apply();
                rest = Vec::new();
                rest.push(FocusAction::ClearKeyboardFocus);
                if live.is_some() {
                    rest.push(FocusAction::ClearFocusedApp);
                }
                proof {
                    assert(rest@ =~= seq![FocusAction::ClearKeyboardFocus] + refocus::only_if(
                        live is Some,
                        FocusAction::ClearFocusedApp,
                    ));
                }
            },
        }
        actions.append(&mut rest);
        proof {
            if live is None {
                assert(published + rest@ =~= rest@);
            }
        }
        FocusOutcome { apps, windows, actions }
    }
}

/// A decision leaves nothing to be decided, and what it gives the focus to is
/// the window that was picked or a child of it.
pub proof fn decision_is_final(
    targets: FocusTargets,
    ws: Seq<Window>,
    children: Map<u32, Seq<u64>>,
    control: Option<(Option<u32>, Seq<u32>)>,
)
    ensures
        ({
            let after = decided_targets(targets, ws, children, control);
            let best = picked(policy::candidates(ws), targets.focus_state.requested_focus, control);
            &&& !after.focus_state.dirty
            &&& best is None ==> after.focused_x11_window is None && after.focused_window
                == targets.focused_window
            &&& best matches Some(w) ==> after.focused_window == Some(
                refocus::promoted(ws, children, w),
            ) && after.focused_x11_window == refocus::promoted(ws, children, w).x11
        }),
{
}

/// A window that asked for the focus gets it once: the request is used up if
/// the window is there, and kept for later if it is not.
pub proof fn request_is_used_once(
    targets: FocusTargets,
    ws: Seq<Window>,
    children: Map<u32, Seq<u64>>,
    control: Option<(Option<u32>, Seq<u32>)>,
    requested: u32,
)
    requires
        targets.focus_state.requested_focus == Some(requested),
    ensures
        ({
            let cands = policy::candidates(ws);
            let after = decided_targets(targets, ws, children, control);
            match state::by_x11(cands, requested) {
                Some(w) => {
                    &&& picked(cands, Some(requested), control) == Some(w)
                    &&& after.focus_state.requested_focus is None
                },
                None => after.focus_state.requested_focus == Some(requested),
            }
        }),
{
}

/// Some window gets the focus whenever an ordinary one is there: it is on the
/// stack and registered, keyboard and pointer are given to a window, and the
/// keyboard is not let go.
pub proof fn some_window_gets_the_focus(
    targets: FocusTargets,
    ws: Seq<Window>,
    children: Map<u32, Seq<u64>>,
    control: Option<(Option<u32>, Seq<u32>)>,
    x11: bool,
    i: int,
)
    requires
        0 <= i < ws.len(),
        policy::ordinary(ws[i]),
    ensures
        ({
            let after = decided_targets(targets, ws, children, control);
            let actions = decided_actions(targets, ws, children, control, x11);
            &&& after.focused_window matches Some(w) && ws.contains(w) && w.meta is Some
            &&& after.focused_x11_window == after.focused_window->0.x11
            &&& after.pointer_focus_window is Some
            &&& !after.focus_state.dirty
            &&& !actions.contains(FocusAction::ClearKeyboardFocus)
            &&& exists|h: u64| actions.contains(#[trigger] keyboard_to(h))
        }),
{
    let cands = policy::candidates(ws);
    policy::ordinary_windows_are_candidates(ws, i);
    policy::top_ranked_is_highest(cands);
    let t = before_decision(targets, ws);
    let k = choose|k: int| 0 <= k < cands.len() && cands[k] == ws[i];
    policy::wishes_are_granted(cands, t.focus_state.requested_focus, control, k);
    let w = picked(cands, t.focus_state.requested_focus, control)->0;
    assert(cands.contains(w));
    let n = choose|n: int| 0 <= n < cands.len() && cands[n] == w;
    assert(ws.contains(cands[n]));
    let m = choose|m: int| 0 <= m < ws.len() && ws[m] == w;
    policy::ordinary_windows_are_candidates(ws, m);
    refocus::dialogs_take_the_focus(ws, children, w);
    let best = refocus::promoted(ws, children, w);
    let ready = FocusTargets { focus_state: policy::after_pick(cands, t.focus_state), ..t };
    let keyboard = refocus::keyboard_target(ready, ws, best).handle;
    refocus::focus_is_carried_out(ready, ws, best, x11, FocusAction::ClearKeyboardFocus);
    refocus::focus_is_carried_out(ready, ws, best, x11, keyboard_to(keyboard));
}

/// Giving a window the keyboard.
pub open spec fn keyboard_to(window: u64) -> FocusAction {
    FocusAction::KeyboardFocus { window }
}

/// Where no ordinary window is there, the keyboard is let go and no X11 window
/// has the focus.
pub proof fn nothing_to_focus(
    targets: FocusTargets,
    ws: Seq<Window>,
    children: Map<u32, Seq<u64>>,
    control: Option<(Option<u32>, Seq<u32>)>,
    x11: bool,
)
    requires
        forall|i: int| 0 <= i < ws.len() ==> !policy::ordinary(#[trigger] ws[i]),
    ensures
        decided_targets(targets, ws, children, control).focused_x11_window is None,
        decided_actions(targets, ws, children, control, x11)[0] == FocusAction::ClearKeyboardFocus,
        forall|h: u64| !decided_actions(targets, ws, children, control, x11).contains(#[trigger] keyboard_to(h)),
{
    let cands = policy::candidates(ws);
    if cands.len() > 0 {
        if ws.len() > 0 {
            policy::ordinary_windows_are_candidates(ws, 0);
            let m = choose|m: int| 0 <= m < ws.len() && ws[m] == cands[0];
            policy::ordinary_windows_are_candidates(ws, m);
            assert(cands.contains(ws[m]));
        } else {
            reveal(Seq::filter);
        }
    }
    let t = before_decision(targets, ws);
    policy::top_ranked_is_highest(cands);
    if let Some(id) = t.focus_state.requested_focus {
        state::windows_are_found(cands, 0, id);
    }
    if let Some((window, apps)) = control {
        if let Some(id) = window {
            state::windows_are_found(cands, 0, id);
        }
        policy::top_of_apps_is_highest(cands, apps);
    }
    assert(picked(cands, t.focus_state.requested_focus, control) is None);
}

/// Without a wish the focus goes to a window that no candidate ranks above, or
/// to a child of it.
pub proof fn best_window_is_picked(cands: Seq<Window>, j: int)
    requires
        0 <= j < cands.len(),
    ensures
        picked(cands, None, None) matches Some(w) && cands.contains(w) && !crate::compositor::focus::key_below(
            policy::window_key(w),
            policy::window_key(cands[j]),
        ),
{
    policy::top_ranked_is_highest(cands);
    let i = choose|i: int|
        0 <= i < cands.len() && #[trigger] cands[i] == policy::top_ranked(cands)->0 && (forall|j: int|
            0 <= j < cands.len() ==> !crate::compositor::focus::key_below(
                policy::window_key(cands[i]),
                policy::window_key(#[trigger] cands[j]),
            )) && (forall|j: int|
            i < j < cands.len() ==> crate::compositor::focus::key_below(
                policy::window_key(#[trigger] cands[j]),
                policy::window_key(cands[i]),
            ));
    assert(cands[i] == policy::top_ranked(cands)->0);
}

/// Steam is told every app and every X11 window that can be focused, and no
/// other: the app ids other than 0 of the candidates, and their windows with
/// the app they belong to.
pub proof fn steam_is_told_what_can_be_focused(cands: Seq<Window>, readings: Seq<WindowReading>, app_id: u32, id: u32)
    ensures
        focusable_apps(cands).contains(app_id) <==> app_id != 0 && exists|i: int|
            0 <= i < cands.len() && ((#[trigger] cands[i]).meta matches Some(m) && m.app_id == app_id),
        (exists|k: int| 0 <= k < focusable_windows(cands, readings).len() && (#[trigger] focusable_windows(
            cands,
            readings,
        )[k]).0 == id && focusable_windows(cands, readings)[k].1 == app_id) <==> exists|i: int|
            0 <= i < cands.len() && (#[trigger] cands[i]).x11 == Some(id) && (cands[i].meta matches Some(m)
                && m.app_id == app_id),
    decreases cands.len(),
{
    if cands.len() > 0 {
        let rest = cands.drop_last();
        let last = cands.len() - 1;
        steam_is_told_what_can_be_focused(rest, readings, app_id, id);
        assert(forall|j: int| 0 <= j < last ==> rest[j] == cands[j]);
        let apps = focusable_apps(cands);
        let apps_before = focusable_apps(rest);
        let windows = focusable_windows(cands, readings);
        let windows_before = focusable_windows(rest, readings);
        assert(cands[last] == cands.last());
        if apps_before.contains(app_id) {
            let k = choose|k: int| 0 <= k < apps_before.len() && apps_before[k] == app_id;
            assert(apps[k] == app_id);
            let i = choose|i: int|
                0 <= i < rest.len() && ((#[trigger] rest[i]).meta matches Some(m) && m.app_id == app_id);
            assert(cands[i] == rest[i]);
        }
        if apps.contains(app_id) && !apps_before.contains(app_id) {
            let k = choose|k: int| 0 <= k < apps.len() && apps[k] == app_id;
            if k < apps_before.len() {
                assert(apps_before[k] == app_id);
            }
        }
        if app_id != 0 && (cands[last].meta matches Some(m) && m.app_id == app_id) {
            assert(apps[apps.len() - 1] == app_id);
        }
        if exists|i: int|
            0 <= i < cands.len() && ((#[trigger] cands[i]).meta matches Some(m) && m.app_id == app_id) {
            let i = choose|i: int|
                0 <= i < cands.len() && ((#[trigger] cands[i]).meta matches Some(m) && m.app_id == app_id);
            if i < last {
                assert(rest[i] == cands[i]);
            }
        }
        if exists|k: int|
            0 <= k < windows_before.len() && (#[trigger] windows_before[k]).0 == id && windows_before[k].1
                == app_id {
            let k = choose|k: int|
                0 <= k < windows_before.len() && (#[trigger] windows_before[k]).0 == id
                    && windows_before[k].1 == app_id;
            assert(windows[k] == windows_before[k]);
            let i = choose|i: int|
                0 <= i < rest.len() && (#[trigger] rest[i]).x11 == Some(id) && (rest[i].meta matches Some(m)
                    && m.app_id == app_id);
            assert(cands[i] == rest[i]);
        }
        if exists|k: int|
            0 <= k < windows.len() && (#[trigger] windows[k]).0 == id && windows[k].1 == app_id {
            let k = choose|k: int|
                0 <= k < windows.len() && (#[trigger] windows[k]).0 == id && windows[k].1 == app_id;
            if k < windows_before.len() {
                assert(windows_before[k] == windows[k]);
            }
        }
        if exists|i: int|
            0 <= i < cands.len() && (#[trigger] cands[i]).x11 == Some(id) && (cands[i].meta matches Some(m)
                && m.app_id == app_id) {
            let i = choose|i: int|
                0 <= i < cands.len() && (#[trigger] cands[i]).x11 == Some(id) && (cands[i].meta matches Some(
                    m,
                ) && m.app_id == app_id);
            if i < last {
                assert(rest[i] == cands[i]);
            } else {
                assert(windows[windows.len() - 1].0 == id);
            }
        }
    }
}

/// A decision begins with nothing decided: focus is to be decided anew and the
/// special windows are picked anew, and all else is as it was, the request of a
/// client too.
pub proof fn decisions_begin_anew(targets: FocusTargets, ws: Seq<Window>)
    ensures
        ({
            let t = before_decision(targets, ws);
            &&& t.focus_state.dirty
            &&& t.focus_state.requested_focus == targets.focus_state.requested_focus
            &&& t.focused_window == targets.focused_window
            &&& t.focused_x11_window == targets.focused_x11_window
            &&& t.override_window == targets.override_window
            &&& t.pointer_focus_window == targets.pointer_focus_window
            &&& t.last_keyboard_focus_window == targets.last_keyboard_focus_window
            &&& t.overlay_window == policy::classified(targets, ws).overlay_window
            &&& t.notification_window == policy::classified(targets, ws).notification_window
            &&& t.external_overlay_window == policy::classified(targets, ws).external_overlay_window
        }),
{
}

/// Steam is told of apps and of windows, each list where it holds something and
/// otherwise that it is empty; and what Steam asks for is taken as it was read.
pub proof fn lists_are_published(apps: Seq<u32>, windows: Seq<(u32, u32, u32)>, live: Option<&X11Live>)
    ensures
        ({
            let a = publish_actions(apps, windows);
            &&& a.len() == 2
            &&& apps.len() > 0 ==> a[0] is PublishFocusableApps
            &&& apps.len() == 0 ==> a[0] is ClearFocusableApps
            &&& windows.len() > 0 ==> a[1] is PublishFocusableWindows
            &&& windows.len() == 0 ==> a[1] is ClearFocusableWindows
        }),
        live is None ==> live_control(live) is None,
        live matches Some(x) ==> (x.control is None ==> live_control(live) is None),
        live matches Some(x) ==> (x.control matches Some(c) ==> live_control(live) == Some(
            (c.window, c.app_ids@),
        )),
{
}

/// One more candidate adds its app where it has one, and its window where it is
/// an X11 window, with the process that was read for it.
pub proof fn candidates_are_told_in_order(cands: Seq<Window>, readings: Seq<WindowReading>, w: Window)
    ensures
        w.meta matches Some(m) ==> (m.app_id != 0 ==> focusable_apps(cands.push(w)) == focusable_apps(
            cands,
        ).push(m.app_id)),
        w.meta matches Some(m) ==> (m.app_id == 0 ==> focusable_apps(cands.push(w)) == focusable_apps(cands)),
        w.meta is None ==> focusable_apps(cands.push(w)) == focusable_apps(cands) && focusable_windows(
            cands.push(w),
            readings,
        ) == focusable_windows(cands, readings),
        w.x11 is None ==> focusable_windows(cands.push(w), readings) == focusable_windows(cands, readings),
        w.x11 matches Some(id) ==> (w.meta matches Some(m) ==> {
            let told = focusable_windows(cands.push(w), readings);
            let before = focusable_windows(cands, readings);
            &&& m.x11_window_id is Some ==> told == before.push(
                (id, m.app_id, refocus::reading_of(readings, id).pid),
            )
            &&& m.x11_window_id is None ==> told == before.push((id, m.app_id, 0u32))
        }),
{
    assert(cands.push(w).drop_last() == cands);
}

} // verus!
