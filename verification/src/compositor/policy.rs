//! Deciding which window gets the focus, and what follows from it.
use vstd::prelude::*;

use crate::compositor::focus;
use crate::compositor::focus::{
    get_window_priority_key, ranks_below, PriorityKey, EXTERNAL_OVERLAY, NOTIFICATION, OVERLAY,
    SKIP_FOCUS,
};
use crate::compositor::state;
use crate::compositor::state::{FocusTargets, Window};

verus! {

broadcast use vstd::std_specs::hash::group_hash_axioms;

// ---------------------------------------------------------------------------
// Special windows
// ---------------------------------------------------------------------------

/// The most opaque window that has all flags of `mask`, the last one where
/// several are equally opaque, and its opacity (0 without one).
pub open spec fn most_opaque(ws: Seq<Window>, mask: u8) -> (Option<u64>, u32)
    decreases ws.len(),
{
    if ws.len() == 0 {
        (None, 0)
    } else {
        let before = most_opaque(ws.drop_last(), mask);
        match ws.last().meta {
            Some(meta) if meta.flags.has_all(mask) && meta.opacity >= before.1 => (
                Some(ws.last().handle),
                meta.opacity,
            ),
            _ => before,
        }
    }
}

/// Window `i` has all flags of `mask`.
pub open spec fn flagged(ws: Seq<Window>, mask: u8, i: int) -> bool {
    0 <= i < ws.len() && ws[i].meta is Some && ws[i].meta->0.flags.has_all(mask)
}

/// The window picked for a flag is one that has it, no other such window is
/// more opaque, and none behind it is as opaque; none is picked exactly when
/// no window has the flag.
pub proof fn most_opaque_is_chosen(ws: Seq<Window>, mask: u8)
    ensures
        most_opaque(ws, mask).0 matches Some(handle) ==> exists|i: int|
            #![trigger flagged(ws, mask, i)]
            flagged(ws, mask, i) && ws[i].handle == handle && ws[i].meta->0.opacity == most_opaque(ws, mask).1
                && (forall|j: int| #[trigger]
                flagged(ws, mask, j) ==> ws[j].meta->0.opacity <= ws[i].meta->0.opacity && (j > i
                    ==> ws[j].meta->0.opacity < ws[i].meta->0.opacity)),
        most_opaque(ws, mask).0 is None ==> most_opaque(ws, mask).1 == 0 && forall|i: int|
            !#[trigger] flagged(ws, mask, i),
    decreases ws.len(),
{
    if ws.len() > 0 {
        let t = ws.drop_last();
        most_opaque_is_chosen(t, mask);
        let last = ws.len() - 1;
        assert(forall|i: int| 0 <= i < last ==> t[i] == ws[i]);
        assert(forall|i: int| #[trigger] flagged(t, mask, i) ==> flagged(ws, mask, i));
        assert(forall|i: int| i < last && #[trigger] flagged(ws, mask, i) ==> flagged(t, mask, i));
        if flagged(ws, mask, last) && ws[last].meta->0.opacity >= most_opaque(t, mask).1 {
            assert forall|j: int| #[trigger] flagged(ws, mask, j) implies ws[j].meta->0.opacity
                <= ws[last].meta->0.opacity by {
                if j < last {
                    assert(flagged(t, mask, j));
                }
            }
        } else if most_opaque(t, mask).0 is Some {
            let i = choose|i: int|
                #![trigger flagged(t, mask, i)]
                flagged(t, mask, i) && t[i].handle == most_opaque(t, mask).0->0 && t[i].meta->0.opacity
                    == most_opaque(t, mask).1 && (forall|j: int| #[trigger]
                    flagged(t, mask, j) ==> t[j].meta->0.opacity <= t[i].meta->0.opacity && (j > i
                        ==> t[j].meta->0.opacity < t[i].meta->0.opacity));
            assert(flagged(ws, mask, i));
            assert forall|j: int| #[trigger] flagged(ws, mask, j) implies ws[j].meta->0.opacity
                <= ws[i].meta->0.opacity && (j > i ==> ws[j].meta->0.opacity < ws[i].meta->0.opacity) by {
                if j < last {
                    assert(flagged(t, mask, j));
                }
            }
        } else {
            assert(!flagged(ws, mask, last));
            assert forall|i: int| !#[trigger] flagged(ws, mask, i) by {
                if flagged(ws, mask, i) {
                    assert(flagged(t, mask, i));
                }
            }
        }
    }
}

/// Picks a window by flag; see [`most_opaque`].
pub fn pick_flagged(ws: &[Window], mask: u8) -> (r: Option<u64>)
    ensures
        r == most_opaque(ws@, mask).0,
{
    let mut best: Option<u64> = None;
    let mut opacity: u32 = 0;
    let mut i: usize = 0;
    while i < ws.len()
        invariant
            i <= ws@.len(),
            (best, opacity) == most_opaque(ws@.take(i as int), mask),
        decreases ws@.len() - i,
    {
        proof {
            assert(ws@.take(i + 1).drop_last() == ws@.take(i as int));
        }
        if let Some(meta) = ws[i].meta {
            if meta.flags.contains(mask) && meta.opacity >= opacity {
                best = Some(ws[i].handle);
                opacity = meta.opacity;
            }
        }
        i += 1;
    }
    proof {
        assert(ws@.take(ws@.len() as int) == ws@);
    }
    best
}

/// The targets after the special windows were picked anew; focus is dirty if
/// one of them is another window than before.
pub open spec fn classified(targets: FocusTargets, ws: Seq<Window>) -> FocusTargets {
    let overlay = most_opaque(ws, OVERLAY).0;
    let notification = most_opaque(ws, NOTIFICATION).0;
    let external = most_opaque(ws, EXTERNAL_OVERLAY).0;
    let changed = overlay != targets.overlay_window || notification != targets.notification_window || external
        != targets.external_overlay_window;
    FocusTargets {
        overlay_window: overlay,
        notification_window: notification,
        external_overlay_window: external,
        focus_state: focus::FocusState {
            dirty: targets.focus_state.dirty || changed,
            ..targets.focus_state
        },
        ..targets
    }
}

// ---------------------------------------------------------------------------
// Candidates
// ---------------------------------------------------------------------------

/// A window that may get the focus: registered, of no special kind, and no
/// override-redirect window without an app id.
pub open spec fn candidate(w: Window) -> bool {
    w.meta is Some && !w.meta->0.flags.has_some(SKIP_FOCUS) && !(w.meta->0.override_redirect
        && w.meta->0.app_id == 0)
}

/// The windows that may get the focus, in order.
pub open spec fn candidates(ws: Seq<Window>) -> Seq<Window> {
    ws.filter(|w: Window| candidate(w))
}

/// Collects the windows that may get the focus.
pub fn build_candidates(ws: &[Window]) -> (r: Vec<Window>)
    ensures
        r@ == candidates(ws@),
{
    let ghost f = |w: Window| candidate(w);
    let mut r: Vec<Window> = Vec::new();
    let mut i: usize = 0;
    proof {
        reveal(Seq::filter);
    }
    while i < ws.len()
        invariant
            i <= ws@.len(),
            f == (|w: Window| candidate(w)),
            r@ == ws@.take(i as int).filter(f),
        decreases ws@.len() - i,
    {
        proof {
            reveal(Seq::filter);
            assert(ws@.take(i + 1).drop_last() == ws@.take(i as int));
        }
        let w = ws[i];
        if let Some(meta) = w.meta {
            if !meta.flags.intersects(SKIP_FOCUS) && !(meta.override_redirect && meta.app_id == 0) {
                r.push(w);
            }
        }
        i += 1;
    }
    proof {
        assert(ws@.take(ws@.len() as int) == ws@);
    }
    r
}

// ---------------------------------------------------------------------------
// Picking
// ---------------------------------------------------------------------------

/// What Steam asked for through the root window.
pub struct FocusControl {
    /// The window to focus.
    pub window: Option<u32>,
    /// The apps to focus one of.
    pub app_ids: Vec<u32>,
}

/// The lowest rank.
pub open spec fn lowest_key() -> PriorityKey {
    (false, false, false, false, false, false, false, false, false, 0, 0)
}

/// The rank of a window; the lowest for one that is not registered.
pub open spec fn window_key(w: Window) -> PriorityKey {
    match w.meta {
        Some(meta) => focus::priority_key(meta),
        None => lowest_key(),
    }
}

/// The rank of a window; see [`window_key`].
fn rank_of(w: &Window) -> (k: PriorityKey)
    ensures
        k == window_key(*w),
{
    match w.meta {
        Some(meta) => get_window_priority_key(&meta),
        None => (false, false, false, false, false, false, false, false, false, 0, 0),
    }
}

/// The window of the highest rank, the last one where several rank alike.
pub open spec fn top_ranked(ws: Seq<Window>) -> Option<Window>
    decreases ws.len(),
{
    if ws.len() == 0 {
        None
    } else {
        match top_ranked(ws.drop_last()) {
            Some(best) if focus::key_below(window_key(ws.last()), window_key(best)) => Some(best),
            _ => Some(ws.last()),
        }
    }
}

/// The window of an app in `apps` with the highest rank, the first one where
/// several rank alike.
pub open spec fn top_of_apps(ws: Seq<Window>, apps: Seq<u32>) -> Option<Window>
    decreases ws.len(),
{
    if ws.len() == 0 {
        None
    } else {
        let before = top_of_apps(ws.drop_last(), apps);
        let w = ws.last();
        if w.meta is Some && apps.contains(w.meta->0.app_id) && (before is None || focus::key_below(
            window_key(before->0),
            window_key(w),
        )) {
            Some(w)
        } else {
            before
        }
    }
}

/// The window of the highest rank is one of the windows, none ranks above it,
/// and every window behind it ranks below it.
pub proof fn top_ranked_is_highest(ws: Seq<Window>)
    ensures
        top_ranked(ws) is Some <==> ws.len() > 0,
        ws.len() > 0 ==> exists|i: int|
            0 <= i < ws.len() && #[trigger] ws[i] == top_ranked(ws)->0 && (forall|j: int|
                0 <= j < ws.len() ==> !focus::key_below(window_key(ws[i]), window_key(#[trigger] ws[j]))) && (
            forall|j: int|
                i < j < ws.len() ==> focus::key_below(window_key(#[trigger] ws[j]), window_key(ws[i]))),
    decreases ws.len(),
{
    if ws.len() > 0 {
        let t = ws.drop_last();
        top_ranked_is_highest(t);
        let last = ws.len() - 1;
        assert(forall|j: int| 0 <= j < last ==> t[j] == ws[j]);
        if t.len() == 0 {
            assert(ws[last] == top_ranked(ws)->0);
        } else {
            let i = choose|i: int|
                0 <= i < t.len() && #[trigger] t[i] == top_ranked(t)->0 && (forall|j: int|
                    0 <= j < t.len() ==> !focus::key_below(window_key(t[i]), window_key(#[trigger] t[j]))) && (
                forall|j: int|
                    i < j < t.len() ==> focus::key_below(window_key(#[trigger] t[j]), window_key(t[i])));
            assert(ws[i] == t[i]);
            if focus::key_below(window_key(ws[last]), window_key(t[i])) {
                assert forall|j: int| 0 <= j < ws.len() implies !focus::key_below(
                    window_key(ws[i]),
                    window_key(#[trigger] ws[j]),
                ) by {
                    if j < last {
                        assert(t[j] == ws[j]);
                    }
                }
                assert forall|j: int| i < j < ws.len() implies focus::key_below(
                    window_key(#[trigger] ws[j]),
                    window_key(ws[i]),
                ) by {
                    if j < last {
                        assert(t[j] == ws[j]);
                    }
                }
                assert(ws[i] == top_ranked(ws)->0);
            } else {
                assert forall|j: int| 0 <= j < ws.len() implies !focus::key_below(
                    window_key(ws[last]),
                    window_key(#[trigger] ws[j]),
                ) by {
                    if j < last {
                        assert(t[j] == ws[j]);
                        assert(!focus::key_below(window_key(t[i]), window_key(t[j])));
                    }
                }
                assert(ws[last] == top_ranked(ws)->0);
            }
        }
    }
}

/// The window that was asked for explicitly, by a client or by Steam: the
/// window of a client's request, then the window that Steam names, then the
/// top window of the apps that Steam names.
pub open spec fn explicit_pick(
    cands: Seq<Window>,
    requested: Option<u32>,
    control: Option<(Option<u32>, Seq<u32>)>,
) -> Option<Window> {
    if requested is Some && state::by_x11(cands, requested->0) is Some {
        state::by_x11(cands, requested->0)
    } else {
        match control {
            None => None,
            Some((window, apps)) => if window is Some && state::by_x11(cands, window->0) is Some {
                state::by_x11(cands, window->0)
            } else {
                top_of_apps(cands, apps)
            },
        }
    }
}

/// What a focus control asks for.
pub open spec fn control_view(control: Option<&FocusControl>) -> Option<(Option<u32>, Seq<u32>)> {
    match control {
        Some(c) => Some((c.window, c.app_ids@)),
        None => None,
    }
}

/// Whether `ids` holds `id`.
fn holds_id(ids: &[u32], id: u32) -> (r: bool)
    ensures
        r == ids@.contains(id),
{
    let mut i: usize = 0;
    while i < ids.len()
        invariant
            i <= ids@.len(),
            forall|j: int| 0 <= j < i ==> ids@[j] != id,
        decreases ids@.len() - i,
    {
        if ids[i] == id {
            return true;
        }
        i += 1;
    }
    false
}

/// The top window of some apps; see [`top_of_apps`].
fn pick_of_apps(cands: &[Window], apps: &[u32]) -> (r: Option<Window>)
    ensures
        r == top_of_apps(cands@, apps@),
{
    let mut best: Option<Window> = None;
    let mut i: usize = 0;
    while i < cands.len()
        invariant
            i <= cands@.len(),
            best == top_of_apps(cands@.take(i as int), apps@),
        decreases cands@.len() - i,
    {
        proof {
            assert(cands@.take(i + 1).drop_last() == cands@.take(i as int));
        }
        let w = cands[i];
        if let Some(meta) = w.meta {
            if holds_id(apps, meta.app_id) {
                let above = match best {
                    None => true,
                    Some(b) => ranks_below(rank_of(&b), rank_of(&w)),
                };
                if above {
                    best = Some(w);
                }
            }
        }
        i += 1;
    }
    proof {
        assert(cands@.take(cands@.len() as int) == cands@);
    }
    best
}

/// The window of the highest rank; see [`top_ranked`].
pub fn pick_top(cands: &[Window]) -> (r: Option<Window>)
    ensures
        r == top_ranked(cands@),
{
    let mut best: Option<Window> = None;
    let mut i: usize = 0;
    while i < cands.len()
        invariant
            i <= cands@.len(),
            best == top_ranked(cands@.take(i as int)),
        decreases cands@.len() - i,
    {
        proof {
            assert(cands@.take(i + 1).drop_last() == cands@.take(i as int));
        }
        let w = cands[i];
        let keep = match best {
            None => false,
            Some(b) => ranks_below(rank_of(&w), rank_of(&b)),
        };
        if !keep {
            best = Some(w);
        }
        i += 1;
    }
    proof {
        assert(cands@.take(cands@.len() as int) == cands@);
    }
    best
}

/// Picks the window that was asked for explicitly, if any; see
/// [`explicit_pick`]. A client's request that is met is forgotten, one whose
/// window is no candidate is kept.
pub fn pick_best_candidate(
    cands: &[Window],
    focus_state: &mut focus::FocusState,
    control: Option<&FocusControl>,
) -> (r: Option<Window>)
    ensures
        r == explicit_pick(cands@, old(focus_state).requested_focus, control_view(control)),
        *final(focus_state) == after_pick(cands@, *old(focus_state)),
{
    if let Some(id) = focus_state.peek_requested_focus() {
        if let Some(i) = state::find_x11(cands, id) {
            focus_state.clear_requested_focus();
            return Some(cands[i]);
        }
    }
    match control {
        None => None,
        Some(c) => {
            if let Some(id) = c.window {
                if let Some(i) = state::find_x11(cands, id) {
                    return Some(cands[i]);
                }
            }
            pick_of_apps(cands, &c.app_ids)
        },
    }
}

/// The focus state after a pick: without the request if that was met.
pub open spec fn after_pick(cands: Seq<Window>, fs: focus::FocusState) -> focus::FocusState {
    if fs.requested_focus is Some && state::by_x11(cands, fs.requested_focus->0) is Some {
        focus::FocusState { requested_focus: None, ..fs }
    } else {
        fs
    }
}

/// A window that nothing keeps from the focus: registered, neither overlay,
/// notification, external overlay, streaming client, its video, tray icon nor
/// the target of a VR overlay, and not override-redirect without an app id.
pub open spec fn ordinary(w: Window) -> bool {
    w.meta matches Some(m) && m.flags.bits & OVERLAY == 0 && m.flags.bits & NOTIFICATION == 0
        && m.flags.bits & EXTERNAL_OVERLAY == 0 && m.flags.bits & focus::STREAMING_CLIENT == 0
        && m.flags.bits & focus::STREAMING_CLIENT_VIDEO == 0 && m.flags.bits & focus::SYS_TRAY_ICON == 0
        && m.flags.bits & focus::VR_OVERLAY_TARGET == 0 && (!m.override_redirect || m.app_id != 0)
}

/// The candidates for the focus are exactly the ordinary windows, whatever
/// else is known of them.
pub proof fn ordinary_windows_are_candidates(ws: Seq<Window>, i: int)
    requires
        0 <= i < ws.len(),
    ensures
        candidates(ws).contains(ws[i]) <==> ordinary(ws[i]),
        forall|k: int| 0 <= k < candidates(ws).len() ==> ws.contains(#[trigger] candidates(ws)[k]),
{
    broadcast use vstd::seq_lib::group_filter_ensures;

    let keep = |w: Window| candidate(w);
    if let Some(m) = ws[i].meta {
        let bits = m.flags.bits;
        assert((bits & 127 == 0) == (bits & 1 == 0 && bits & 2 == 0 && bits & 4 == 0 && bits & 8 == 0 && bits
            & 16 == 0 && bits & 32 == 0 && bits & 64 == 0)) by (bit_vector);
        assert(1u8 | 2u8 | 4u8 | 8u8 | 16u8 | 32u8 | 64u8 == 127u8) by (bit_vector);
    }
    if keep(ws[i]) {
        ws.lemma_filter_contains(keep, i);
    }
    let cands = ws.filter(keep);
    if cands.contains(ws[i]) {
        let k = choose|k: int| 0 <= k < cands.len() && cands[k] == ws[i];
        assert(keep(cands[k]));
    }
    assert forall|k: int| 0 <= k < cands.len() implies ws.contains(#[trigger] cands[k]) by {
        assert(cands.contains(cands[k]));
        ws.lemma_filter_contains_rev(keep, cands[k]);
    }
}

/// Candidates keep the order of the stack: a window put on top of it comes
/// behind the others, or is no candidate.
pub proof fn candidates_keep_their_order(ws: Seq<Window>, w: Window)
    ensures
        candidates(ws.push(w)) == if ordinary(w) {
            candidates(ws).push(w)
        } else {
            candidates(ws)
        },
        candidates(Seq::empty()).len() == 0,
{
    reveal(Seq::filter);
    let all = ws.push(w);
    assert(all.drop_last() == ws);
    ordinary_windows_are_candidates(seq![w], 0);
    assert(seq![w].drop_last() == Seq::<Window>::empty());
    let keep = |v: Window| candidate(v);
    let none = Seq::<Window>::empty();
    assert(none.filter(keep) == none);
    if candidate(w) {
        assert(seq![w].filter(keep) == none.push(w));
        assert(candidates(seq![w])[0] == w);
    } else {
        assert(seq![w].filter(keep) == none);
    }
}

/// The window picked for some apps is one of theirs, no other window of theirs
/// ranks above it, and none before it ranks as high; none is picked exactly
/// where no window is of one of the apps.
pub proof fn top_of_apps_is_highest(ws: Seq<Window>, apps: Seq<u32>)
    ensures
        match top_of_apps(ws, apps) {
            Some(w) => {
                &&& ws.contains(w)
                &&& w.meta matches Some(m) && apps.contains(m.app_id)
                &&& forall|j: int|
                    0 <= j < ws.len() && ((#[trigger] ws[j]).meta matches Some(m) && apps.contains(m.app_id))
                        ==> !focus::key_below(window_key(w), window_key(ws[j]))
            },
            None => forall|j: int|
                0 <= j < ws.len() ==> !((#[trigger] ws[j]).meta matches Some(m) && apps.contains(m.app_id)),
        },
    decreases ws.len(),
{
    if ws.len() > 0 {
        let rest = ws.drop_last();
        top_of_apps_is_highest(rest, apps);
        let last = ws.len() - 1;
        assert(forall|j: int| 0 <= j < last ==> rest[j] == ws[j]);
        if let Some(b) = top_of_apps(rest, apps) {
            let k = choose|k: int| 0 <= k < rest.len() && rest[k] == b;
            assert(ws[k] == b);
        }
        assert(ws[last] == ws.last());
        if let Some(w) = top_of_apps(ws, apps) {
            assert forall|j: int|
                0 <= j < ws.len() && ((#[trigger] ws[j]).meta matches Some(m) && apps.contains(m.app_id)) implies !focus::key_below(
                window_key(w),
                window_key(ws[j]),
            ) by {
                if j < last {
                    assert(rest[j] == ws[j]);
                    let b = top_of_apps(rest, apps)->0;
                    focus::ranking_is_a_strict_total_order(window_key(b), window_key(w), window_key(ws[j]));
                }
            }
        } else {
            assert forall|j: int| 0 <= j < ws.len() implies !((
            #[trigger] ws[j]).meta matches Some(m) && apps.contains(m.app_id)) by {
                if j < last {
                    assert(rest[j] == ws[j]);
                }
            }
        }
    }
}

/// A wish is granted where it can be, in this order: the window that a client
/// asked for, the window that Steam names, a window of the apps that Steam
/// names. A wish that no candidate meets is passed over, and without a wish
/// nothing is picked here.
pub proof fn wishes_are_granted(
    cands: Seq<Window>,
    requested: Option<u32>,
    control: Option<(Option<u32>, Seq<u32>)>,
    i: int,
)
    requires
        0 <= i < cands.len(),
    ensures
        requested is Some && cands[i].x11 == requested ==> (explicit_pick(cands, requested, control) matches Some(
            w,
        ) && w.x11 == requested),
        (requested is None || forall|j: int| 0 <= j < cands.len() ==> (#[trigger] cands[j]).x11 != requested)
            && control is Some && (control->0).0 is Some && cands[i].x11 == (control->0).0 ==> (explicit_pick(
            cands,
            requested,
            control,
        ) matches Some(w) && w.x11 == (control->0).0),
        control is Some && (cands[i].meta matches Some(m) && (control->0).1.contains(m.app_id))
            ==> explicit_pick(cands, requested, control) is Some,
        requested is None && control is None ==> explicit_pick(cands, requested, control) is None,
        explicit_pick(cands, requested, control) matches Some(w) ==> cands.contains(w) && ((requested is Some
            && w.x11 == requested) || (control is Some && (control->0).0 is Some && w.x11 == (control->0).0) || (
        control is Some && (w.meta matches Some(m) && (control->0).1.contains(m.app_id)))),
{
    if let Some(id) = requested {
        state::windows_are_found(cands, 0, id);
    }
    if let Some((window, apps)) = control {
        if let Some(id) = window {
            state::windows_are_found(cands, 0, id);
        }
        top_of_apps_is_highest(cands, apps);
    }
}

/// Special windows are picked for their flags alone, and focus is to be decided
/// anew where one of them is another than before.
pub proof fn special_windows_are_picked(targets: FocusTargets, ws: Seq<Window>)
    ensures
        ({
            let after = classified(targets, ws);
            &&& after.overlay_window is Some <==> exists|i: int| #[trigger] flagged(ws, 1, i)
            &&& after.notification_window is Some <==> exists|i: int| #[trigger] flagged(ws, 2, i)
            &&& after.external_overlay_window is Some <==> exists|i: int| #[trigger] flagged(ws, 4, i)
            &&& after.focus_state.dirty == (targets.focus_state.dirty || after.overlay_window
                != targets.overlay_window || after.notification_window != targets.notification_window
                || after.external_overlay_window != targets.external_overlay_window)
            &&& after.focus_state.requested_focus == targets.focus_state.requested_focus
            &&& after.focused_window == targets.focused_window
            &&& after.focused_x11_window == targets.focused_x11_window
        }),
{
    most_opaque_is_chosen(ws, 1);
    most_opaque_is_chosen(ws, 2);
    most_opaque_is_chosen(ws, 4);
}

/// Nothing ranks below a window that is not registered, and a request is
/// forgotten exactly when its window is there.
pub proof fn unregistered_windows_rank_last(w: Window, key: PriorityKey, cands: Seq<Window>, fs: focus::FocusState)
    ensures
        w.meta is None ==> !focus::key_below(key, window_key(w)),
        w.meta matches Some(m) ==> window_key(w) == focus::priority_key(m),
        fs.requested_focus matches Some(id) ==> {
            &&& state::by_x11(cands, id) is Some ==> after_pick(cands, fs).requested_focus is None
            &&& state::by_x11(cands, id) is None ==> after_pick(cands, fs) == fs
        },
        fs.requested_focus is None ==> after_pick(cands, fs) == fs,
        after_pick(cands, fs).dirty == fs.dirty,
{
}

} // verus!
