//! Popup menus: which may grab the seat, and what their going away releases.
use vstd::prelude::*;

use crate::compositor::focus::Rectangle;
use crate::compositor::input_serials;
use crate::compositor::input_serials::InputSerials;
use crate::compositor::state::MoonshineCompositor;

verus! {

// ---------------------------------------------------------------------------
// Grab requests
// ---------------------------------------------------------------------------

/// What holds an input device of the seat.
#[derive(Clone, Copy, Debug, PartialEq, Eq, Structural)]
pub enum DeviceGrab {
    /// Nothing, or there is no such device.
    Free,
    /// A popup grab.
    Popup,
    /// A press or touch that began on the client of the popup's root.
    OwnPress,
    /// Anything else.
    Other,
}

/// A popup's request to grab the seat.
#[derive(Clone, Copy, Debug, PartialEq, Eq, Structural)]
pub struct GrabRequest {
    /// The toplevel surface at the root of the popup, if there is one.
    pub root: Option<u64>,
    /// The popup is part of a tree that is shown.
    pub shown: bool,
    /// The request is for the seat that is streamed to.
    pub own_seat: bool,
    /// The client that the popup belongs to.
    pub client: Option<u64>,
    /// The serial that the request refers to.
    pub serial: u32,
    /// The surface of the focused window.
    pub focused_surface: Option<u64>,
    /// What holds the keyboard.
    pub keyboard: DeviceGrab,
    /// What holds the pointer.
    pub pointer: DeviceGrab,
    /// What holds the touchscreen.
    pub touch: DeviceGrab,
    /// The surface that the popup is a child of.
    pub parent: u64,
    /// That surface is a popup itself.
    pub parent_is_popup: bool,
    /// That popup is part of a tree that is shown.
    pub parent_shown: bool,
    /// The surface of the popup that has the grab, if one has.
    pub current: Option<u64>,
}

/// What becomes of a grab request.
#[derive(Clone, Copy, Debug, PartialEq, Eq, Structural)]
pub enum GrabDecision {
    /// Tell the popup that it is done.
    Done,
    /// Dismiss the popup.
    Dismiss,
    /// The client broke the protocol: the popup's parent is not the topmost
    /// grabbing popup.
    ProtocolError,
    /// Grant the grab.
    Grant,
}

/// The action that the request refers to was delivered to its client.
pub open spec fn authorized(actions: Seq<(u32, u64)>, request: GrabRequest) -> bool {
    request.client is Some && exists|i: int|
        0 <= i < actions.len() && #[trigger] actions[i] == (request.serial, request.client->0)
}

/// The request is for this seat, goes back to a delivered action, is for the
/// focused window, and no foreign grab is in its way.
pub open spec fn grab_valid(actions: Seq<(u32, u64)>, r: GrabRequest) -> bool {
    &&& r.own_seat
    &&& authorized(actions, r)
    &&& r.focused_surface == r.root
    &&& r.keyboard == DeviceGrab::Free || r.keyboard == DeviceGrab::Popup
    &&& r.pointer != DeviceGrab::Other
    &&& r.touch != DeviceGrab::Other
}

/// What becomes of a grab request.
pub open spec fn grab_decision(actions: Seq<(u32, u64)>, r: GrabRequest) -> GrabDecision {
    if r.root is None || !r.shown {
        GrabDecision::Done
    } else if !grab_valid(actions, r) || (r.parent_is_popup && !r.parent_shown) {
        GrabDecision::Dismiss
    } else if (r.current is Some && r.current != Some(r.parent)) || (r.parent_is_popup && r.current is None) {
        GrabDecision::ProtocolError
    } else {
        GrabDecision::Grant
    }
}

/// A grab is granted only to a client that got the action it refers to, on
/// the focused window, and only above the topmost grab.
pub proof fn granted_grabs_are_authorized(actions: Seq<(u32, u64)>, r: GrabRequest)
    requires
        grab_decision(actions, r) == GrabDecision::Grant,
    ensures
        authorized(actions, r),
        r.own_seat,
        r.root is Some && r.focused_surface == r.root,
        r.current is None || r.current == Some(r.parent),
        r.parent_is_popup ==> r.parent_shown && r.current == Some(r.parent),
{
}

/// Decides a grab request; see [`grab_decision`].
fn decide_grab(serials: &InputSerials<u64>, r: &GrabRequest) -> (d: GrabDecision)
    ensures
        d == grab_decision(serials.entries@, *r),
{
    if r.root.is_none() || !r.shown {
        return GrabDecision::Done;
    }
    let authorized = match r.client {
        Some(client) => {
            let found = serials.contains(r.serial, &client);
            proof {
                if found {
                    let i = choose|i: int|
                        input_serials::is_action(serials.entries@, r.serial, client, i);
                    assert(serials.entries@[i] == (r.serial, client));
                } else if authorized(serials.entries@, *r) {
                    let i = choose|i: int|
                        0 <= i < serials.entries@.len() && #[trigger] serials.entries@[i] == (
                            r.serial,
                            r.client->0,
                        );
                    assert(input_serials::is_action(serials.entries@, r.serial, client, i));
                }
            }
            found
        },
        None => false,
    };
    let valid = r.own_seat && authorized && r.focused_surface == r.root && (r.keyboard
        == DeviceGrab::Free || r.keyboard == DeviceGrab::Popup) && r.pointer != DeviceGrab::Other
        && r.touch != DeviceGrab::Other;
    if !valid {
        return GrabDecision::Dismiss;
    }
    if r.parent_is_popup && !r.parent_shown {
        return GrabDecision::Dismiss;
    }
    let other_on_top = match r.current {
        Some(surface) => surface != r.parent,
        None => r.parent_is_popup,
    };
    if other_on_top {
        return GrabDecision::ProtocolError;
    }
    GrabDecision::Grant
}

impl MoonshineCompositor {
    /// Decides a grab request; see [`grab_decision`]. A popup that is dismissed
    /// leaves the screen to be painted anew; nothing else changes before a
    /// grab is granted.
    pub fn grab_popup(&mut self, serials: &InputSerials<u64>, r: &GrabRequest) -> (d: GrabDecision)
        ensures
            d == grab_decision(serials.entries@, *r),
            *final(self) == old(self).painted_anew_if(d == GrabDecision::Dismiss),
    {
        let d = decide_grab(serials, r);
        if d == GrabDecision::Dismiss {
            self.targets.screen_dirty = true;
        }
        d
    }
}

/// A popup without an action that was delivered to its client, for another
/// seat or for a window without the focus gets no grab: it is dismissed, and
/// the screen is painted anew.
pub proof fn unauthorized_grabs_are_dismissed(
    c: MoonshineCompositor,
    actions: Seq<(u32, u64)>,
    r: GrabRequest,
)
    requires
        r.root is Some,
        r.shown,
        !r.own_seat || !authorized(actions, r) || r.focused_surface != r.root,
    ensures
        grab_decision(actions, r) == GrabDecision::Dismiss,
        c.painted_anew_if(grab_decision(actions, r) == GrabDecision::Dismiss).targets.screen_dirty,
{
}

/// Records an action for the client of the surface that it was delivered to,
/// where there is one.
pub fn record_input_serial(serials: &mut InputSerials<u64>, serial: u32, client: Option<u64>)
    ensures
        final(serials).entries@ == match client {
            Some(c) => input_serials::recorded(old(serials).entries@, serial, c),
            None => old(serials).entries@,
        },
{
    if let Some(c) = client {
        serials.record(serial, c);
    }
}

// ---------------------------------------------------------------------------
// Releasing grabs
// ---------------------------------------------------------------------------

/// A popup that is shown, and the surface that it is a child of; `None` once
/// it was unmapped.
#[derive(Clone, Copy, Debug, PartialEq, Eq, Structural)]
pub struct PopupNode {
    pub surface: u64,
    pub parent: Option<u64>,
}

/// The parent of the popup that shows `surface`; `None` where no popup does,
/// or that has none.
pub open spec fn popup_parent(nodes: Seq<PopupNode>, surface: u64) -> Option<u64>
    decreases nodes.len(),
{
    if nodes.len() == 0 {
        None
    } else if nodes[0].surface == surface {
        nodes[0].parent
    } else {
        popup_parent(nodes.skip(1), surface)
    }
}

/// Whether `ancestor` is `surface` or met going up from it in at most `links`
/// steps.
pub open spec fn descends(nodes: Seq<PopupNode>, surface: u64, ancestor: u64, links: nat) -> bool
    decreases links,
{
    surface == ancestor || (links > 0 && popup_parent(nodes, surface) is Some && descends(
        nodes,
        popup_parent(nodes, surface)->0,
        ancestor,
        (links - 1) as nat,
    ))
}

/// Finds the parent of a popup; see [`popup_parent`].
fn find_popup_parent(nodes: &[PopupNode], surface: u64) -> (r: Option<u64>)
    ensures
        r == popup_parent(nodes@, surface),
{
    let mut i: usize = 0;
    proof {
        assert(nodes@.skip(0) == nodes@);
    }
    while i < nodes.len()
        invariant
            i <= nodes@.len(),
            popup_parent(nodes@, surface) == popup_parent(nodes@.skip(i as int), surface),
        decreases nodes@.len() - i,
    {
        if nodes[i].surface == surface {
            return nodes[i].parent;
        }
        proof {
            assert(nodes@.skip(i as int).skip(1) == nodes@.skip(i + 1));
        }
        i += 1;
    }
    None
}

/// Whether the popup that has the grab is `ancestor` or below it. `grabs` are
/// the popups that grab the seat, the topmost last; a chain of parents is as
/// long as there are popups at most.
pub fn current_grab_descends_from(nodes: &[PopupNode], grabs: &[u64], ancestor: u64) -> (r: bool)
    ensures
        r == (grabs@.len() > 0 && descends(nodes@, grabs@.last(), ancestor, nodes@.len())),
{
    if grabs.len() == 0 {
        return false;
    }
    let mut current: u64 = grabs[grabs.len() - 1];
    let mut left: usize = nodes.len();
    loop
        invariant
            left <= nodes@.len(),
            grabs@.len() > 0,
            descends(nodes@, grabs@.last(), ancestor, nodes@.len()) == descends(
                nodes@,
                current,
                ancestor,
                left as nat,
            ),
        decreases left,
    {
        if current == ancestor {
            return true;
        }
        if left == 0 {
            return false;
        }
        match find_popup_parent(nodes, current) {
            Some(parent) => {
                current = parent;
            },
            None => return false,
        }
        left -= 1;
    }
}

/// The grabs that are left when the popup that shows `target` and all above
/// it let go: those below it, or none where it has no grab itself.
pub open spec fn released(grabs: Seq<u64>, target: u64) -> Seq<u64>
    decreases grabs.len(),
{
    if grabs.len() == 0 || grabs.last() == target {
        if grabs.len() == 0 {
            grabs
        } else {
            grabs.drop_last()
        }
    } else {
        released(grabs.drop_last(), target)
    }
}

/// The grabs that are left are the lower ones, unchanged, and the popup that
/// went is the lowest of those that let go.
pub proof fn released_keeps_lower_grabs(grabs: Seq<u64>, target: u64)
    ensures
        released(grabs, target).len() <= grabs.len(),
        released(grabs, target) == grabs.take(released(grabs, target).len() as int),
        grabs.contains(target) ==> released(grabs, target).len() < grabs.len() && grabs[released(
            grabs,
            target,
        ).len() as int] == target,
        !grabs.contains(target) ==> released(grabs, target).len() == 0,
    decreases grabs.len(),
{
    if grabs.len() > 0 {
        let below = grabs.drop_last();
        released_keeps_lower_grabs(below, target);
        if grabs.last() == target {
            assert(below == grabs.take(grabs.len() - 1));
            assert(grabs.contains(target));
        } else {
            let n = released(below, target).len() as int;
            assert(below.take(n) == grabs.take(n));
            if grabs.contains(target) {
                let i = grabs.index_of(target);
                assert(below[i] == target);
                assert(below.contains(target));
            }
            if below.contains(target) {
                let i = below.index_of(target);
                assert(grabs[i] == target);
            }
        }
    }
}

/// The grabs that are left after the popup that shows `target` went away: if
/// it has the grab or one above it has, those below it; else all.
pub open spec fn after_branch(nodes: Seq<PopupNode>, grabs: Seq<u64>, target: u64) -> Seq<u64> {
    if grabs.len() > 0 && descends(nodes, grabs.last(), target, nodes.len()) {
        released(grabs, target)
    } else {
        grabs
    }
}

/// Releases the grabs of a popup that went away; see [`after_branch`].
fn release_branch(nodes: &[PopupNode], grabs: &mut Vec<u64>, target: u64)
    ensures
        final(grabs)@ == after_branch(nodes@, old(grabs)@, target),
{
    if !current_grab_descends_from(nodes, grabs, target) {
        return ;
    }
    let ghost before = grabs@;
    while grabs.len() > 0
        invariant_except_break
            released(before, target) == released(grabs@, target),
        ensures
            released(before, target) == grabs@,
        decreases grabs@.len(),
    {
        let reached = grabs[grabs.len() - 1] == target;
        let ghost was = grabs@;
        grabs.pop();
        proof {
            assert(grabs@ == was.drop_last());
        }
        if reached {
            break;
        }
    }
}

/// What goes when a window loses its popups.
#[derive(Debug)]
pub struct WindowDismissal {
    /// Give up all grabs of popups.
    pub ungrab: bool,
    /// The popups to dismiss, in order.
    pub popups: Vec<u64>,
}

/// The grabs of popups are given up when `window`, or with `None` any window,
/// loses its popups: where the grab is rooted in that window.
pub open spec fn ungrabs_for_window(grab_window: Option<u64>, window: Option<u64>) -> bool {
    grab_window is Some && (window is None || window == grab_window)
}

impl MoonshineCompositor {
    /// A popup went away: if it has the grab or one above it has, the grab
    /// goes back to what is left below it; see [`after_branch`]. The screen is
    /// painted anew in any case.
    pub fn dismiss_popup_branch(&mut self, nodes: &[PopupNode], grabs: &mut Vec<u64>, target: u64)
        ensures
            final(grabs)@ == after_branch(nodes@, old(grabs)@, target),
            *final(self) == old(self).painted_anew_if(true),
    {
        release_branch(nodes, grabs, target);
        self.targets.screen_dirty = true;
    }

    /// `window`, or with `None` any window, loses its popups. `grab_window` is
    /// the window at the root of the grab, where there is a grab; `popups` are
    /// those of `window`, front to back, and are dismissed from the back. The
    /// screen is painted anew in any case.
    pub fn dismiss_popups_for_window(
        &mut self,
        grab_window: Option<u64>,
        window: Option<u64>,
        popups: &[u64],
    ) -> (r: WindowDismissal)
        ensures
            r.ungrab == ungrabs_for_window(grab_window, window),
            r.popups@ == if window is Some {
                popups@.reverse()
            } else {
                Seq::empty()
            },
            *final(self) == old(self).painted_anew_if(true),
    {
        let ungrab = match (grab_window, window) {
            (None, _) => false,
            (Some(_), None) => true,
            (Some(g), Some(w)) => g == w,
        };
        let mut dismissed: Vec<u64> = Vec::new();
        if window.is_some() {
            let mut i: usize = popups.len();
            while i > 0
                invariant
                    i <= popups@.len(),
                    dismissed@ == popups@.reverse().take(popups@.len() - i),
                decreases i,
            {
                i = i - 1;
                dismissed.push(popups[i]);
                assert(dismissed@ == popups@.reverse().take(popups@.len() - i));
            }
            assert(popups@.reverse().take(popups@.len() as int) == popups@.reverse());
        }
        self.targets.screen_dirty = true;
        WindowDismissal { ungrab, popups: dismissed }
    }
}

/// What brings the seat back in line with the popup grab.
#[derive(Clone, Copy, Debug, PartialEq, Eq, Structural)]
pub struct Reconciled {
    /// The grab is over.
    pub ended: bool,
    /// Release the keyboard, which a popup grab still holds.
    pub unset_keyboard: bool,
    /// Release the pointer, which a popup grab still holds.
    pub unset_pointer: bool,
    /// Release the touchscreen, which a popup grab still holds.
    pub unset_touch: bool,
    /// What gets the keyboard.
    pub focus: Option<u64>,
}

/// What brings the seat back in line with a popup grab, if there is one.
/// `focus` is what the grab gives the keyboard to, `alive` whether that still
/// exists.
pub open spec fn reconciled(
    grab: bool,
    ended: bool,
    focus: Option<u64>,
    alive: bool,
    keyboard: DeviceGrab,
    pointer: DeviceGrab,
    touch: DeviceGrab,
) -> Option<Reconciled> {
    if !grab {
        None
    } else {
        Some(
            Reconciled {
                ended,
                unset_keyboard: ended && keyboard == DeviceGrab::Popup,
                unset_pointer: ended && pointer == DeviceGrab::Popup,
                unset_touch: ended && touch == DeviceGrab::Popup,
                focus: if alive { focus } else { None },
            },
        )
    }
}

impl MoonshineCompositor {
    /// Brings the seat back in line with a popup grab; see [`reconciled`]. The
    /// screen is painted anew where the grab is over.
    pub fn reconcile_popup_grab(
        &mut self,
        grab: bool,
        ended: bool,
        focus: Option<u64>,
        alive: bool,
        keyboard: DeviceGrab,
        pointer: DeviceGrab,
        touch: DeviceGrab,
    ) -> (r: Option<Reconciled>)
        ensures
            r == reconciled(grab, ended, focus, alive, keyboard, pointer, touch),
            *final(self) == old(self).painted_anew_if(grab && ended),
    {
        if !grab {
            return None;
        }
        if ended {
            self.targets.screen_dirty = true;
        }
        Some(
            Reconciled {
                ended,
                unset_keyboard: ended && keyboard == DeviceGrab::Popup,
                unset_pointer: ended && pointer == DeviceGrab::Popup,
                unset_touch: ended && touch == DeviceGrab::Popup,
                focus: if alive {
                    focus
                } else {
                    None
                },
            },
        )
    }
}

/// A surface under the pointer, and where it begins.
#[derive(Clone, Copy, Debug, PartialEq, Eq, Structural)]
pub struct PointerTarget {
    pub surface: u64,
    pub x: i64,
    pub y: i64,
}

/// Whether the pointer has to be told of its surface: it is over another one
/// than it was told of, or over the same one at another place, or another one
/// has the pointer focus.
pub fn pointer_is_stale(
    told: Option<PointerTarget>,
    focus: Option<u64>,
    under: Option<PointerTarget>,
) -> (r: bool)
    ensures
        r == (told != under || focus != match under {
            Some(target) => Some(target.surface),
            None => None,
        }),
{
    let surface = match under {
        Some(target) => Some(target.surface),
        None => None,
    };
    told != under || focus != surface
}

/// What a popup needs when popups are gone through.
#[derive(Clone, Copy, Debug, PartialEq, Eq, Structural)]
pub enum PopupRefresh {
    /// It was unmapped: dismiss it and what is above it.
    Dismiss,
    /// It wants to be placed anew.
    Reposition,
    /// Nothing.
    Keep,
}

/// What a popup needs: dismissal without a parent, a new place if it is
/// reactive.
pub fn refresh_popup(parent: Option<u64>, reactive: bool) -> (r: PopupRefresh)
    ensures
        r == if parent is None {
            PopupRefresh::Dismiss
        } else if reactive {
            PopupRefresh::Reposition
        } else {
            PopupRefresh::Keep
        },
{
    if parent.is_none() {
        PopupRefresh::Dismiss
    } else if reactive {
        PopupRefresh::Reposition
    } else {
        PopupRefresh::Keep
    }
}

/// A popup that is gone through.
#[derive(Clone, Copy, Debug, PartialEq, Eq, Structural)]
pub struct ShownPopup {
    pub surface: u64,
    /// What it is a child of; `None` once it was unmapped.
    pub parent: Option<u64>,
    /// It wants to be placed anew whenever its surroundings change.
    pub reactive: bool,
}

/// What a popup needs; see [`refresh_popup`].
pub open spec fn need_of(popup: ShownPopup) -> PopupRefresh {
    if popup.parent is None {
        PopupRefresh::Dismiss
    } else if popup.reactive {
        PopupRefresh::Reposition
    } else {
        PopupRefresh::Keep
    }
}

/// What the popups of one window need, in the order in which it is done.
/// `popups` is front to back; they are gone through from the back. Those to be
/// dismissed go by [`MoonshineCompositor::dismiss_popup_branch`].
pub fn refresh_popups(popups: &[ShownPopup]) -> (r: Vec<(u64, PopupRefresh)>)
    ensures
        r@.len() == popups@.len(),
        forall|i: int|
            #![trigger r@[i]]
            0 <= i < r@.len() ==> r@[i] == (
                popups@[popups@.len() - 1 - i].surface,
                need_of(popups@[popups@.len() - 1 - i]),
            ),
{
    let mut r: Vec<(u64, PopupRefresh)> = Vec::new();
    let mut i: usize = popups.len();
    while i > 0
        invariant
            i <= popups@.len(),
            r@.len() == popups@.len() - i,
            forall|k: int|
                #![trigger r@[k]]
                0 <= k < r@.len() ==> r@[k] == (
                    popups@[popups@.len() - 1 - k].surface,
                    need_of(popups@[popups@.len() - 1 - k]),
                ),
        decreases i,
    {
        i = i - 1;
        let popup = popups[i];
        r.push((popup.surface, refresh_popup(popup.parent, popup.reactive)));
    }
    r
}

/// A place is within range after the offsets were taken off.
pub open spec fn shifted_in_range(at: i32, window: i32, popup: i32) -> bool {
    &&& i32::MIN <= window + popup <= i32::MAX
    &&& i32::MIN <= at - (window + popup) <= i32::MAX
}

/// The room that a popup has, seen from what it is placed against: the output
/// less the place of the window and of the popup in it.
pub fn unconstrain_popup(output: Rectangle, window: (i32, i32), popup: (i32, i32)) -> (r: Rectangle)
    requires
        shifted_in_range(output.x, window.0, popup.0),
        shifted_in_range(output.y, window.1, popup.1),
    ensures
        r == (Rectangle {
            x: (output.x - (window.0 + popup.0)) as i32,
            y: (output.y - (window.1 + popup.1)) as i32,
            ..output
        }),
{
    Rectangle {
        x: output.x - (window.0 + popup.0),
        y: output.y - (window.1 + popup.1),
        w: output.w,
        h: output.h,
    }
}

// ---------------------------------------------------------------------------
// Touch
// ---------------------------------------------------------------------------

/// What becomes of a finger put down while a popup has the grab.
#[derive(Clone, Copy, Debug, PartialEq, Eq, Structural)]
pub enum PopupTouch {
    /// The grab is over: release it and let the touch through.
    Release,
    /// Hand the touch to its surface.
    Forward,
    /// Give up all popup grabs and let the touch through.
    DismissAll,
}

/// What becomes of a finger put down: a touch on the client of the grabbing
/// popup goes to its surface, one elsewhere dismisses the popups. `touched`
/// is the client that was touched, `grabbing` that of the grabbing popup.
pub open spec fn touch_decision(ended: bool, touched: Option<u64>, grabbing: Option<u64>) -> PopupTouch {
    if ended {
        PopupTouch::Release
    } else if touched is Some && touched == grabbing {
        PopupTouch::Forward
    } else {
        PopupTouch::DismissAll
    }
}

impl MoonshineCompositor {
    /// Decides what becomes of a finger put down; see [`touch_decision`]. The
    /// screen is painted anew where the popups are dismissed.
    pub fn popup_touch_down(&mut self, ended: bool, touched: Option<u64>, grabbing: Option<u64>) -> (r:
        PopupTouch)
        ensures
            r == touch_decision(ended, touched, grabbing),
            *final(self) == old(self).painted_anew_if(r == PopupTouch::DismissAll),
    {
        if ended {
            return PopupTouch::Release;
        }
        if let (Some(t), Some(g)) = (touched, grabbing) {
            if t == g {
                return PopupTouch::Forward;
            }
        }
        self.targets.screen_dirty = true;
        PopupTouch::DismissAll
    }
}

/// A grab is granted exactly to a popup that is shown at a root window with
/// the focus, for this seat, by a client that got the action it refers to, with
/// no foreign grab in its way, and above the topmost grab.
pub proof fn lawful_grabs_are_granted(actions: Seq<(u32, u64)>, r: GrabRequest)
    ensures
        grab_decision(actions, r) == GrabDecision::Grant <==> {
            &&& r.root is Some && r.shown && r.own_seat && r.focused_surface == r.root
            &&& r.client matches Some(c) && actions.contains((r.serial, c))
            &&& !(r.keyboard is Other) && !(r.keyboard is OwnPress) && !(r.pointer is Other) && !(
            r.touch is Other)
            &&& if r.parent_is_popup {
                r.parent_shown && r.current == Some(r.parent)
            } else {
                r.current is None || r.current == Some(r.parent)
            }
        },
        grab_decision(actions, r) == GrabDecision::Done <==> r.root is None || !r.shown,
{
    if r.client is Some {
        let wanted = (r.serial, r.client->0);
        if actions.contains(wanted) {
            let i = choose|i: int| 0 <= i < actions.len() && actions[i] == wanted;
            assert(actions[i] == wanted);
        }
    }
}

/// The parent of a popup is what the first node of its surface says, and a
/// popup belongs to itself, to its parent, and to what its parent belongs to.
pub proof fn popups_belong_to_their_parents(nodes: Seq<PopupNode>, surface: u64, ancestor: u64, links: nat, i: int)
    ensures
        0 <= i < nodes.len() && nodes[i].surface == surface && (forall|j: int|
            0 <= j < i ==> (#[trigger] nodes[j]).surface != surface) ==> popup_parent(nodes, surface)
            == nodes[i].parent,
        (forall|j: int| 0 <= j < nodes.len() ==> (#[trigger] nodes[j]).surface != surface) ==> popup_parent(
            nodes,
            surface,
        ) is None,
        descends(nodes, surface, surface, links),
        popup_parent(nodes, surface) is None && surface != ancestor ==> !descends(
            nodes,
            surface,
            ancestor,
            links,
        ),
        popup_parent(nodes, surface) matches Some(p) ==> (descends(nodes, p, ancestor, links) ==> descends(
            nodes,
            surface,
            ancestor,
            links + 1,
        )),
    decreases nodes.len(),
{
    if nodes.len() > 0 {
        let rest = nodes.skip(1);
        assert(forall|j: int| 0 <= j < rest.len() ==> rest[j] == nodes[j + 1]);
        popups_belong_to_their_parents(rest, surface, ancestor, links, i - 1);
        if 0 <= i < nodes.len() && nodes[i].surface == surface && (forall|j: int|
            0 <= j < i ==> (#[trigger] nodes[j]).surface != surface) && i > 0 {
            assert(nodes[0].surface != surface);
            assert forall|j: int| 0 <= j < i - 1 implies (#[trigger] rest[j]).surface != surface by {
                assert(nodes[j + 1].surface != surface);
            }
        }
        if forall|j: int| 0 <= j < nodes.len() ==> (#[trigger] nodes[j]).surface != surface {
            assert(nodes[0].surface != surface);
            assert forall|j: int| 0 <= j < rest.len() implies (#[trigger] rest[j]).surface != surface by {
                assert(nodes[j + 1].surface != surface);
            }
        }
    }
}

/// A popup that went away takes the grabs above it along where the topmost
/// grab belongs to it, and none otherwise.
pub proof fn branches_let_go(nodes: Seq<PopupNode>, grabs: Seq<u64>, target: u64)
    ensures
        grabs.len() == 0 ==> after_branch(nodes, grabs, target).len() == 0,
        grabs.len() > 0 && grabs.last() == target ==> after_branch(nodes, grabs, target) == grabs.drop_last(),
        grabs.len() > 0 && !descends(nodes, grabs.last(), target, nodes.len()) ==> after_branch(
            nodes,
            grabs,
            target,
        ) == grabs,
        grabs.len() > 0 && descends(nodes, grabs.last(), target, nodes.len()) && grabs.contains(target) ==> {
            let left = after_branch(nodes, grabs, target);
            left.len() < grabs.len() && grabs[left.len() as int] == target && left == grabs.take(
                left.len() as int,
            )
        },
{
    released_keeps_lower_grabs(grabs, target);
}

/// A touch on the grabbing client goes through to it, one elsewhere dismisses
/// the popups, and one after the grab was over just releases it.
pub proof fn touches_elsewhere_dismiss(touched: Option<u64>, grabbing: Option<u64>)
    ensures
        touch_decision(true, touched, grabbing) == PopupTouch::Release,
        touched is Some && touched == grabbing ==> touch_decision(false, touched, grabbing)
            == PopupTouch::Forward,
        touched is None || touched != grabbing ==> touch_decision(false, touched, grabbing)
            == PopupTouch::DismissAll,
        ungrabs_for_window(grabbing, None) == (grabbing is Some),
        ungrabs_for_window(None, touched) == false,
        touched is Some ==> ungrabs_for_window(grabbing, touched) == (touched == grabbing),
        forall|p: ShownPopup|
            (#[trigger] need_of(p)) == (if p.parent is None {
                PopupRefresh::Dismiss
            } else if p.reactive {
                PopupRefresh::Reposition
            } else {
                PopupRefresh::Keep
            }),
{
}

/// Once a grab is over, exactly the devices that a popup still holds are
/// released; before, none is. The keyboard goes to what the grab gives it to,
/// as long as that exists. Without a grab there is nothing to do.
pub proof fn devices_are_released_with_the_grab(
    ended: bool,
    focus: Option<u64>,
    alive: bool,
    keyboard: DeviceGrab,
    pointer: DeviceGrab,
    touch: DeviceGrab,
)
    ensures
        reconciled(false, ended, focus, alive, keyboard, pointer, touch) is None,
        reconciled(true, ended, focus, alive, keyboard, pointer, touch) matches Some(r) && {
            &&& r.ended == ended
            &&& !ended ==> !r.unset_keyboard && !r.unset_pointer && !r.unset_touch
            &&& ended ==> r.unset_keyboard == (keyboard is Popup) && r.unset_pointer == (pointer is Popup)
                && r.unset_touch == (touch is Popup)
            &&& alive ==> r.focus == focus
            &&& !alive ==> r.focus is None
        },
{
}

/// A popup whose parent is gone is dismissed; one with a parent is placed anew
/// exactly if it wants to be.
pub proof fn popups_get_what_they_need(popup: ShownPopup)
    ensures
        need_of(popup) is Dismiss <==> popup.parent is None,
        need_of(popup) is Reposition <==> popup.parent is Some && popup.reactive,
        need_of(popup) is Keep <==> popup.parent is Some && !popup.reactive,
{
}

} // verus!
