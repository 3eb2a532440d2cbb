use moonshine::compositor::focus::Rectangle;
use moonshine::compositor::input_serials::InputSerials;
use moonshine::compositor::popups::{
    current_grab_descends_from, pointer_is_stale, record_input_serial, refresh_popups, unconstrain_popup, DeviceGrab,
    GrabDecision, GrabRequest, PointerTarget, PopupNode, PopupRefresh, PopupTouch, Reconciled, ShownPopup,
};
use moonshine::compositor::state::MoonshineCompositor;

const ROOT: u64 = 1;
const MENU: u64 = 2;
const SUBMENU: u64 = 3;
const CLIENT: u64 = 50;

/// A request on the root window for the press that was recorded with serial 7.
fn request() -> GrabRequest {
    GrabRequest {
        root: Some(ROOT),
        shown: true,
        own_seat: true,
        client: Some(CLIENT),
        serial: 7,
        focused_surface: Some(ROOT),
        keyboard: DeviceGrab::Free,
        pointer: DeviceGrab::OwnPress,
        touch: DeviceGrab::Free,
        parent: ROOT,
        parent_is_popup: false,
        parent_shown: false,
        current: None,
    }
}

fn serials() -> InputSerials<u64> {
    let mut serials = InputSerials::default();
    record_input_serial(&mut serials, 7, Some(CLIENT));
    record_input_serial(&mut serials, 8, None);
    serials
}

/// A compositor whose screen is painted.
fn painted() -> MoonshineCompositor {
    let mut c = MoonshineCompositor::new(800, 600);
    assert!(c.targets.screen_dirty, "nothing is painted at first");
    c.targets.screen_dirty = false;
    c
}

/// Decides a request; a popup that is dismissed, and no other, leaves the
/// screen to be painted anew.
fn grab_popup(serials: &InputSerials<u64>, r: &GrabRequest) -> GrabDecision {
    let mut c = painted();
    let decision = c.grab_popup(serials, r);
    assert_eq!(c.targets.screen_dirty, decision == GrabDecision::Dismiss);
    decision
}

fn dismiss_popup_branch(nodes: &[PopupNode], grabs: &mut Vec<u64>, target: u64) {
    let mut c = painted();
    c.dismiss_popup_branch(nodes, grabs, target);
    assert!(c.targets.screen_dirty);
}

fn popup_touch_down(ended: bool, touched: Option<u64>, grabbing: Option<u64>) -> PopupTouch {
    let mut c = painted();
    let decision = c.popup_touch_down(ended, touched, grabbing);
    assert_eq!(c.targets.screen_dirty, decision == PopupTouch::DismissAll);
    decision
}

#[test]
fn a_press_lets_its_client_open_a_menu() {
    assert_eq!(grab_popup(&serials(), &request()), GrabDecision::Grant);
    let submenu = GrabRequest {
        parent: MENU,
        parent_is_popup: true,
        parent_shown: true,
        current: Some(MENU),
        keyboard: DeviceGrab::Popup,
        pointer: DeviceGrab::Popup,
        touch: DeviceGrab::Popup,
        ..request()
    };
    assert_eq!(grab_popup(&serials(), &submenu), GrabDecision::Grant);
}

#[test]
fn popup_unknown_input_serial_cannot_steal_the_seat_grab() {
    let unknown = GrabRequest { serial: u32::MAX - 17, ..request() };
    assert_eq!(
        grab_popup(&serials(), &unknown),
        GrabDecision::Dismiss,
        "unauthorized grab must be dismissed"
    );
    assert_eq!(grab_popup(&serials(), &GrabRequest { serial: 8, ..request() }), GrabDecision::Dismiss);
    assert_eq!(grab_popup(&serials(), &GrabRequest { client: None, ..request() }), GrabDecision::Dismiss);
}

#[test]
fn popup_input_serial_delivered_to_another_client_cannot_authorize_a_grab() {
    let other = GrabRequest { client: Some(CLIENT + 1), ..request() };
    assert_eq!(
        grab_popup(&serials(), &other),
        GrabDecision::Dismiss,
        "a real serial delivered to a different Wayland client must not authorize a grab"
    );
}

#[test]
fn popup_grab_requested_on_another_seat_is_rejected() {
    let other = GrabRequest { own_seat: false, ..request() };
    assert_eq!(
        grab_popup(&serials(), &other),
        GrabDecision::Dismiss,
        "a serial from the streaming seat cannot authorize a different seat"
    );
}

#[test]
fn popup_grab_with_a_non_grabbing_popup_parent_is_a_protocol_error() {
    let child = GrabRequest { parent: MENU, parent_is_popup: true, parent_shown: true, ..request() };
    assert_eq!(
        grab_popup(&serials(), &child),
        GrabDecision::ProtocolError,
        "a popup without an explicit grab cannot parent a grabbing popup"
    );
    let beside = GrabRequest { current: Some(MENU), ..request() };
    assert_eq!(grab_popup(&serials(), &beside), GrabDecision::ProtocolError);
}

#[test]
fn popup_denied_before_mapping_cannot_be_regrabbed_as_an_invisible_menu() {
    let denied = GrabRequest { serial: u32::MAX - 99, ..request() };
    assert_eq!(grab_popup(&serials(), &denied), GrabDecision::Dismiss);
    let again = GrabRequest { shown: false, ..request() };
    assert_eq!(
        grab_popup(&serials(), &again),
        GrabDecision::Done,
        "a dismissed popup cannot reacquire input while absent from the rendered tree"
    );
    assert_eq!(grab_popup(&serials(), &GrabRequest { root: None, ..request() }), GrabDecision::Done);
}

#[test]
fn popup_child_of_a_dismissed_grabbing_parent_is_immediately_dismissed() {
    let child = GrabRequest { parent: MENU, parent_is_popup: true, ..request() };
    assert_eq!(
        grab_popup(&serials(), &child),
        GrabDecision::Dismiss,
        "an in-flight submenu request cannot revive its already dismissed parent grab"
    );
}

#[test]
fn foreign_grabs_and_other_windows_stand_in_the_way() {
    for r in [
        GrabRequest { keyboard: DeviceGrab::Other, ..request() },
        GrabRequest { keyboard: DeviceGrab::OwnPress, ..request() },
        GrabRequest { pointer: DeviceGrab::Other, ..request() },
        GrabRequest { touch: DeviceGrab::Other, ..request() },
        GrabRequest { focused_surface: Some(9), ..request() },
        GrabRequest { focused_surface: None, ..request() },
    ] {
        assert_eq!(grab_popup(&serials(), &r), GrabDecision::Dismiss);
    }
}

#[test]
fn popup_destroying_an_inactive_window_does_not_dismiss_the_active_menu() {
    let mut c = painted();
    let gone = c.dismiss_popups_for_window(Some(20), Some(10), &[3, 4]);
    assert!(!gone.ungrab, "destroying another window must not cancel the active root's menu");
    assert_eq!(gone.popups, vec![4, 3]);
    assert!(c.targets.screen_dirty);
    let mut c = painted();
    assert!(c.dismiss_popups_for_window(Some(20), Some(20), &[]).ungrab);
    let all = c.dismiss_popups_for_window(Some(20), None, &[3]);
    assert!(all.ungrab && all.popups.is_empty());
    assert!(!c.dismiss_popups_for_window(None, None, &[]).ungrab);
    assert!(c.targets.screen_dirty);
}

fn tree() -> [PopupNode; 3] {
    [
        PopupNode { surface: SUBMENU, parent: Some(MENU) },
        PopupNode { surface: MENU, parent: Some(ROOT) },
        PopupNode { surface: 4, parent: Some(ROOT) },
    ]
}

#[test]
fn popup_null_unmapping_a_grabbed_submenu_restores_its_parent_menu() {
    let mut grabs = vec![MENU, SUBMENU];
    dismiss_popup_branch(&tree(), &mut grabs, SUBMENU);
    assert_eq!(grabs, vec![MENU], "unmapping the topmost submenu must not dismiss its parent");
}

#[test]
fn popup_null_unmapping_a_tooltip_does_not_release_another_popups_grab() {
    let mut grabs = vec![MENU];
    dismiss_popup_branch(&tree(), &mut grabs, 4);
    assert_eq!(grabs, vec![MENU], "a non-grabbing tooltip must not dismiss the menu's grab");
}

#[test]
fn a_menu_takes_its_submenus_along() {
    let mut grabs = vec![MENU, SUBMENU];
    dismiss_popup_branch(&tree(), &mut grabs, MENU);
    assert!(grabs.is_empty());
    let mut grabs = vec![MENU, SUBMENU];
    dismiss_popup_branch(&tree(), &mut grabs, ROOT);
    assert!(grabs.is_empty());
    assert!(current_grab_descends_from(&tree(), &[MENU, SUBMENU], ROOT));
    assert!(!current_grab_descends_from(&tree(), &[MENU], SUBMENU));
    assert!(!current_grab_descends_from(&tree(), &[], ROOT));
    let circle = [PopupNode { surface: 1, parent: Some(2) }, PopupNode { surface: 2, parent: Some(1) }];
    assert!(!current_grab_descends_from(&circle, &[1], 3));
}

#[test]
fn the_seat_is_brought_in_line_with_the_grab() {
    let r = |grab, ended, alive| {
        let mut c = painted();
        let reconciled = c.reconcile_popup_grab(
            grab,
            ended,
            Some(5),
            alive,
            DeviceGrab::Popup,
            DeviceGrab::Other,
            DeviceGrab::Popup,
        );
        assert_eq!(c.targets.screen_dirty, grab && ended);
        reconciled
    };
    assert_eq!(r(false, true, true), None);
    assert_eq!(
        r(true, true, true),
        Some(Reconciled {
            ended: true,
            unset_keyboard: true,
            unset_pointer: false,
            unset_touch: true,
            focus: Some(5),
        })
    );
    assert_eq!(
        r(true, false, false),
        Some(Reconciled {
            ended: false,
            unset_keyboard: false,
            unset_pointer: false,
            unset_touch: false,
            focus: None,
        })
    );
    let at = |surface, x| Some(PointerTarget { surface, x, y: 5 });
    assert!(!pointer_is_stale(at(1, 3), Some(1), at(1, 3)));
    assert!(pointer_is_stale(at(2, 3), Some(1), at(1, 3)));
    assert!(pointer_is_stale(at(1, 4), Some(1), at(1, 3)));
    assert!(pointer_is_stale(at(1, 3), None, at(1, 3)));
    assert!(!pointer_is_stale(None, None, None));
}

#[test]
fn popups_are_gone_through_from_the_back() {
    let popup = |surface, parent, reactive| ShownPopup { surface, parent, reactive };
    let popups = [popup(3, Some(2), true), popup(2, Some(1), false), popup(4, None, true)];
    assert_eq!(
        refresh_popups(&popups),
        vec![(4, PopupRefresh::Dismiss), (2, PopupRefresh::Keep), (3, PopupRefresh::Reposition)]
    );
}

#[test]
fn popups_see_the_output_from_their_own_place() {
    let output = Rectangle { x: 0, y: 0, w: 800, h: 600 };
    assert_eq!(
        unconstrain_popup(output, (10, 20), (30, -5)),
        Rectangle { x: -40, y: -15, w: 800, h: 600 }
    );
}

#[test]
fn touches_elsewhere_dismiss_the_menus() {
    assert_eq!(popup_touch_down(false, Some(CLIENT), Some(CLIENT)), PopupTouch::Forward);
    assert_eq!(popup_touch_down(false, Some(9), Some(CLIENT)), PopupTouch::DismissAll);
    assert_eq!(popup_touch_down(false, None, None), PopupTouch::DismissAll);
    assert_eq!(popup_touch_down(true, Some(CLIENT), Some(CLIENT)), PopupTouch::Release);
}
