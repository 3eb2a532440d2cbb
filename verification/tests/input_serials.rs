use moonshine::compositor::input_serials::{InputSerials, CAPACITY};

#[test]
fn only_a_delivered_action_authorizes_its_recipient() {
    let mut serials = InputSerials::default();
    assert!(!serials.contains(7, &"menu client"));
    serials.record(7, "menu client");
    assert!(serials.contains(7, &"menu client"));
    assert!(!serials.contains(7, &"other client"));
    assert!(!serials.contains(8, &"menu client"));
}

#[test]
fn recent_actions_survive_later_actions_and_can_authorize_submenus() {
    let mut serials = InputSerials::default();
    serials.record(10, "menu client");
    serials.record(11, "menu client");
    assert!(serials.contains(10, &"menu client"));
    assert!(serials.contains(10, &"menu client"));
    assert!(serials.contains(11, &"menu client"));
}

#[test]
fn bounded_history_expires_old_actions_and_handles_serial_wrap() {
    let mut serials = InputSerials::default();
    for offset in 0..=CAPACITY as u32 {
        serials.record(u32::MAX.wrapping_add(offset), 1);
    }
    assert!(!serials.contains(u32::MAX, &1));
    assert!(serials.contains(0, &1));
    assert!(serials.contains(CAPACITY as u32 - 1, &1));
    assert_eq!(serials.entries.len(), CAPACITY);
}

#[test]
fn focus_loss_revokes_old_actions() {
    let mut serials = InputSerials::default();
    serials.record(10, "menu client");
    serials.clear();
    assert!(!serials.contains(10, &"menu client"));
}
