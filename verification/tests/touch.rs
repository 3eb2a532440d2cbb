use moonshine::control::touch::{Pen, PenToolKind, PointerEventKind, Touch};

#[test]
fn parses_touch_payload() {
    let mut payload = [0_u8; 28];
    payload[0] = PointerEventKind::Down as u8;
    payload[4..8].copy_from_slice(&42_u32.to_le_bytes());
    payload[8..12].copy_from_slice(&0.25_f32.to_le_bytes());
    payload[12..16].copy_from_slice(&0.75_f32.to_le_bytes());

    let touch = Touch::from_bytes(&payload).unwrap();
    assert_eq!(touch.event_kind, PointerEventKind::Down);
    assert_eq!(touch.pointer_id, 42);
    assert_eq!(f32::from_bits(touch.x_bits), 0.25);
    assert_eq!(f32::from_bits(touch.y_bits), 0.75);
}

#[test]
fn parses_pen_payload() {
    let mut payload = [0_u8; 28];
    payload[0] = PointerEventKind::Move as u8;
    payload[1] = PenToolKind::Pen as u8;
    payload[2] = 0x02;
    payload[4..8].copy_from_slice(&0.25_f32.to_le_bytes());
    payload[8..12].copy_from_slice(&0.75_f32.to_le_bytes());
    payload[12..16].copy_from_slice(&0.6_f32.to_le_bytes());
    payload[16..18].copy_from_slice(&270_u16.to_le_bytes());
    payload[18] = 35;

    let pen = Pen::from_bytes(&payload).unwrap();
    assert_eq!(pen.event_kind, PointerEventKind::Move);
    assert_eq!(pen.tool_kind, PenToolKind::Pen);
    assert_eq!(pen.buttons, 0x02);
    assert_eq!(f32::from_bits(pen.x_bits), 0.25);
    assert_eq!(f32::from_bits(pen.y_bits), 0.75);
    assert_eq!(f32::from_bits(pen.pressure_bits), 0.6);
    assert_eq!(pen.rotation, 270);
    assert_eq!(pen.tilt, 35);
}

#[test]
fn rejects_invalid_pointer_payloads() {
    assert!(Touch::from_bytes(&[0; 27]).is_err());

    let mut touch = [0_u8; 28];
    touch[0] = PointerEventKind::Move as u8;
    touch[8..12].copy_from_slice(&f32::NAN.to_le_bytes());
    assert!(Touch::from_bytes(&touch).is_err());

    let mut pen = [0_u8; 28];
    pen[0] = PointerEventKind::Move as u8;
    pen[1] = PenToolKind::Pen as u8;
    pen[12..16].copy_from_slice(&f32::INFINITY.to_le_bytes());
    assert!(Pen::from_bytes(&pen).is_err());
}

#[test]
fn only_events_with_a_place_need_finite_numbers() {
    for kind in 0..=8_u8 {
        let mut payload = [0xff_u8; 28];
        payload[0] = kind;
        payload[1] = 0;
        assert_eq!(Touch::from_bytes(&payload).is_ok(), (4..8).contains(&kind));
        assert_eq!(Pen::from_bytes(&payload).is_ok(), (4..8).contains(&kind));
        payload[1] = 3;
        assert!(Pen::from_bytes(&payload).is_err());
    }
}
