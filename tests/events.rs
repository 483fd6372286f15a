use beryllium::event::{decode_event, poll_result, Event, EVENT_RECORD_SIZE};

fn record(kind: u32) -> Vec<u8> {
    let mut b = vec![0u8; EVENT_RECORD_SIZE];
    b[0..4].copy_from_slice(&kind.to_le_bytes());
    b
}

fn put_u32(b: &mut [u8], off: usize, v: u32) {
    b[off..off + 4].copy_from_slice(&v.to_le_bytes());
}

#[test]
fn empty_queue_gives_none() {
    let b = record(0x100);
    assert_eq!(poll_result(0, &b), None);
}

#[test]
fn quit_record_gives_quit() {
    let b = record(0x100);
    assert_eq!(decode_event(&b), Event::Quit);
    assert_eq!(poll_result(1, &b), Some(Event::Quit));
}

#[test]
fn unmodelled_code_gives_unknown() {
    let b = record(0x7777);
    assert_eq!(decode_event(&b), Event::Unknown(0x7777));
    assert_eq!(poll_result(1, &b), Some(Event::Unknown(0x7777)));
}

#[test]
fn window_record() {
    let mut b = record(0x200);
    put_u32(&mut b, 8, 3);
    b[12] = 5;
    put_u32(&mut b, 16, 800);
    put_u32(&mut b, 20, (-600i32) as u32);
    assert_eq!(
        decode_event(&b),
        Event::Window { window_id: 3, event: 5, data1: 800, data2: -600 }
    );
}

#[test]
fn keyboard_record() {
    let mut b = record(0x301);
    put_u32(&mut b, 8, 1);
    b[12] = 0;
    b[13] = 1;
    put_u32(&mut b, 16, 4);
    put_u32(&mut b, 20, 97);
    b[24] = 0x01;
    b[25] = 0x02;
    assert_eq!(
        decode_event(&b),
        Event::Keyboard {
            window_id: 1,
            is_key_down: false,
            repeat: true,
            scancode: 4,
            keycode: 97,
            modifiers: 0x0201,
        }
    );
}

#[test]
fn text_input_record() {
    let mut b = record(0x303);
    put_u32(&mut b, 8, 2);
    b[12] = b'h';
    b[13] = b'i';
    assert_eq!(decode_event(&b), Event::TextInput { window_id: 2, text: b"hi".to_vec() });
    let mut full = record(0x303);
    for i in 0..32 {
        full[12 + i] = b'a';
    }
    assert_eq!(decode_event(&full), Event::TextInput { window_id: 0, text: vec![b'a'; 32] });
}

#[test]
fn mouse_records() {
    let mut m = record(0x400);
    put_u32(&mut m, 8, 1);
    put_u32(&mut m, 12, 0);
    put_u32(&mut m, 16, 1);
    put_u32(&mut m, 20, 10);
    put_u32(&mut m, 24, 20);
    put_u32(&mut m, 28, (-1i32) as u32);
    put_u32(&mut m, 32, 2);
    assert_eq!(
        decode_event(&m),
        Event::MouseMotion {
            window_id: 1,
            mouse_id: 0,
            button_state: 1,
            x: 10,
            y: 20,
            delta_x: -1,
            delta_y: 2,
        }
    );
    let mut bt = record(0x401);
    bt[16] = 3;
    bt[17] = 1;
    bt[18] = 2;
    put_u32(&mut bt, 20, 5);
    put_u32(&mut bt, 24, 6);
    assert_eq!(
        decode_event(&bt),
        Event::MouseButton { window_id: 0, mouse_id: 0, button: 3, is_pressed: true, clicks: 2, x: 5, y: 6 }
    );
    let mut w = record(0x403);
    put_u32(&mut w, 16, 0);
    put_u32(&mut w, 20, (-3i32) as u32);
    put_u32(&mut w, 24, 1);
    assert_eq!(
        decode_event(&w),
        Event::MouseWheel { window_id: 0, mouse_id: 0, x: 0, y: -3, is_flipped: true }
    );
}

#[test]
fn controller_records() {
    let mut a = record(0x650);
    put_u32(&mut a, 8, 7);
    a[12] = 2;
    a[16] = 0x00;
    a[17] = 0x80;
    assert_eq!(
        decode_event(&a),
        Event::ControllerAxis { joystick_id: 7, axis: 2, value: -32768 }
    );
    let mut bt = record(0x652);
    put_u32(&mut bt, 8, 7);
    bt[12] = 4;
    bt[13] = 0;
    assert_eq!(
        decode_event(&bt),
        Event::ControllerButton { joystick_id: 7, button: 4, is_pressed: false }
    );
    let mut add = record(0x653);
    put_u32(&mut add, 8, 0);
    assert_eq!(decode_event(&add), Event::ControllerAdded { device_index: 0 });
    let mut rm = record(0x654);
    put_u32(&mut rm, 8, 9);
    assert_eq!(decode_event(&rm), Event::ControllerRemoved { joystick_id: 9 });
}
