use chip8_core::chip8::Chip8;
use chip8_core::display::{lit_rects, PixelRect, Scale};
use chip8_core::driver::{
    frame_interval_nanos, handle_event, run_cycles, HostAction, HostEvent, NUMBER_OF_CYCLES,
};
use chip8_core::fault::Fault;
use chip8_core::keypad::{map_key, KEY_ESCAPE, KEY_F1};

#[test]
fn host_keys_map_to_the_pad() {
    let layout = [
        ('1', 0x1u8), ('2', 0x2), ('3', 0x3), ('4', 0xC),
        ('q', 0x4), ('w', 0x5), ('e', 0x6), ('r', 0xD),
        ('a', 0x7), ('b', 0x8), ('d', 0x9), ('f', 0xE),
        ('z', 0xA), ('x', 0x0), ('c', 0xB), ('v', 0xF),
    ];
    for (key, pad) in layout {
        assert_eq!(map_key(key as i32), Some(pad), "key {}", key);
    }
    let mut seen = [false; 16];
    for code in 0..256 {
        if let Some(pad) = map_key(code) {
            assert!(!seen[pad as usize]);
            seen[pad as usize] = true;
        }
    }
    assert_eq!(seen, [true; 16]);
    for code in [0, -1, 's' as i32, 'Q' as i32, '5' as i32, KEY_ESCAPE, KEY_F1, i32::MAX, i32::MIN] {
        assert_eq!(map_key(code), None, "code {}", code);
    }
}

#[test]
fn scale_fits_the_window() {
    assert_eq!(Scale::for_window(950, 600), Scale { width: 14, height: 18 });
    assert_eq!(Scale::for_window(64, 32), Scale { width: 1, height: 1 });
    assert_eq!(Scale::for_window(63, 31), Scale { width: 0, height: 0 });
    assert_eq!(Scale::for_window(0, 0), Scale { width: 0, height: 0 });
    assert_eq!(Scale::for_window(-130, -70), Scale { width: -2, height: -2 });
    assert_eq!(Scale::for_window(i32::MAX, i32::MIN), Scale { width: 33554431, height: -67108864 });
}

#[test]
fn lit_cells_become_rectangles_in_order() {
    let mut screen = [false; 2048];
    screen[0] = true;
    screen[65] = true;
    screen[2047] = true;
    let scale = Scale { width: 15, height: 18 };
    assert_eq!(
        lit_rects(&screen, &scale),
        vec![
            PixelRect { x: 0, y: 0, width: 15, height: 18 },
            PixelRect { x: 15, y: 18, width: 15, height: 18 },
            PixelRect { x: 63 * 15, y: 31 * 18, width: 15, height: 18 },
        ]
    );
    assert_eq!(lit_rects(&[false; 2048], &scale), vec![]);
    assert_eq!(lit_rects(&[true; 2048], &scale).len(), 2048);
    let widest = Scale { width: 34087042, height: 69273666 };
    assert_eq!(
        lit_rects(&screen, &widest)[2],
        PixelRect { x: 2147483646, y: 2147483646, width: 34087042, height: 69273666 }
    );
}

#[test]
fn scale_reaches_as_far_as_32_bits_go() {
    let mut last_column = [false; 2048];
    last_column[63] = true;
    let mut last_row = [false; 2048];
    last_row[31 * 64] = true;
    let mut second_column = [false; 2048];
    second_column[1] = true;
    let mut third_column = [false; 2048];
    third_column[2] = true;
    assert!(Scale { width: 15, height: 18 }.is_drawable(&[true; 2048]));
    assert!(Scale { width: 0, height: 0 }.is_drawable(&[true; 2048]));
    assert!(Scale { width: 68174084, height: 1 }.is_drawable(&last_column));
    assert!(!Scale { width: 68174085, height: 1 }.is_drawable(&last_column));
    assert!(Scale { width: 68174085, height: 1 }.is_drawable(&second_column));
    assert!(Scale { width: 1, height: 138547332 }.is_drawable(&last_row));
    assert!(!Scale { width: 1, height: 138547333 }.is_drawable(&last_row));
    assert!(Scale { width: i32::MAX, height: i32::MAX }.is_drawable(&[false; 2048]));
    // a negative width counts as the unsigned number it wraps round to
    assert!(Scale { width: -1, height: 1 }.is_drawable(&second_column));
    assert!(!Scale { width: -1, height: 1 }.is_drawable(&third_column));
    assert!(!Scale { width: 1, height: -1 }.is_drawable(&[true; 2048]));
}

#[test]
fn corners_beyond_signed_range_wrap_round() {
    let mut screen = [false; 2048];
    screen[63] = true;
    let scale = Scale { width: 68174084, height: 1 };
    assert_eq!(
        lit_rects(&screen, &scale),
        vec![PixelRect { x: -4, y: 0, width: 68174084, height: 1 }]
    );
    let mut screen = [false; 2048];
    screen[1] = true;
    let scale = Scale { width: -1, height: 2 };
    assert_eq!(
        lit_rects(&screen, &scale),
        vec![PixelRect { x: -1, y: 0, width: u32::MAX, height: 2 }]
    );
}

#[test]
fn events_decide_what_the_host_does() {
    let mut chip8 = Chip8::new();
    let mut scale = Scale { width: 15, height: 18 };
    let fresh = chip8.snapshot();
    assert_eq!(handle_event(&mut chip8, &mut scale, HostEvent::Quit), HostAction::Stop);
    assert_eq!(
        handle_event(&mut chip8, &mut scale, HostEvent::KeyDown { keycode: KEY_ESCAPE }),
        HostAction::Stop
    );
    assert_eq!(
        handle_event(&mut chip8, &mut scale, HostEvent::KeyDown { keycode: KEY_F1 }),
        HostAction::SaveState
    );
    assert_eq!(
        handle_event(&mut chip8, &mut scale, HostEvent::KeyUp { keycode: KEY_F1 }),
        HostAction::Continue
    );
    assert_eq!(handle_event(&mut chip8, &mut scale, HostEvent::Other), HostAction::Continue);
    assert_eq!(
        handle_event(&mut chip8, &mut scale, HostEvent::KeyDown { keycode: 's' as i32 }),
        HostAction::Continue
    );
    assert_eq!(chip8.snapshot(), fresh);
    assert_eq!(scale, Scale { width: 15, height: 18 });
}

#[test]
fn key_events_latch_pad_keys() {
    let mut chip8 = Chip8::new();
    let mut scale = Scale { width: 15, height: 18 };
    assert_eq!(
        handle_event(&mut chip8, &mut scale, HostEvent::KeyDown { keycode: 'w' as i32 }),
        HostAction::Continue
    );
    assert_eq!(
        handle_event(&mut chip8, &mut scale, HostEvent::KeyDown { keycode: 'x' as i32 }),
        HostAction::Continue
    );
    let keys = chip8.snapshot().keys;
    for key in 0..16 {
        assert_eq!(keys[key], key == 5 || key == 0);
    }
    assert_eq!(
        handle_event(&mut chip8, &mut scale, HostEvent::KeyUp { keycode: 'w' as i32 }),
        HostAction::Continue
    );
    let keys = chip8.snapshot().keys;
    for key in 0..16 {
        assert_eq!(keys[key], key == 0);
    }
}

#[test]
fn resize_event_fits_the_scale() {
    let mut chip8 = Chip8::new();
    let mut scale = Scale { width: 15, height: 18 };
    let fresh = chip8.snapshot();
    assert_eq!(
        handle_event(&mut chip8, &mut scale, HostEvent::Resized { width: 1280, height: 640 }),
        HostAction::Continue
    );
    assert_eq!(scale, Scale { width: 20, height: 20 });
    assert_eq!(chip8.snapshot(), fresh);
}

#[test]
fn frame_length_follows_the_rate() {
    assert_eq!(frame_interval_nanos(60), 16_666_666);
    assert_eq!(frame_interval_nanos(1), 1_000_000_000);
    assert_eq!(frame_interval_nanos(u32::MAX), 0);
    assert_eq!(frame_interval_nanos(Chip8::new().get_fps()), 16_666_666);
}

#[test]
fn a_frame_runs_eight_instructions() {
    assert_eq!(NUMBER_OF_CYCLES, 8);
    let mut chip8 = Chip8::new();
    // V0 counts the instructions: seven additions and a jump back
    let program = [
        0x70, 0x01, 0x70, 0x01, 0x70, 0x01, 0x70, 0x01, 0x70, 0x01, 0x70, 0x01, 0x70, 0x01, 0x12,
        0x00,
    ];
    assert_eq!(chip8.load_file(&program), Ok(()));
    assert_eq!(run_cycles(&mut chip8, NUMBER_OF_CYCLES), Ok(()));
    assert_eq!(chip8.snapshot().v[0], 7);
    assert_eq!(chip8.snapshot().pc, 512);
    assert_eq!(run_cycles(&mut chip8, 3), Ok(()));
    assert_eq!(chip8.snapshot().v[0], 10);
    let before = chip8.snapshot();
    assert_eq!(run_cycles(&mut chip8, 0), Ok(()));
    assert_eq!(chip8.snapshot(), before);
}

#[test]
fn a_frame_stops_at_the_first_fault() {
    let mut chip8 = Chip8::new();
    assert_eq!(chip8.load_file(&[0x60, 0x01, 0x61, 0x02, 0xFF, 0xFF, 0x62, 0x03]), Ok(()));
    assert_eq!(
        run_cycles(&mut chip8, NUMBER_OF_CYCLES),
        Err(Fault::UnknownOpcode { word: 0xFFFF })
    );
    let record = chip8.snapshot();
    assert_eq!(record.pc, 516);
    assert_eq!(&record.v[..3], &[1, 2, 0]);
}
