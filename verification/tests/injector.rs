use meta_remap::event::{Direction, SyntheticKeyEvent};
use meta_remap::injector::{
    descriptor, submission, submission_failed, KeyboardInput, EVENTS_PER_SUBMISSION, KEY_UP_FLAG,
};
use meta_remap::keys::{LEFT_CONTROL, RIGHT_CONTROL};

#[test]
fn descriptor_of_a_press() {
    let input = descriptor(SyntheticKeyEvent { key: LEFT_CONTROL, direction: Direction::Down });
    assert_eq!(
        input,
        KeyboardInput { virtual_key: 0xA2, scan_code: 0, flags: 0, time: 0, extra_info: 0 }
    );
}

#[test]
fn descriptor_of_a_release() {
    let input = descriptor(SyntheticKeyEvent { key: RIGHT_CONTROL, direction: Direction::Up });
    assert_eq!(
        input,
        KeyboardInput { virtual_key: 0xA3, scan_code: 0, flags: 2, time: 0, extra_info: 0 }
    );
    assert_eq!(input.flags, KEY_UP_FLAG);
}

#[test]
fn descriptor_takes_any_key() {
    for key in [0u16, 0x41, 0xA2, u16::MAX] {
        let pressed = descriptor(SyntheticKeyEvent { key, direction: Direction::Down });
        let released = descriptor(SyntheticKeyEvent { key, direction: Direction::Up });
        assert_eq!(pressed.virtual_key, key);
        assert_eq!(released.virtual_key, key);
        assert_eq!(pressed.flags, 0);
        assert_eq!(released.flags, 2);
        assert_ne!(pressed, released);
    }
}

#[test]
fn submission_fails_when_nothing_was_inserted() {
    assert!(submission_failed(0));
    assert!(!submission_failed(1));
    assert!(!submission_failed(EVENTS_PER_SUBMISSION));
    assert!(!submission_failed(2));
    assert_eq!(EVENTS_PER_SUBMISSION, 1);
}

#[test]
fn submission_holds_one_descriptor() {
    for direction in [Direction::Down, Direction::Up] {
        for key in [LEFT_CONTROL, RIGHT_CONTROL] {
            let event = SyntheticKeyEvent { key, direction };
            let batch = submission(event);
            assert_eq!(batch.len(), 1);
            assert_eq!(batch.len(), EVENTS_PER_SUBMISSION as usize);
            assert_eq!(batch[0], descriptor(event));
        }
    }
    let batch = submission(SyntheticKeyEvent { key: LEFT_CONTROL, direction: Direction::Up });
    assert_eq!(
        batch,
        [KeyboardInput { virtual_key: 0xA2, scan_code: 0, flags: 2, time: 0, extra_info: 0 }]
    );
}
