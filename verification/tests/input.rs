use knotty::key::{names_a_key, Key, KeyAction, KeyEvent, Modifier};
use knotty::mouse::{MotionFilter, MouseAction, MouseButton, MousePlan};

#[test]
fn each_modifier_has_its_own_bit() {
    let bits = [
        Modifier::Shift.bit(),
        Modifier::Ctrl.bit(),
        Modifier::Alt.bit(),
        Modifier::Super.bit(),
        Modifier::CapsLock.bit(),
        Modifier::NumLock.bit(),
        Modifier::ShiftRight.bit(),
        Modifier::CtrlRight.bit(),
        Modifier::AltRight.bit(),
        Modifier::SuperRight.bit(),
    ];
    for (i, bit) in bits.iter().enumerate() {
        assert_eq!(*bit, 1 << i);
    }
}

#[test]
fn a_default_key_event_is_a_press_of_no_key() {
    let event = KeyEvent::default();
    assert_eq!(event.action, KeyAction::Press);
    assert_eq!(event.key, Key::Unidentified);
    assert!(event.text.is_empty());
    assert!(!names_a_key(event.key));
    assert!(names_a_key(Key::F25));
}

#[test]
fn a_motion_inside_one_cell_is_reported_once() {
    let mut filter = MotionFilter::new();
    let first = filter.plan(MouseAction::Motion, MouseButton::Left, (3, 1));
    assert_eq!(
        first,
        MousePlan {
            refresh: true,
            skip: false,
            any_pressed: true
        }
    );
    filter.reported((3, 1), 6);
    let again = filter.plan(MouseAction::Motion, MouseButton::Left, (3, 1));
    assert!(again.skip);
    assert!(!again.refresh);
    let elsewhere = filter.plan(MouseAction::Motion, MouseButton::NoButton, (4, 1));
    assert!(!elsewhere.skip);
    assert!(!elsewhere.any_pressed);
}

#[test]
fn a_swallowed_event_leaves_the_last_cell_where_it_was() {
    let mut filter = MotionFilter::new();
    filter.plan(MouseAction::Motion, MouseButton::NoButton, (1, 1));
    filter.reported((1, 1), 0);
    assert!(!filter.plan(MouseAction::Motion, MouseButton::NoButton, (1, 1)).skip);
}

#[test]
fn moved_options_forget_the_last_cell() {
    let mut filter = MotionFilter::new();
    filter.plan(MouseAction::Press, MouseButton::Left, (2, 2));
    filter.reported((2, 2), 6);
    filter.invalidate();
    let plan = filter.plan(MouseAction::Motion, MouseButton::Left, (2, 2));
    assert!(plan.refresh);
    assert!(!plan.skip);
    let press = filter.plan(MouseAction::Press, MouseButton::Left, (2, 2));
    assert!(!press.skip, "a press is never skipped");
    assert!(press.any_pressed);
    assert!(!filter.plan(MouseAction::Release, MouseButton::Left, (2, 2)).any_pressed);
}
