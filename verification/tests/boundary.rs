use knotty::boundary::{
    answer, child_view, copied, fields_of, key_refusal, nothing_taken, session_state, status,
    Health, KtChildState, KtEventKind, KtSessionState, KtSnapshot, KtStatus, KT_ABI_VERSION,
};
use knotty::key::Key;
use knotty::queue::{ClipboardTarget, Event};
use knotty::session::ChildState;
use knotty::Error;

#[test]
fn every_core_error_has_its_own_status() {
    assert_eq!(status(Ok(())), KtStatus::Success);
    assert_eq!(status(Err(Error::Engine)), KtStatus::Engine);
    assert_eq!(status(Err(Error::TooLarge)), KtStatus::TooLarge);
    assert_eq!(status(Err(Error::OutOfRange)), KtStatus::OutOfRange);
    assert_eq!(status(Err(Error::WriteQueueFull)), KtStatus::WriteQueueFull);
    assert_eq!(status(Err(Error::Io)), KtStatus::Io);
    assert_eq!(KtStatus::from(Error::Io), KtStatus::Io);
}

#[test]
fn an_answer_is_the_core_s_or_the_boundary_s_refusal() {
    assert_eq!(answer(|| Ok(KtStatus::NoValue)), KtStatus::NoValue);
    assert_eq!(answer(|| Err(KtStatus::NullArgument)), KtStatus::NullArgument);
}

#[test]
fn a_panicked_session_takes_no_more_input() {
    let mut health = Health::new();
    assert_eq!(health.refusal(false), None);
    health.note(KtStatus::Panicked);
    assert_eq!(health.refusal(false), Some(KtStatus::Defunct));
    health.note(KtStatus::Success);
    assert_eq!(health.refusal(false), Some(KtStatus::Defunct));
    assert!(health.is_defunct(false));
}

#[test]
fn a_session_whose_thread_broke_is_defunct_too() {
    let health = Health::new();
    assert!(health.is_defunct(true));
    assert_eq!(health.refusal(true), Some(KtStatus::Defunct));
    assert!(!health.is_defunct(false));
}

#[test]
fn a_broken_session_with_nothing_left_to_hand_over_says_that_rather_than_no_value() {
    assert_eq!(nothing_taken(KtStatus::Success, true), KtStatus::Defunct);
    assert_eq!(nothing_taken(KtStatus::Success, false), KtStatus::NoValue);
    assert_eq!(nothing_taken(KtStatus::Panicked, false), KtStatus::Panicked);
}

#[test]
fn a_detached_session_reports_no_child_and_a_session_that_works() {
    assert_eq!(child_view(ChildState::NoChild), (KtChildState::NoChild, 0));
    assert_eq!(session_state(false), KtSessionState::Working);
    let stamped = KtSnapshot::stamped(
        knotty::snapshot::Snapshot {
            cols: 0,
            rows: 0,
            dirty: knotty::snapshot::Dirty::Clean,
            has_selection: false,
            screen: Default::default(),
            cells: vec![],
            row_state: vec![],
            graphemes: vec![],
        },
        ChildState::NoChild,
        false,
    );
    assert_eq!(stamped.session, KtSessionState::Working);
    assert_eq!(stamped.child, ChildState::NoChild);
}

#[test]
fn an_exit_code_is_carried_only_by_an_exited_child() {
    assert_eq!(child_view(ChildState::Running), (KtChildState::Running, 0));
    assert_eq!(child_view(ChildState::Exited(137)), (KtChildState::Exited, 137));
    assert_eq!(session_state(true), KtSessionState::Broken);
}

#[test]
fn an_event_s_fields_are_set_whatever_its_kind() {
    assert_eq!(
        fields_of(&Event::Bell),
        (KtEventKind::Bell, ClipboardTarget::Standard, 0)
    );
    assert_eq!(
        fields_of(&Event::ClipboardWrite {
            target: ClipboardTarget::Primary,
            text: "x".to_owned()
        }),
        (KtEventKind::ClipboardWrite, ClipboardTarget::Primary, 0)
    );
    assert_eq!(
        fields_of(&Event::ChildExited { code: -1 }),
        (KtEventKind::ChildExited, ClipboardTarget::Standard, -1)
    );
}

#[test]
fn a_copy_answers_what_it_found() {
    assert_eq!(copied(KtStatus::Success, &Some(vec![1u8])), KtStatus::Success);
    assert_eq!(copied::<Vec<u8>>(KtStatus::Success, &None), KtStatus::NoValue);
    assert_eq!(copied::<Vec<u8>>(KtStatus::Engine, &None), KtStatus::Engine);
}

#[test]
fn a_key_that_names_nothing_is_refused() {
    assert_eq!(key_refusal(Key::Unidentified), Some(KtStatus::UnidentifiedKey));
    assert_eq!(key_refusal(Key::A), None);
    assert_eq!(KT_ABI_VERSION, 8);
}
