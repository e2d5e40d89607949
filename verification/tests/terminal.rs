use knotty::session::SelectionUnit;
use knotty::terminal::{
    capped_lines, checked, clamped, paste_verdict, point_verdict, repeated, scroll_delta, select_cells,
    selection_ends, selection_verdict, sizing_verdict, unit_verdict, wheel_route, EngineAnswer,
    SelectionSize, WheelRoute, MAX_WHEEL_LINES,
};
use knotty::Error;

#[test]
fn a_turn_is_capped_at_the_most_lines_it_may_be() {
    assert_eq!(capped_lines(3), 3);
    assert_eq!(capped_lines(-3), 3);
    assert_eq!(capped_lines(0), 0);
    assert_eq!(capped_lines(i32::MAX), MAX_WHEEL_LINES);
    assert_eq!(capped_lines(i32::MIN), MAX_WHEEL_LINES);
    assert_eq!(MAX_WHEEL_LINES, 1024);
}

#[test]
fn a_pointer_past_the_edge_means_the_edge() {
    assert_eq!(clamped((5, 9), (4, 3)), (3, 2));
    assert_eq!(clamped((1, 1), (4, 3)), (1, 1));
    assert_eq!(clamped((7, 7), (0, 0)), (0, 0));
}

#[test]
fn the_viewport_counts_down_where_the_wheel_counts_up() {
    assert_eq!(scroll_delta(2), -2);
    assert_eq!(scroll_delta(-2), 2);
    assert_eq!(scroll_delta(0), 0);
    assert_eq!(scroll_delta(5000), -1024);
}

#[test]
fn a_program_that_asked_for_the_mouse_hears_the_wheel() {
    assert_eq!(
        wheel_route(true, false, false, -1, 3),
        WheelRoute::Report {
            up: true,
            vertical: 3,
            right: false,
            horizontal: 1
        }
    );
}

#[test]
fn a_pager_on_the_alternate_screen_gets_arrows() {
    assert_eq!(
        wheel_route(false, true, true, 0, -2),
        WheelRoute::Arrows { up: false, lines: 2 }
    );
    assert_eq!(
        wheel_route(false, true, false, 0, -2),
        WheelRoute::Scroll { delta: 2 },
        "alternate scroll off moves the viewport"
    );
}

#[test]
fn a_sideways_turn_with_nobody_listening_does_nothing() {
    assert_eq!(wheel_route(false, true, true, 4, 0), WheelRoute::Nothing);
    assert_eq!(wheel_route(false, false, false, 0, 1), WheelRoute::Scroll { delta: -1 });
}

#[test]
fn arrows_are_the_one_sequence_repeated() {
    assert_eq!(repeated(b"\x1bOA", 3), b"\x1bOA\x1bOA\x1bOA".to_vec());
    assert_eq!(repeated(b"\x1bOA", 0), Vec::<u8>::new());
    assert_eq!(repeated(b"", 5), Vec::<u8>::new());
}

#[test]
fn nothing_is_selected_under_a_program_that_took_the_mouse() {
    assert_eq!(select_cells(true, (10, 5), (1, 1), (2, 2)), None);
    assert_eq!(
        select_cells(false, (10, 5), (1, 1), (20, 20)),
        Some(((1, 1), (9, 4)))
    );
}

#[test]
fn a_selection_hangs_off_the_cell_it_began_on() {
    // A drag forward takes the start of the anchor's word and the end of the
    // pointer's.
    assert_eq!(
        selection_ends(SelectionUnit::Word, (2, 0), (8, 0), 'a', 'c', Some(('A', 'B')), Some(('C', 'D'))),
        ('A', 'D')
    );
    // A drag backward the other way round.
    assert_eq!(
        selection_ends(SelectionUnit::Word, (8, 1), (2, 0), 'a', 'c', Some(('A', 'B')), Some(('C', 'D'))),
        ('B', 'C')
    );
    // Cells are their own unit, and blank screen falls back to the cells.
    assert_eq!(
        selection_ends(SelectionUnit::Cell, (8, 1), (2, 0), 'a', 'c', Some(('A', 'B')), Some(('C', 'D'))),
        ('a', 'c')
    );
    assert_eq!(
        selection_ends(SelectionUnit::Line, (0, 0), (1, 0), 'a', 'c', None, Some(('C', 'D'))),
        ('a', 'c')
    );
}

#[test]
fn the_engine_s_answers_mean_what_they_say() {
    assert_eq!(sizing_verdict(EngineAnswer::OutOfSpace), Ok(()));
    assert_eq!(sizing_verdict(EngineAnswer::Success), Ok(()));
    assert_eq!(sizing_verdict(EngineAnswer::NoValue), Err(Error::Engine));
    assert_eq!(paste_verdict(EngineAnswer::OutOfSpace), Ok(true));
    assert_eq!(paste_verdict(EngineAnswer::Success), Ok(false));
    assert_eq!(paste_verdict(EngineAnswer::Refused), Err(Error::Engine));
    assert!(matches!(selection_verdict(EngineAnswer::NoValue), Ok(SelectionSize::Unselected)));
    assert!(matches!(selection_verdict(EngineAnswer::Success), Ok(SelectionSize::Empty)));
    assert!(matches!(selection_verdict(EngineAnswer::OutOfSpace), Ok(SelectionSize::Needs)));
    assert!(selection_verdict(EngineAnswer::InvalidValue).is_err());
    assert_eq!(unit_verdict(EngineAnswer::Success, 7), Ok(Some(7)));
    assert_eq!(unit_verdict(EngineAnswer::NoValue, 7), Ok(None));
    assert_eq!(unit_verdict(EngineAnswer::OutOfSpace, 7), Err(Error::Engine));
    assert_eq!(checked(EngineAnswer::Success), Ok(()));
    assert_eq!(checked(EngineAnswer::NoValue), Err(Error::Engine));
}

#[test]
fn a_refused_coordinate_is_out_of_range_unless_it_was_clamped_to_the_grid() {
    assert_eq!(point_verdict(EngineAnswer::Success, false), Ok(()));
    assert_eq!(point_verdict(EngineAnswer::Success, true), Ok(()));
    assert_eq!(point_verdict(EngineAnswer::InvalidValue, false), Err(Error::OutOfRange));
    assert_eq!(point_verdict(EngineAnswer::InvalidValue, true), Err(Error::Engine));
    assert_eq!(point_verdict(EngineAnswer::Refused, true), Err(Error::Engine));
}
