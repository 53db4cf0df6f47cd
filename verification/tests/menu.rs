use iced_core::layout::Node;
use iced_core::mouse;
use iced_core::mouse::Cursor;
use iced_core::time::Instant;
use iced_core::touch;
use iced_core::window;
use iced_core::{Event, Layout, Point, Size};
use more_widgets::host::Input;
use more_widgets::multi_pick_list::menu::{contains, react, update, visible_rows, ListState, Reaction, Row};

const QUIET: Reaction = Reaction { select: None, hover: None, capture: false, redraw: false };

fn fresh() -> ListState {
    ListState { is_hovered: None }
}

fn list() -> Node {
    Node::new(Size::new(80.0, 90.0))
}

fn over_list() -> Cursor {
    Cursor::Available(Point::new(10.0, 40.0))
}

fn off_list() -> Cursor {
    Cursor::Available(Point::new(10.0, 95.0))
}

#[test]
fn a_click_picks_the_hovered_option() {
    let mut hovered = Some(1);
    let mut state = fresh();
    let reaction = react(&mut hovered, &mut state, Input::LeftPressed, true, Some(1), 3);
    assert_eq!(reaction, Reaction { select: Some(1), hover: None, capture: true, redraw: false });
    assert_eq!(hovered, Some(1));
    assert_eq!(state, fresh());
}

#[test]
fn a_click_goes_by_the_hovered_row_not_the_row_under_the_cursor() {
    let mut hovered = Some(0);
    let mut state = fresh();
    let reaction = react(&mut hovered, &mut state, Input::LeftPressed, true, Some(2), 3);
    assert_eq!(reaction.select, Some(0));
    assert_eq!(hovered, Some(0));
}

#[test]
fn a_click_off_the_list_picks_nothing() {
    let mut hovered = Some(1);
    let mut state = fresh();
    let reaction = react(&mut hovered, &mut state, Input::LeftPressed, false, None, 3);
    assert_eq!(reaction, QUIET);
    assert_eq!(hovered, Some(1));
}

#[test]
fn a_click_with_no_hovered_row_picks_nothing() {
    let mut hovered = None;
    let mut state = fresh();
    let reaction = react(&mut hovered, &mut state, Input::LeftPressed, true, Some(0), 3);
    assert_eq!(reaction, QUIET);
    assert_eq!(hovered, None);
}

#[test]
fn a_click_on_a_row_past_the_options_picks_nothing() {
    let mut hovered = Some(3);
    let mut state = fresh();
    let reaction = react(&mut hovered, &mut state, Input::LeftPressed, true, Some(3), 3);
    assert_eq!(reaction, QUIET);
    let mut hovered = Some(0);
    let reaction = react(&mut hovered, &mut state, Input::LeftPressed, true, Some(0), 0);
    assert_eq!(reaction, QUIET);
}

#[test]
fn moving_onto_an_option_hovers_it_and_asks_for_a_redraw() {
    let mut hovered = Some(0);
    let mut state = fresh();
    let reaction = react(&mut hovered, &mut state, Input::CursorMoved, true, Some(2), 3);
    assert_eq!(reaction, Reaction { select: None, hover: Some(2), capture: false, redraw: true });
    assert_eq!(hovered, Some(2));
    let mut hovered = None;
    let reaction = react(&mut hovered, &mut state, Input::CursorMoved, true, Some(0), 3);
    assert_eq!(reaction.hover, Some(0));
    assert_eq!(hovered, Some(0));
}

#[test]
fn moving_within_the_hovered_row_changes_nothing() {
    let mut hovered = Some(2);
    let mut state = fresh();
    let reaction = react(&mut hovered, &mut state, Input::CursorMoved, true, Some(2), 3);
    assert_eq!(reaction, QUIET);
    assert_eq!(hovered, Some(2));
}

#[test]
fn moving_below_the_last_option_moves_the_hovered_row_there_silently() {
    let mut hovered = Some(2);
    let mut state = fresh();
    let reaction = react(&mut hovered, &mut state, Input::CursorMoved, true, Some(5), 3);
    assert_eq!(reaction, QUIET);
    assert_eq!(hovered, Some(5));
}

#[test]
fn moving_off_the_list_keeps_the_hovered_row() {
    let mut hovered = Some(2);
    let mut state = fresh();
    let reaction = react(&mut hovered, &mut state, Input::CursorMoved, false, None, 3);
    assert_eq!(reaction, QUIET);
    assert_eq!(hovered, Some(2));
}

#[test]
fn a_touch_hovers_and_picks_the_option_under_the_finger() {
    let mut hovered = None;
    let mut state = fresh();
    let reaction = react(&mut hovered, &mut state, Input::FingerPressed, true, Some(1), 3);
    assert_eq!(reaction, Reaction { select: Some(1), hover: None, capture: true, redraw: false });
    assert_eq!(hovered, Some(1));
}

#[test]
fn a_touch_below_the_last_option_hovers_but_picks_nothing() {
    let mut hovered = Some(0);
    let mut state = fresh();
    let reaction = react(&mut hovered, &mut state, Input::FingerPressed, true, Some(3), 3);
    assert_eq!(reaction, QUIET);
    assert_eq!(hovered, Some(3));
}

#[test]
fn a_touch_off_the_list_does_nothing() {
    let mut hovered = Some(0);
    let mut state = fresh();
    let reaction = react(&mut hovered, &mut state, Input::FingerPressed, false, None, 3);
    assert_eq!(reaction, QUIET);
    assert_eq!(hovered, Some(0));
}

#[test]
fn a_redraw_remembers_whether_the_cursor_is_over_the_list() {
    let mut hovered = Some(0);
    let mut state = fresh();
    let reaction = react(&mut hovered, &mut state, Input::RedrawRequested, true, Some(0), 3);
    assert_eq!(reaction, QUIET);
    assert_eq!(state, ListState { is_hovered: Some(true) });
    let reaction = react(&mut hovered, &mut state, Input::RedrawRequested, false, None, 3);
    assert_eq!(reaction, QUIET);
    assert_eq!(state, ListState { is_hovered: Some(false) });
    assert_eq!(hovered, Some(0));
}

#[test]
fn entering_or_leaving_the_list_asks_for_a_redraw() {
    let mut hovered = None;
    let mut state = ListState { is_hovered: Some(false) };
    let reaction = react(&mut hovered, &mut state, Input::Other, true, Some(0), 3);
    assert_eq!(reaction, Reaction { redraw: true, ..QUIET });
    assert_eq!(state, ListState { is_hovered: Some(false) });
    let mut state = ListState { is_hovered: Some(true) };
    let reaction = react(&mut hovered, &mut state, Input::Other, false, None, 3);
    assert_eq!(reaction, Reaction { redraw: true, ..QUIET });
    let reaction = react(&mut hovered, &mut state, Input::Other, true, Some(0), 3);
    assert_eq!(reaction, QUIET);
}

#[test]
fn a_click_after_the_cursor_left_picks_nothing_but_redraws() {
    let mut hovered = Some(1);
    let mut state = ListState { is_hovered: Some(true) };
    let reaction = react(&mut hovered, &mut state, Input::LeftPressed, false, None, 3);
    assert_eq!(reaction, Reaction { redraw: true, ..QUIET });
}

#[test]
fn a_left_click_event_over_the_list_picks_the_hovered_option() {
    let node = list();
    let mut hovered = Some(2);
    let mut state = fresh();
    let event = Event::Mouse(mouse::Event::ButtonPressed(mouse::Button::Left));
    let reaction =
        update(&mut hovered, &mut state, &event, Layout::new(&node), over_list(), Some(1), 3);
    assert_eq!(reaction, Reaction { select: Some(2), hover: None, capture: true, redraw: false });
    let reaction = update(&mut hovered, &mut state, &event, Layout::new(&node), off_list(), None, 3);
    assert_eq!(reaction, QUIET);
}

#[test]
fn a_right_click_event_picks_nothing() {
    let node = list();
    let mut hovered = Some(2);
    let mut state = fresh();
    let event = Event::Mouse(mouse::Event::ButtonPressed(mouse::Button::Right));
    let reaction =
        update(&mut hovered, &mut state, &event, Layout::new(&node), over_list(), Some(1), 3);
    assert_eq!(reaction, QUIET);
}

#[test]
fn a_cursor_event_moves_the_hovered_row() {
    let node = list();
    let mut hovered = None;
    let mut state = fresh();
    let event = Event::Mouse(mouse::Event::CursorMoved { position: Point::new(10.0, 40.0) });
    let reaction =
        update(&mut hovered, &mut state, &event, Layout::new(&node), over_list(), Some(1), 3);
    assert_eq!(reaction, Reaction { select: None, hover: Some(1), capture: false, redraw: true });
    assert_eq!(hovered, Some(1));
}

#[test]
fn a_touch_event_picks_the_option_under_the_finger() {
    let node = list();
    let mut hovered = None;
    let mut state = fresh();
    let event = Event::Touch(touch::Event::FingerPressed {
        id: touch::Finger(0),
        position: Point::new(10.0, 40.0),
    });
    let reaction =
        update(&mut hovered, &mut state, &event, Layout::new(&node), over_list(), Some(1), 3);
    assert_eq!(reaction, Reaction { select: Some(1), hover: None, capture: true, redraw: false });
    assert_eq!(hovered, Some(1));
}

#[test]
fn a_redraw_event_remembers_the_cursor() {
    let node = list();
    let mut hovered = None;
    let mut state = fresh();
    let event = Event::Window(window::Event::RedrawRequested(Instant::now()));
    let reaction =
        update(&mut hovered, &mut state, &event, Layout::new(&node), over_list(), Some(1), 3);
    assert_eq!(reaction, QUIET);
    assert_eq!(state, ListState { is_hovered: Some(true) });
    let left = Event::Mouse(mouse::Event::CursorLeft);
    let reaction = update(&mut hovered, &mut state, &left, Layout::new(&node), off_list(), None, 3);
    assert_eq!(reaction, Reaction { redraw: true, ..QUIET });
    assert_eq!(state, ListState { is_hovered: Some(true) });
}

#[test]
fn contains_finds_equal_items_only() {
    let items = ["a".to_string(), "b".to_string(), "b".to_string()];
    assert!(contains(&items, &"a".to_string()));
    assert!(contains(&items, &"b".to_string()));
    assert!(!contains(&items, &"c".to_string()));
    let nothing: [String; 0] = [];
    assert!(!contains(&nothing, &"a".to_string()));
}

#[test]
fn every_row_in_view_is_listed_with_its_marks() {
    let options = [10, 20, 30, 40, 50];
    let selected = [40, 20];
    let rows = visible_rows(&options, &selected, Some(3), 1, 4);
    assert_eq!(
        rows,
        vec![
            Row { index: 1, is_selected: true, is_hovered: false },
            Row { index: 2, is_selected: false, is_hovered: false },
            Row { index: 3, is_selected: true, is_hovered: true },
        ]
    );
}

#[test]
fn the_rows_in_view_end_with_the_options() {
    let options = [1, 2, 3];
    let selected: [i32; 0] = [];
    let rows = visible_rows(&options, &selected, None, 2, 9);
    assert_eq!(rows, vec![Row { index: 2, is_selected: false, is_hovered: false }]);
    let rows = visible_rows(&options, &selected, Some(7), 0, usize::MAX);
    assert_eq!(rows.len(), 3);
    assert_eq!(rows[0].index, 0);
    assert_eq!(rows[2].index, 2);
}

#[test]
fn an_empty_window_has_no_rows() {
    let options = [1, 2, 3];
    let selected = [1, 2, 3];
    assert!(visible_rows(&options, &selected, Some(0), 0, 0).is_empty());
    assert!(visible_rows(&options, &selected, Some(0), 3, 5).is_empty());
    assert!(visible_rows(&options, &selected, Some(0), 2, 2).is_empty());
    let none: [i32; 0] = [];
    assert!(visible_rows(&none, &selected, None, 0, 4).is_empty());
}
