use polynomial_finder::app::{Action, App, Key, ListSelection, Mode, PopupColor};

fn app_with(points: &[[f64; 2]]) -> App<[f64; 2]> {
    let mut app = App::new();
    for p in points {
        app.messages.push(*p);
    }
    app
}

#[test]
fn new_app_is_empty_in_command_mode() {
    let app: App<[f64; 2]> = App::new();
    assert_eq!(app.mode, Mode::Normal);
    assert!(app.messages.is_empty());
    assert_eq!(app.message_widget_state, ListSelection { offset: 0, selected: None });
    assert_eq!(app.popup_state.color, PopupColor::Plain);
}

#[test]
fn q_quits_only_in_command_mode() {
    let mut app = app_with(&[]);
    assert_eq!(app.handle_key(Key::Char('q')), Action::Quit);
    app.mode = Mode::Input;
    assert_eq!(app.handle_key(Key::Char('q')), Action::EditInput);
    app.mode = Mode::Edit;
    assert_eq!(app.handle_key(Key::Char('q')), Action::Continue);
    assert_eq!(app.mode, Mode::Edit);
}

#[test]
fn command_keys() {
    let mut app = app_with(&[[1.0, 2.0]]);
    assert_eq!(app.handle_key(Key::Char('p')), Action::FindPolynomial);
    assert_eq!(app.handle_key(Key::Char('c')), Action::FindCircle);
    assert_eq!(app.handle_key(Key::Char('a')), Action::FindArea);
    assert_eq!(app.handle_key(Key::Char('x')), Action::Continue);
    assert_eq!(app.mode, Mode::Normal);
    assert_eq!(app.handle_key(Key::Char('d')), Action::Continue);
    assert!(app.messages.is_empty());
    assert_eq!(app.handle_key(Key::Char('i')), Action::Continue);
    assert_eq!(app.mode, Mode::Input);
}

#[test]
fn typing_keys_go_to_the_text_field() {
    let mut app = app_with(&[]);
    app.handle_key(Key::Char('i'));
    assert_eq!(app.handle_key(Key::Char('1')), Action::EditInput);
    assert_eq!(app.handle_key(Key::Other), Action::EditInput);
    assert_eq!(app.mode, Mode::Input);
    assert_eq!(app.handle_key(Key::Enter), Action::InsertPoint);
    assert_eq!(app.handle_key(Key::Esc), Action::Continue);
    assert_eq!(app.mode, Mode::Normal);
}

#[test]
fn typed_point_is_appended() {
    let mut app = app_with(&[[1.0, 2.0]]);
    app.handle_key(Key::Char('i'));
    app.insert_point("3, 4".to_string(), Some([3.0, 4.0]));
    assert_eq!(app.messages, vec![[1.0, 2.0], [3.0, 4.0]]);
    assert_eq!(app.mode, Mode::Input);
}

#[test]
fn typed_point_replaces_selected() {
    let mut app = app_with(&[[1.0, 2.0], [3.0, 4.0]]);
    app.handle_key(Key::Char('e'));
    assert_eq!(app.message_widget_state.selected, Some(0));
    app.handle_key(Key::Down);
    assert_eq!(app.message_widget_state.selected, Some(1));
    app.handle_key(Key::Char('e'));
    assert_eq!(app.mode, Mode::Input);
    app.insert_point("9 9".to_string(), Some([9.0, 9.0]));
    assert_eq!(app.messages, vec![[1.0, 2.0], [9.0, 9.0]]);
    assert_eq!(app.mode, Mode::Edit);
}

#[test]
fn bad_input_shows_error_and_returns_to_typing() {
    let mut app = app_with(&[[1.0, 2.0]]);
    app.handle_key(Key::Char('i'));
    app.insert_point("abc".to_string(), None);
    assert_eq!(app.mode, Mode::Popup);
    assert_eq!(app.popup_state.title, "Input Error");
    assert_eq!(app.popup_state.message, "Cannot get point from input 'abc'");
    assert_eq!(app.popup_state.color, PopupColor::Red);
    assert_eq!(app.popup_state.pre_popup_mode, Mode::Input);
    assert_eq!(app.messages, vec![[1.0, 2.0]]);
    assert_eq!(app.handle_key(Key::Char('z')), Action::Continue);
    assert_eq!(app.mode, Mode::Input);
}

#[test]
fn insert_outside_input_mode_changes_nothing() {
    let mut app = app_with(&[[1.0, 2.0]]);
    app.insert_point("5 6".to_string(), Some([5.0, 6.0]));
    assert_eq!(app.messages, vec![[1.0, 2.0]]);
    assert_eq!(app.mode, Mode::Normal);
}

#[test]
fn calc_results_open_the_message_box() {
    let mut app = app_with(&[]);
    app.find_area(Ok("A = 0.5".to_string()));
    assert_eq!(app.mode, Mode::Popup);
    assert_eq!(app.popup_state.title, "Area");
    assert_eq!(app.popup_state.message, "A = 0.5");
    assert_eq!(app.popup_state.color, PopupColor::Green);
    app.handle_key(Key::Esc);
    assert_eq!(app.mode, Mode::Normal);
    app.find_circle(Err("Need > 3 points to calculate circle".to_string()));
    assert_eq!(app.popup_state.title, "Calculation error");
    assert_eq!(app.popup_state.message, "An error occured: Need > 3 points to calculate circle");
    assert_eq!(app.popup_state.color, PopupColor::Red);
    app.handle_key(Key::Enter);
    app.find_polynomial(Ok("f(x) = x".to_string()));
    assert_eq!(app.popup_state.title, "Polynomial equation");
    app.handle_key(Key::Enter);
    app.find_circle(Ok("(x)^2 + (y)^2 = 1".to_string()));
    assert_eq!(app.popup_state.title, "Circle Equation");
}

#[test]
fn scrolling_stops_at_the_top() {
    let mut app = app_with(&[[1.0, 1.0], [2.0, 2.0], [3.0, 3.0]]);
    app.handle_key(Key::Char('e'));
    app.handle_key(Key::Up);
    assert_eq!(app.message_widget_state.selected, Some(0));
    app.handle_key(Key::Down);
    app.handle_key(Key::Down);
    app.handle_key(Key::Down);
    // past the end until the list is drawn again
    assert_eq!(app.message_widget_state.selected, Some(3));
    app.scroll_points(2);
    assert_eq!(app.message_widget_state.selected, Some(1));
    app.scroll_points(-5);
    assert_eq!(app.message_widget_state.selected, Some(6));
}

#[test]
fn move_point_up_and_down() {
    let mut app = app_with(&[[1.0, 1.0], [2.0, 2.0], [3.0, 3.0]]);
    app.handle_key(Key::Char('e'));
    app.handle_key(Key::Down);
    app.handle_key(Key::Enter);
    assert_eq!(app.mode, Mode::Select);
    app.handle_key(Key::Up);
    assert_eq!(app.messages, vec![[2.0, 2.0], [1.0, 1.0], [3.0, 3.0]]);
    assert_eq!(app.message_widget_state.selected, Some(0));
    // at the top nothing moves
    app.handle_key(Key::Up);
    assert_eq!(app.messages, vec![[2.0, 2.0], [1.0, 1.0], [3.0, 3.0]]);
    app.handle_key(Key::Down);
    assert_eq!(app.messages, vec![[1.0, 1.0], [2.0, 2.0], [3.0, 3.0]]);
    assert_eq!(app.message_widget_state.selected, Some(1));
    app.handle_key(Key::Down);
    assert_eq!(app.messages, vec![[1.0, 1.0], [3.0, 3.0], [2.0, 2.0]]);
    // at the bottom nothing moves
    app.handle_key(Key::Down);
    assert_eq!(app.messages, vec![[1.0, 1.0], [3.0, 3.0], [2.0, 2.0]]);
    assert_eq!(app.message_widget_state.selected, Some(2));
    app.handle_key(Key::Enter);
    assert_eq!(app.mode, Mode::Edit);
}

#[test]
fn delete_selected_point_keeps_order() {
    let mut app = app_with(&[[1.0, 1.0], [2.0, 2.0], [3.0, 3.0]]);
    app.handle_key(Key::Char('e'));
    app.handle_key(Key::Down);
    assert!(app.can_handle_key(Key::Delete));
    app.handle_key(Key::Delete);
    assert_eq!(app.messages, vec![[1.0, 1.0], [3.0, 3.0]]);
    assert_eq!(app.message_widget_state.selected, Some(1));
}

#[test]
fn delete_out_of_range_is_refused() {
    let mut app = app_with(&[[1.0, 1.0]]);
    app.handle_key(Key::Char('e'));
    app.handle_key(Key::Down);
    assert!(!app.can_handle_key(Key::Delete));
    assert!(app.can_handle_key(Key::Up));
}

#[test]
fn escape_ends_editing() {
    let mut app = app_with(&[[1.0, 1.0], [2.0, 2.0]]);
    app.handle_key(Key::Char('e'));
    app.message_widget_state.offset = 1;
    app.handle_key(Key::Enter);
    app.handle_key(Key::Esc);
    assert_eq!(app.mode, Mode::Normal);
    assert_eq!(app.message_widget_state, ListSelection { offset: 0, selected: None });
    assert_eq!(app.messages, vec![[1.0, 1.0], [2.0, 2.0]]);
}

#[test]
fn list_selection_methods() {
    let mut s = ListSelection { offset: 4, selected: Some(7) };
    s.scroll_up_by(10);
    assert_eq!(s, ListSelection { offset: 4, selected: Some(0) });
    s.scroll_down_by(3);
    assert_eq!(s, ListSelection { offset: 4, selected: Some(3) });
    s.select(None);
    assert_eq!(s, ListSelection { offset: 0, selected: None });
    s.scroll_down_by(2);
    assert_eq!(s.selected(), Some(2));
    let mut m = ListSelection { offset: 0, selected: Some(usize::MAX - 1) };
    m.scroll_down_by(5);
    assert_eq!(m.selected, Some(usize::MAX));
    m.select_first();
    assert_eq!(m.selected, Some(0));
}

#[test]
fn can_insert_checks_the_selection() {
    let mut app = app_with(&[[1.0, 1.0]]);
    app.handle_key(Key::Char('e'));
    app.handle_key(Key::Down);
    app.handle_key(Key::Char('e'));
    assert!(!app.can_insert(&Some([0.0, 0.0])));
    assert!(app.can_insert(&None));
}

#[test]
fn escape_from_typing_clears_selection_so_new_points_are_appended() {
    let mut app = app_with(&[[1.0, 1.0], [2.0, 2.0]]);
    app.handle_key(Key::Char('e'));
    app.handle_key(Key::Char('e'));
    assert_eq!(app.mode, Mode::Input);
    assert_eq!(app.message_widget_state.selected, Some(0));
    app.handle_key(Key::Esc);
    assert_eq!(app.mode, Mode::Normal);
    assert_eq!(app.message_widget_state.selected, None);
    app.handle_key(Key::Char('i'));
    assert_eq!(app.handle_key(Key::Enter), Action::InsertPoint);
    app.insert_point("1, 2".to_string(), Some([1.0, 2.0]));
    assert_eq!(app.messages, vec![[1.0, 1.0], [2.0, 2.0], [1.0, 2.0]]);
    assert_eq!(app.mode, Mode::Input);
}

#[test]
fn drawing_brings_the_selection_into_the_list() {
    let mut app = app_with(&[[1.0, 1.0], [2.0, 2.0], [3.0, 3.0]]);
    app.message_widget_state = ListSelection { offset: 2, selected: Some(7) };
    app.fit_selection();
    assert_eq!(app.message_widget_state, ListSelection { offset: 2, selected: Some(2) });
    app.fit_selection();
    assert_eq!(app.message_widget_state, ListSelection { offset: 2, selected: Some(2) });
    let mut empty = app_with(&[]);
    empty.message_widget_state = ListSelection { offset: 1, selected: Some(0) };
    empty.fit_selection();
    assert_eq!(empty.message_widget_state, ListSelection { offset: 0, selected: None });
    let mut none = app_with(&[[1.0, 1.0]]);
    none.fit_selection();
    assert_eq!(none.message_widget_state, ListSelection { offset: 0, selected: None });
}

#[test]
fn deleting_the_last_point_then_drawing_keeps_keys_safe() {
    let mut app = app_with(&[[1.0, 1.0], [2.0, 2.0]]);
    app.handle_key(Key::Char('e'));
    app.handle_key(Key::Down);
    app.handle_key(Key::Delete);
    assert_eq!(app.message_widget_state.selected, Some(1));
    assert!(!app.can_handle_key(Key::Delete));
    app.fit_selection();
    assert_eq!(app.message_widget_state.selected, Some(0));
    assert!(app.can_handle_key(Key::Delete));
    app.handle_key(Key::Delete);
    app.fit_selection();
    assert_eq!(app.message_widget_state.selected, None);
    assert!(app.can_handle_key(Key::Delete));
    app.handle_key(Key::Delete);
    assert!(app.messages.is_empty());
}

#[test]
fn message_box_returns_to_where_it_was_opened() {
    let mut app = app_with(&[]);
    app.find_area(Err("Need > 3 points to calculate area".to_string()));
    assert_eq!(app.popup_state.pre_popup_mode, Mode::Normal);
    app.handle_key(Key::Char('q'));
    assert_eq!(app.mode, Mode::Normal);
    app.handle_key(Key::Char('i'));
    app.insert_point("nothing".to_string(), None);
    assert_eq!(app.popup_state.pre_popup_mode, Mode::Input);
    app.handle_key(Key::Esc);
    assert_eq!(app.mode, Mode::Input);
}

#[test]
fn unbound_keys_do_nothing() {
    let mut app = app_with(&[[1.0, 1.0]]);
    app.handle_key(Key::Char('e'));
    app.handle_key(Key::Enter);
    assert_eq!(app.handle_key(Key::Char('x')), Action::Continue);
    assert_eq!(app.handle_key(Key::Delete), Action::Continue);
    assert_eq!(app.mode, Mode::Select);
    assert_eq!(app.messages, vec![[1.0, 1.0]]);
    assert_eq!(app.message_widget_state.selected, Some(0));
}
