use polynomial_finder::app::Mode;
use polynomial_finder::view::{
    cursor_column, cursor_position, header_title, help_message, input_highlighted, input_text_width,
    points_border_highlighted, popup_height, popup_visible, selection_highlight, Highlight,
};

#[test]
fn header_titles() {
    assert_eq!(header_title(Mode::Normal), "Command mode");
    assert_eq!(header_title(Mode::Input), "Input mode");
    assert_eq!(header_title(Mode::Edit), "Edit mode");
    assert_eq!(header_title(Mode::Select), "Edit mode");
    assert_eq!(header_title(Mode::Popup), "Polynomial finder mode");
}

#[test]
fn help_lines() {
    let normal = help_message(Mode::Normal);
    assert_eq!(normal.len(), 7);
    assert_eq!((normal[0].key, normal[0].action, normal[0].strong), (" q ", "exit", true));
    assert_eq!((normal[6].key, normal[6].action, normal[6].strong), (" a ", "find area", false));
    let popup = help_message(Mode::Popup);
    assert_eq!(popup.len(), 1);
    assert_eq!(popup[0].action, "close popup");
    let select = help_message(Mode::Select);
    assert_eq!(select[1].action, "move point up/down");
    assert_eq!(help_message(Mode::Edit).len(), 5);
    assert_eq!(help_message(Mode::Input)[1].key, " Enter ");
}

#[test]
fn highlights() {
    assert!(input_highlighted(Mode::Input));
    assert!(!input_highlighted(Mode::Edit));
    assert!(points_border_highlighted(Mode::Edit));
    assert!(points_border_highlighted(Mode::Select));
    assert!(!points_border_highlighted(Mode::Normal));
    assert_eq!(selection_highlight(Mode::Select), Highlight::Green);
    assert_eq!(selection_highlight(Mode::Edit), Highlight::Yellow);
    assert_eq!(selection_highlight(Mode::Popup), Highlight::Plain);
    assert!(popup_visible(Mode::Popup));
    assert!(!popup_visible(Mode::Normal));
}

#[test]
fn geometry() {
    assert_eq!(popup_height(10), 5);
    assert_eq!(popup_height(50), 10);
    assert_eq!(popup_height(0), 5);
    assert_eq!(input_text_width(2), 0);
    assert_eq!(input_text_width(40), 37);
    assert_eq!(cursor_column(5, 0), 6);
    assert_eq!(cursor_column(5, 3), 3);
    assert_eq!(cursor_column(2, 3), 1);
    assert_eq!(cursor_position(4, 10, 6), (10, 11));
}
