//! What the screen shows in each mode: the header, the help line, which boxes
//! are highlighted, and where the message box and the cursor go.

use vstd::prelude::*;
use crate::app::{Key, Mode};

verus! {

/// The title in the header for a mode.
pub open spec fn title_text(mode: Mode) -> Seq<char> {
    match mode {
        Mode::Normal => "Command mode"@,
        Mode::Input => "Input mode"@,
        Mode::Edit | Mode::Select => "Edit mode"@,
        Mode::Popup => "Polynomial finder mode"@,
    }
}

/// The title in the header for a mode.
pub fn header_title(mode: Mode) -> (r: &'static str)
    ensures
        r@ == title_text(mode),
{
    match mode {
        Mode::Normal => "Command mode",
        Mode::Input => "Input mode",
        Mode::Edit | Mode::Select => "Edit mode",
        Mode::Popup => "Polynomial finder mode",
    }
}

/// One entry of the help line: the key, what it does, and whether the action
/// is shown with the stronger background.
pub struct HelpEntry {
    pub key: &'static str,
    pub action: &'static str,
    pub strong: bool,
}

/// The help line of a mode, entry by entry.
pub open spec fn help_text(mode: Mode) -> Seq<(Seq<char>, Seq<char>, bool)> {
    match mode {
        Mode::Normal => seq![
            (" q "@, "exit"@, true),
            (" d "@, "delete all points"@, false),
            (" i "@, "input points"@, false),
            (" e "@, "edit points"@, false),
            (" p "@, "find polynomial"@, false),
            (" c "@, "find circle"@, false),
            (" a "@, "find area"@, false),
        ],
        Mode::Input => seq![(" Esc "@, "stop editing"@, false), (" Enter "@, "record point"@, false)],
        Mode::Popup => seq![(" Esc "@, "close popup"@, false)],
        Mode::Edit => seq![
            (" Esc "@, "stop editing"@, false),
            (" Up/Down "@, "scroll up/down"@, false),
            (" Enter "@, "select point"@, false),
            (" e "@, "edit point"@, false),
            (" Del "@, "delete point"@, false),
        ],
        Mode::Select => seq![
            (" Esc "@, "stop editing"@, false),
            (" Up/Down "@, "move point up/down"@, false),
            (" Enter "@, "deselect point"@, false),
        ],
    }
}

/// The word of a help label: the label without the space on either side.
pub open spec fn label_word(label: Seq<char>) -> Seq<char> {
    label.subrange(1, label.len() - 1)
}

/// The keys that a label of the help line names: a word of one character
/// names that character's key; `Esc`, `Del`, `Enter` and `Up/Down` name
/// those keys.
pub open spec fn label_keys(label: Seq<char>) -> Set<Key> {
    let w = label_word(label);
    if label.len() < 3 || label[0] != ' ' || label[label.len() - 1] != ' ' {
        Set::empty()
    } else if w.len() == 1 {
        set![Key::Char(w[0])]
    } else if w.len() == 3 && w[0] == 'E' && w[1] == 's' && w[2] == 'c' {
        set![Key::Esc]
    } else if w.len() == 3 && w[0] == 'D' && w[1] == 'e' && w[2] == 'l' {
        set![Key::Delete]
    } else if w.len() == 5 && w[0] == 'E' && w[1] == 'n' && w[2] == 't' && w[3] == 'e' && w[4]
        == 'r' {
        set![Key::Enter]
    } else if w.len() == 7 && w[0] == 'U' && w[1] == 'p' && w[2] == '/' && w[3] == 'D' && w[4]
        == 'o' && w[5] == 'w' && w[6] == 'n' {
        set![Key::Up, Key::Down]
    } else {
        Set::empty()
    }
}

/// The plain values of a help line.
pub open spec fn help_view(entries: Seq<HelpEntry>) -> Seq<(Seq<char>, Seq<char>, bool)> {
    entries.map_values(|e: HelpEntry| (e.key@, e.action@, e.strong))
}

fn entry(key: &'static str, action: &'static str, strong: bool) -> (r: HelpEntry)
    ensures
        r.key@ == key@,
        r.action@ == action@,
        r.strong == strong,
{
    HelpEntry { key, action, strong }
}

/// The help line of a mode.
pub fn help_message(mode: Mode) -> (r: Vec<HelpEntry>)
    ensures
        help_view(r@) == help_text(mode),
{
    let r = match mode {
        Mode::Normal => vec![
            entry(" q ", "exit", true),
            entry(" d ", "delete all points", false),
            entry(" i ", "input points", false),
            entry(" e ", "edit points", false),
            entry(" p ", "find polynomial", false),
            entry(" c ", "find circle", false),
            entry(" a ", "find area", false),
        ],
        Mode::Input => vec![entry(" Esc ", "stop editing", false), entry(" Enter ", "record point", false)],
        Mode::Popup => vec![entry(" Esc ", "close popup", false)],
        Mode::Edit => vec![
            entry(" Esc ", "stop editing", false),
            entry(" Up/Down ", "scroll up/down", false),
            entry(" Enter ", "select point", false),
            entry(" e ", "edit point", false),
            entry(" Del ", "delete point", false),
        ],
        Mode::Select => vec![
            entry(" Esc ", "stop editing", false),
            entry(" Up/Down ", "move point up/down", false),
            entry(" Enter ", "deselect point", false),
        ],
    };
    assert(help_view(r@) =~= help_text(mode));
    r
}

/// The background of the selected point in the list.
#[derive(Clone, Copy, PartialEq, Eq, Structural, Debug)]
pub enum Highlight {
    Plain,
    Yellow,
    Green,
}

/// Whether the text field is drawn in the input colour.
pub fn input_highlighted(mode: Mode) -> (r: bool)
    ensures
        r == (mode == Mode::Input),
{
    mode == Mode::Input
}

/// Whether the list of points has the editing border.
pub fn points_border_highlighted(mode: Mode) -> (r: bool)
    ensures
        r == (mode == Mode::Edit || mode == Mode::Select),
{
    match mode {
        Mode::Edit | Mode::Select => true,
        _ => false,
    }
}

/// The background of the selected point: green while it is being moved,
/// yellow while browsing, none otherwise.
pub fn selection_highlight(mode: Mode) -> (r: Highlight)
    ensures
        r == (match mode {
            Mode::Select => Highlight::Green,
            Mode::Edit => Highlight::Yellow,
            _ => Highlight::Plain,
        }),
{
    match mode {
        Mode::Select => Highlight::Green,
        Mode::Edit => Highlight::Yellow,
        _ => Highlight::Plain,
    }
}

/// Whether the message box is drawn.
pub fn popup_visible(mode: Mode) -> (r: bool)
    ensures
        r == (mode == Mode::Popup),
{
    mode == Mode::Popup
}

/// The height of the message box on a screen `screen_height` rows high: a
/// fifth of the screen, and at least five rows.
pub fn popup_height(screen_height: u16) -> (r: u16)
    ensures
        r == (if screen_height / 5 >= 5 { screen_height / 5 } else { 5 }),
{
    let h = screen_height / 5;
    if h >= 5 { h } else { 5 }
}

/// The width left for text in the input box `box_width` columns wide: two
/// columns of border and one for the cursor (none when the box is narrower).
pub fn input_text_width(box_width: u16) -> (r: usize)
    ensures
        r == (if box_width >= 3 { box_width - 3 } else { 0 }),
{
    let w: u16 = if box_width >= 3 { box_width } else { 3 };
    (w - 3) as usize
}

/// The cursor's column inside the input box: one past the border, then the
/// cursor's place in the text after `scroll` columns scrolled out of view.
pub fn cursor_column(visual_cursor: usize, scroll: usize) -> (r: usize)
    requires
        visual_cursor - scroll < usize::MAX,
    ensures
        r == (if visual_cursor >= scroll { visual_cursor - scroll } else { 0 }) + 1,
{
    let c: usize = if visual_cursor >= scroll { visual_cursor } else { scroll };
    c - scroll + 1
}

/// Whether the cursor position below can be computed without overflowing `u16`.
pub open spec fn cursor_fits(box_x: u16, box_y: u16, column: usize) -> bool {
    box_x + (column as u16) <= u16::MAX && box_y + 1 <= u16::MAX
}

/// The screen position of the cursor: `column` columns right of the box's
/// left edge (the column truncated to 16 bits), one row below its top.
pub fn cursor_position(box_x: u16, box_y: u16, column: usize) -> (r: (u16, u16))
    requires
        cursor_fits(box_x, box_y, column),
    ensures
        r.0 == box_x + (column as u16),
        r.1 == box_y + 1,
{
    (box_x + column as u16, box_y + 1)
}

} // verus!
