//! The state of the point editor and how each key press changes it.
//!
//! The terminal front end draws the state, reads a key, hands it to
//! [`App::handle_key`], and performs the [`Action`] it gets back: the work that
//! needs the terminal, the text field or floating point.

use vstd::prelude::*;

verus! {

/// What the keys do at the moment.
#[derive(Clone, Copy, PartialEq, Eq, Structural, Debug)]
pub enum Mode {
    /// Commands: quit, clear, input, edit, and the three calculations.
    Normal,
    /// Typing a point into the text field.
    Input,
    /// Browsing the recorded points.
    Edit,
    /// Moving the chosen point up or down the list.
    Select,
    /// A message box is shown; any key closes it.
    Popup,
}

impl Default for Mode {
    fn default() -> (m: Mode)
        ensures
            m == Mode::Normal,
    {
        Mode::Normal
    }
}

/// The border colour of the message box.
#[derive(Clone, Copy, PartialEq, Eq, Structural, Debug)]
pub enum PopupColor {
    /// The terminal's default style.
    Plain,
    /// A result.
    Green,
    /// An error.
    Red,
}

/// A key press, as far as the editor tells keys apart.
#[derive(Clone, Copy, PartialEq, Eq, Structural, Debug)]
pub enum Key {
    Char(char),
    Enter,
    Esc,
    Up,
    Down,
    Delete,
    Other,
}

/// What the front end does after a key press, beyond the change of state
/// that [`App::handle_key`] has made.
#[derive(Clone, Copy, PartialEq, Eq, Structural, Debug)]
pub enum Action {
    /// Nothing more: draw and read the next key.
    Continue,
    /// Leave the program.
    Quit,
    /// Hand the key to the text field.
    EditInput,
    /// Take the typed text, read a point from it and call [`App::insert_point`].
    InsertPoint,
    /// Calculate the polynomial and call [`App::find_polynomial`].
    FindPolynomial,
    /// Calculate the circle and call [`App::find_circle`].
    FindCircle,
    /// Calculate the area and call [`App::find_area`].
    FindArea,
}

/// The action that a key press asks of the front end in a mode.
pub open spec fn key_action(mode: Mode, key: Key) -> Action {
    match mode {
        Mode::Normal => match key {
            Key::Char('p') => Action::FindPolynomial,
            Key::Char('c') => Action::FindCircle,
            Key::Char('a') => Action::FindArea,
            Key::Char('q') => Action::Quit,
            _ => Action::Continue,
        },
        Mode::Input => match key {
            Key::Enter => Action::InsertPoint,
            Key::Esc => Action::Continue,
            _ => Action::EditInput,
        },
        _ => Action::Continue,
    }
}

/// Whether a key has a handling of its own in a mode (any other key does
/// nothing there).
pub open spec fn key_bound(mode: Mode, key: Key) -> bool {
    match mode {
        Mode::Popup | Mode::Input => true,
        Mode::Normal => key == Key::Char('i') || key == Key::Char('e') || key == Key::Char('p')
            || key == Key::Char('c') || key == Key::Char('a') || key == Key::Char('d') || key
            == Key::Char('q'),
        Mode::Edit => key == Key::Down || key == Key::Up || key == Key::Delete || key == Key::Char(
            'e',
        ) || key == Key::Enter || key == Key::Esc,
        Mode::Select => key == Key::Up || key == Key::Down || key == Key::Enter || key == Key::Esc,
    }
}

/// The selection in the list of points: which item is selected, and the index
/// of the first item in view.
#[derive(Clone, Copy, PartialEq, Eq, Structural, Debug)]
pub struct ListSelection {
    pub offset: usize,
    pub selected: Option<usize>,
}

/// The index that `Option::unwrap_or_default` takes from a selection.
pub open spec fn selected_or_zero(selected: Option<usize>) -> int {
    match selected {
        Some(i) => i as int,
        None => 0,
    }
}

impl ListSelection {
    /// Selecting `index`; clearing the selection also scrolls back to the top.
    pub open spec fn with_selected(self, index: Option<usize>) -> ListSelection {
        ListSelection { offset: if index is None { 0 } else { self.offset }, selected: index }
    }

    /// Moving the selection `amount` items towards the top, stopping at the first.
    pub open spec fn scrolled_up(self, amount: u16) -> ListSelection {
        let s = selected_or_zero(self.selected);
        self.with_selected(Some(if s >= amount { (s - amount) as usize } else { 0usize }))
    }

    /// Moving the selection `amount` items towards the bottom, saturating at
    /// `usize::MAX`; the list widget brings it back in range when it is drawn.
    pub open spec fn scrolled_down(self, amount: u16) -> ListSelection {
        let s = selected_or_zero(self.selected);
        self.with_selected(
            Some(if s + amount > usize::MAX { usize::MAX } else { (s + amount) as usize }),
        )
    }

    /// The selection as the list widget leaves it when it draws `len` items:
    /// none for an empty list, the last item for an index past the end.
    pub open spec fn fitted(self, len: nat) -> ListSelection {
        if len == 0 {
            self.with_selected(None)
        } else if self.selected matches Some(s) && s >= len {
            self.with_selected(Some((len - 1) as usize))
        } else {
            self
        }
    }

    pub fn new() -> (r: ListSelection)
        ensures
            r == (ListSelection { offset: 0, selected: None }),
    {
        ListSelection { offset: 0, selected: None }
    }

    pub fn selected(&self) -> (r: Option<usize>)
        ensures
            r == self.selected,
    {
        self.selected
    }

    pub fn select(&mut self, index: Option<usize>)
        ensures
            *final(self) == old(self).with_selected(index),
    {
        self.selected = index;
        if index.is_none() {
            self.offset = 0;
        }
    }

    pub fn select_first(&mut self)
        ensures
            *final(self) == old(self).with_selected(Some(0)),
    {
        self.select(Some(0));
    }

    /// Brings the selection into a list of `len` items, as the list widget
    /// does when it draws them.
    pub fn fit_to(&mut self, len: usize)
        ensures
            *final(self) == old(self).fitted(len as nat),
    {
        if len == 0 {
            self.select(None);
        } else {
            match self.selected {
                Some(s) => {
                    if s >= len {
                        self.select(Some(len - 1));
                    }
                },
                None => {},
            }
        }
    }

    pub fn scroll_up_by(&mut self, amount: u16)
        ensures
            *final(self) == old(self).scrolled_up(amount),
    {
        let selected: usize = match self.selected {
            Some(i) => i,
            None => 0,
        };
        let a: usize = amount as usize;
        let next: usize = if selected >= a { selected - a } else { 0 };
        self.select(Some(next));
    }

    pub fn scroll_down_by(&mut self, amount: u16)
        ensures
            *final(self) == old(self).scrolled_down(amount),
    {
        let selected: usize = match self.selected {
            Some(i) => i,
            None => 0,
        };
        let a: usize = amount as usize;
        let next: usize = if selected > usize::MAX - a { usize::MAX } else { selected + a };
        self.select(Some(next));
    }
}

impl Default for ListSelection {
    fn default() -> (r: ListSelection)
        ensures
            r == (ListSelection { offset: 0, selected: None }),
    {
        ListSelection::new()
    }
}

/// The message box: its text, the mode to return to when it closes, its title
/// and its border colour.
pub struct PopupState {
    pub message: String,
    pub pre_popup_mode: Mode,
    pub title: String,
    pub color: PopupColor,
}

impl Default for PopupState {
    fn default() -> (r: PopupState)
        ensures
            r.message@ == Seq::<char>::empty(),
            r.title@ == Seq::<char>::empty(),
            r.pre_popup_mode == Mode::Normal,
            r.color == PopupColor::Plain,
    {
        PopupState {
            message: String::new(),
            pre_popup_mode: Mode::Normal,
            title: String::new(),
            color: PopupColor::Plain,
        }
    }
}

/// The message box as plain values.
#[verifier::ext_equal]
pub struct PopupView {
    pub message: Seq<char>,
    pub pre_popup_mode: Mode,
    pub title: Seq<char>,
    pub color: PopupColor,
}

/// The editor's state, without the text being typed: the mode, the recorded
/// points in order, the selection in their list and the message box.
pub struct App<T> {
    pub mode: Mode,
    pub messages: Vec<T>,
    pub message_widget_state: ListSelection,
    pub popup_state: PopupState,
}

/// The editor's state as plain values.
#[verifier::ext_equal]
pub struct AppView<T> {
    pub mode: Mode,
    pub points: Seq<T>,
    pub selection: ListSelection,
    pub popup: PopupView,
}

impl<T> View for App<T> {
    type V = AppView<T>;

    open spec fn view(&self) -> AppView<T> {
        AppView {
            mode: self.mode,
            points: self.messages@,
            selection: self.message_widget_state,
            popup: PopupView {
                message: self.popup_state.message@,
                pre_popup_mode: self.popup_state.pre_popup_mode,
                title: self.popup_state.title@,
                color: self.popup_state.color,
            },
        }
    }
}

/// `s` with the items at `i` and `j` exchanged.
pub open spec fn swapped<T>(s: Seq<T>, i: int, j: int) -> Seq<T> {
    s.update(i, s[j]).update(j, s[i])
}

/// The text of the message shown when typed text holds no point.
pub open spec fn input_error_message(input: Seq<char>) -> Seq<char> {
    "Cannot get point from input '"@ + input + "'"@
}

/// The text of the message shown when a calculation fails.
pub open spec fn calculation_error_message(err: Seq<char>) -> Seq<char> {
    "An error occured: "@ + err
}

/// The state the editor starts in: commands, no points, nothing selected,
/// an empty message box.
pub open spec fn initial_view<T>() -> AppView<T> {
    AppView {
        mode: Mode::Normal,
        points: Seq::empty(),
        selection: ListSelection { offset: 0, selected: None },
        popup: PopupView {
            message: Seq::empty(),
            pre_popup_mode: Mode::Normal,
            title: Seq::empty(),
            color: PopupColor::Plain,
        },
    }
}

impl<T> AppView<T> {
    pub open spec fn with_mode(self, mode: Mode) -> AppView<T> {
        AppView { mode, ..self }
    }

    pub open spec fn with_selection(self, selection: ListSelection) -> AppView<T> {
        AppView { selection, ..self }
    }

    pub open spec fn with_points(self, points: Seq<T>) -> AppView<T> {
        AppView { points, ..self }
    }

    /// Opening the message box, which remembers the mode to come back to.
    pub open spec fn popup_started(self, title: Seq<char>, message: Seq<char>, color: PopupColor) -> AppView<T> {
        AppView {
            mode: Mode::Popup,
            popup: PopupView { message, pre_popup_mode: self.mode, title, color },
            ..self
        }
    }

    /// Closing the message box: back to the mode it was opened from.
    pub open spec fn popup_stopped(self) -> AppView<T> {
        self.with_mode(self.popup.pre_popup_mode)
    }

    /// Entering edit mode with the first point selected.
    pub open spec fn edit_started(self) -> AppView<T> {
        self.with_selection(self.selection.with_selected(Some(0))).with_mode(Mode::Edit)
    }

    /// Leaving input mode: nothing selected, back to commands.
    pub open spec fn input_stopped(self) -> AppView<T> {
        self.with_selection(self.selection.with_selected(None)).with_mode(Mode::Normal)
    }

    /// Leaving edit mode: nothing selected, back to commands.
    pub open spec fn edit_stopped(self) -> AppView<T> {
        self.with_selection(self.selection.with_selected(None)).with_mode(Mode::Normal)
    }

    /// Scrolling the list: a positive `n` moves the selection up by `n`
    /// (truncated to 16 bits), any other moves it down by `-n`.
    pub open spec fn points_scrolled(self, n: i32) -> AppView<T> {
        if n > 0 {
            self.with_selection(self.selection.scrolled_up(n as u16))
        } else {
            self.with_selection(self.selection.scrolled_down((-n) as u16))
        }
    }

    /// Whether moving the selected point up (`up`) or down is defined: moving
    /// up needs a selected index inside the list, and moving down needs the
    /// index one past the selection (or past the list, when nothing is
    /// selected) to fit in `usize`.
    pub open spec fn move_is_safe(self, up: bool) -> bool {
        if up {
            self.selection.selected matches Some(s) ==> s == 0 || s < self.points.len()
        } else {
            match self.selection.selected {
                Some(s) => s < usize::MAX,
                None => self.points.len() < usize::MAX,
            }
        }
    }

    /// Moving the selected point one place up (towards the first) or down,
    /// the selection following it; nothing changes at either end of the list
    /// or without a selection.
    pub open spec fn point_moved(self, up: bool) -> AppView<T> {
        match self.selection.selected {
            None => self,
            Some(s) => {
                if up {
                    if s == 0 {
                        self
                    } else {
                        AppView {
                            points: swapped(self.points, s as int, s - 1),
                            selection: ListSelection { selected: Some((s - 1) as usize), ..self.selection },
                            ..self
                        }
                    }
                } else {
                    if s + 1 >= self.points.len() {
                        self
                    } else {
                        AppView {
                            points: swapped(self.points, s as int, s + 1),
                            selection: ListSelection { selected: Some((s + 1) as usize), ..self.selection },
                            ..self
                        }
                    }
                }
            },
        }
    }

    /// Whether deleting the selected point is defined: the selection, if any,
    /// lies inside the list.
    pub open spec fn delete_is_safe(self) -> bool {
        self.selection.selected matches Some(n) ==> n < self.points.len()
    }

    /// Deleting the selected point; the selection itself stays as it was.
    pub open spec fn point_deleted(self) -> AppView<T> {
        match self.selection.selected {
            Some(n) => self.with_points(self.points.remove(n as int)),
            None => self,
        }
    }

    /// Whether recording `point` is defined: a point that replaces the
    /// selected one needs the selection inside the list.
    pub open spec fn insert_is_safe(self, point: Option<T>) -> bool {
        (self.mode == Mode::Input && point is Some) ==> (self.selection.selected matches Some(n)
            ==> n < self.points.len())
    }

    /// Whether the change that `key` makes is defined (see the three
    /// conditions above).
    pub open spec fn key_is_safe(self, key: Key) -> bool {
        match (self.mode, key) {
            (Mode::Edit, Key::Delete) => self.delete_is_safe(),
            (Mode::Select, Key::Up) => self.move_is_safe(true),
            (Mode::Select, Key::Down) => self.move_is_safe(false),
            _ => true,
        }
    }

    /// The change of state that a key press makes by itself.
    pub open spec fn after_key(self, key: Key) -> AppView<T> {
        match self.mode {
            Mode::Popup => self.popup_stopped(),
            Mode::Normal => match key {
                Key::Char('i') => self.with_mode(Mode::Input),
                Key::Char('e') => self.edit_started(),
                Key::Char('d') => self.with_points(Seq::empty()),
                _ => self,
            },
            Mode::Input => match key {
                Key::Esc => self.input_stopped(),
                _ => self,
            },
            Mode::Edit => match key {
                Key::Down => self.points_scrolled(-1i32),
                Key::Up => self.points_scrolled(1i32),
                Key::Delete => self.point_deleted(),
                Key::Char('e') => self.with_mode(Mode::Input),
                Key::Enter => self.with_mode(Mode::Select),
                Key::Esc => self.edit_stopped(),
                _ => self,
            },
            Mode::Select => match key {
                Key::Up => self.point_moved(true),
                Key::Down => self.point_moved(false),
                Key::Enter => self.with_mode(Mode::Edit),
                Key::Esc => self.edit_stopped(),
                _ => self,
            },
        }
    }

    /// The state after the points are drawn: the selection brought into the
    /// list, and the first item in view at `offset`.
    pub open spec fn drawn(self, offset: usize) -> AppView<T> {
        self.with_selection(
            ListSelection { offset, ..self.selection.fitted(self.points.len()) },
        )
    }

    /// One turn of the front end: draw (scrolling the list to `offset`), take
    /// `key`, and do what the key asks; `input` and `point` are the typed text
    /// and the point read from it, `result` the outcome of a calculation.
    pub open spec fn after_event(
        self,
        offset: usize,
        key: Key,
        input: Seq<char>,
        point: Option<T>,
        result: Result<Seq<char>, Seq<char>>,
    ) -> AppView<T> {
        let d = self.drawn(offset);
        let s = d.after_key(key);
        match key_action(d.mode, key) {
            Action::InsertPoint => s.point_inserted(input, point),
            Action::FindPolynomial => s.calc_result_shown("Polynomial equation"@, result),
            Action::FindCircle => s.calc_result_shown("Circle Equation"@, result),
            Action::FindArea => s.calc_result_shown("Area"@, result),
            _ => s,
        }
    }

    /// What holds of every state the front end reaches: the message box
    /// returns to commands or to typing, and in command mode (now or on
    /// closing the box) nothing is selected.
    pub open spec fn well_formed(self) -> bool {
        &&& self.mode == Mode::Popup ==> (self.popup.pre_popup_mode == Mode::Normal
            || self.popup.pre_popup_mode == Mode::Input)
        &&& (self.mode == Mode::Normal || (self.mode == Mode::Popup && self.popup.pre_popup_mode
            == Mode::Normal)) ==> self.selection.selected is None
    }

    /// Recording the point read from the typed text `input`: in input mode, a
    /// point replaces the selected one (and editing resumes) or, without a
    /// selection, is appended; text without a point opens an error box. In any
    /// other mode nothing changes.
    pub open spec fn point_inserted(self, input: Seq<char>, point: Option<T>) -> AppView<T> {
        if self.mode == Mode::Input {
            match point {
                Some(p) => match self.selection.selected {
                    Some(n) => self.with_points(self.points.update(n as int, p)).with_mode(Mode::Edit),
                    None => self.with_points(self.points.push(p)),
                },
                None => self.popup_started("Input Error"@, input_error_message(input), PopupColor::Red),
            }
        } else {
            self
        }
    }

    /// Showing the outcome of a calculation: the result under `title` in
    /// green, or the error in red.
    pub open spec fn calc_result_shown(self, title: Seq<char>, result: Result<Seq<char>, Seq<char>>) -> AppView<T> {
        match result {
            Ok(equation) => self.popup_started(title, equation, PopupColor::Green),
            Err(err) => self.popup_started("Calculation error"@, calculation_error_message(err), PopupColor::Red),
        }
    }
}

impl<T> App<T> {
    pub fn new() -> (r: App<T>)
        ensures
            r@ == initial_view::<T>(),
    {
        App {
            mode: Mode::Normal,
            messages: Vec::new(),
            message_widget_state: ListSelection::new(),
            popup_state: PopupState::default(),
        }
    }

    /// Brings the selection into the list of points, as drawing the list does.
    pub fn fit_selection(&mut self)
        ensures
            final(self)@ == old(self)@.with_selection(old(self)@.selection.fitted(old(self)@.points.len())),
    {
        let len = self.messages.len();
        self.message_widget_state.fit_to(len);
    }

    pub fn start_input(&mut self)
        ensures
            final(self)@ == old(self)@.with_mode(Mode::Input),
    {
        self.mode = Mode::Input;
    }

    /// Leaves input mode for commands, clearing the selection, so that the
    /// next point typed after `i` is recorded as a new point.
    pub fn stop_input(&mut self)
        ensures
            final(self)@ == old(self)@.input_stopped(),
    {
        self.message_widget_state.select(None);
        self.mode = Mode::Normal;
    }

    pub fn start_popup(&mut self, title: String, message: String, border_color: PopupColor)
        ensures
            final(self)@ == old(self)@.popup_started(title@, message@, border_color),
    {
        self.popup_state.title = title;
        self.popup_state.message = message;
        self.popup_state.pre_popup_mode = self.mode;
        self.popup_state.color = border_color;
        self.mode = Mode::Popup;
    }

    pub fn stop_popup(&mut self)
        ensures
            final(self)@ == old(self)@.popup_stopped(),
    {
        self.mode = self.popup_state.pre_popup_mode;
    }

    pub fn start_edit(&mut self)
        ensures
            final(self)@ == old(self)@.edit_started(),
    {
        self.message_widget_state.select_first();
        self.mode = Mode::Edit;
    }

    pub fn stop_edit(&mut self)
        ensures
            final(self)@ == old(self)@.edit_stopped(),
    {
        self.message_widget_state.select(None);
        self.mode = Mode::Normal;
    }

    /// Positive `n` scrolls up.
    pub fn scroll_points(&mut self, n: i32)
        requires
            n != i32::MIN,
        ensures
            final(self)@ == old(self)@.points_scrolled(n),
    {
        if n > 0 {
            self.message_widget_state.scroll_up_by(n as u16);
        } else {
            self.message_widget_state.scroll_down_by((-n) as u16);
        }
    }

    /// Moves the selected point one place up (`up`) or down, the selection
    /// following it.
    pub fn move_point(&mut self, up: bool)
        requires
            old(self)@.move_is_safe(up),
        ensures
            final(self)@ == old(self)@.point_moved(up),
    {
        let selected = self.message_widget_state.selected;
        let cur: usize;
        let next: usize;
        if up {
            // move index towards 0
            match selected {
                None => {
                    return;
                },
                Some(s) => {
                    if s == 0 {
                        return;
                    }
                    cur = s;
                    next = s - 1;
                },
            }
            swap_with_next(&mut self.messages, next);
            assert(swapped(old(self)@.points, next as int, cur as int) =~= swapped(
                old(self)@.points,
                cur as int,
                next as int,
            ));
        } else {
            // move index towards self.messages.len()
            let lim = self.messages.len();
            match selected {
                None => {
                    return;
                },
                Some(s) => {
                    if s + 1 >= lim {
                        return;
                    }
                    cur = s;
                    next = s + 1;
                },
            }
            swap_with_next(&mut self.messages, cur);
        }
        self.message_widget_state.selected = Some(next);
    }

    /// Deletes the selected point.
    pub fn delete_selected_point(&mut self)
        requires
            old(self)@.delete_is_safe(),
        ensures
            final(self)@ == old(self)@.point_deleted(),
    {
        match self.message_widget_state.selected() {
            None => {},
            Some(n) => {
                self.messages.remove(n);
            },
        }
    }

    /// Forgets every recorded point.
    pub fn clear_points(&mut self)
        ensures
            final(self)@ == old(self)@.with_points(Seq::empty()),
    {
        self.messages.clear();
    }

    /// Records the point that the caller read from the typed text `input`
    /// (`None` when the text holds none).
    pub fn insert_point(&mut self, input: String, point: Option<T>)
        requires
            old(self)@.insert_is_safe(point),
        ensures
            final(self)@ == old(self)@.point_inserted(input@, point),
    {
        if self.mode == Mode::Input {
            match point {
                Some(p) => {
                    match self.message_widget_state.selected() {
                        Some(n) => {
                            self.messages.set(n, p);
                            // Exit 1-time input mode and go back to edit
                            self.mode = Mode::Edit;
                        },
                        None => {
                            self.messages.push(p);
                        },
                    }
                },
                None => {
                    let mut message = String::from_str("Cannot get point from input '");
                    message.append(input.as_str());
                    message.append("'");
                    self.start_popup(String::from_str("Input Error"), message, PopupColor::Red);
                },
            }
        }
    }

    /// Shows the outcome of a calculation in the message box.
    pub fn show_calc_result(&mut self, title: String, result: Result<String, String>)
        ensures
            final(self)@ == old(self)@.calc_result_shown(
                title@,
                match result {
                    Ok(e) => Ok(e@),
                    Err(e) => Err(e@),
                },
            ),
    {
        match result {
            Ok(equation) => {
                self.start_popup(title, equation, PopupColor::Green);
            },
            Err(err) => {
                let mut message = String::from_str("An error occured: ");
                message.append(err.as_str());
                self.start_popup(String::from_str("Calculation error"), message, PopupColor::Red);
            },
        }
    }

    pub fn find_polynomial(&mut self, result: Result<String, String>)
        ensures
            final(self)@ == old(self)@.calc_result_shown(
                "Polynomial equation"@,
                match result {
                    Ok(e) => Ok(e@),
                    Err(e) => Err(e@),
                },
            ),
    {
        self.show_calc_result(String::from_str("Polynomial equation"), result);
    }

    pub fn find_circle(&mut self, result: Result<String, String>)
        ensures
            final(self)@ == old(self)@.calc_result_shown(
                "Circle Equation"@,
                match result {
                    Ok(e) => Ok(e@),
                    Err(e) => Err(e@),
                },
            ),
    {
        self.show_calc_result(String::from_str("Circle Equation"), result);
    }

    pub fn find_area(&mut self, result: Result<String, String>)
        ensures
            final(self)@ == old(self)@.calc_result_shown(
                "Area"@,
                match result {
                    Ok(e) => Ok(e@),
                    Err(e) => Err(e@),
                },
            ),
    {
        self.show_calc_result(String::from_str("Area"), result);
    }

    /// Whether [`App::handle_key`] may be called with `key`.
    pub fn can_handle_key(&self, key: Key) -> (r: bool)
        ensures
            r == self@.key_is_safe(key),
    {
        let len = self.messages.len();
        match (self.mode, key) {
            (Mode::Edit, Key::Delete) => match self.message_widget_state.selected {
                Some(n) => n < len,
                None => true,
            },
            (Mode::Select, Key::Up) => match self.message_widget_state.selected {
                Some(s) => s == 0 || s < len,
                None => true,
            },
            (Mode::Select, Key::Down) => match self.message_widget_state.selected {
                Some(s) => s < usize::MAX,
                None => len < usize::MAX,
            },
            _ => true,
        }
    }

    /// Whether [`App::insert_point`] may be called with `point`.
    pub fn can_insert(&self, point: &Option<T>) -> (r: bool)
        ensures
            r == self@.insert_is_safe(*point),
    {
        if self.mode == Mode::Input && point.is_some() {
            match self.message_widget_state.selected {
                Some(n) => n < self.messages.len(),
                None => true,
            }
        } else {
            true
        }
    }

    /// Makes the change of state that `key` asks for and says what the front
    /// end has to do besides.
    pub fn handle_key(&mut self, key: Key) -> (r: Action)
        requires
            old(self)@.key_is_safe(key),
        ensures
            r == key_action(old(self).mode, key),
            final(self)@ == old(self)@.after_key(key),
    {
        match self.mode {
            Mode::Popup => {
                self.stop_popup();
                Action::Continue
            },
            Mode::Normal => match key {
                Key::Char('i') => {
                    self.start_input();
                    Action::Continue
                },
                Key::Char('e') => {
                    self.start_edit();
                    Action::Continue
                },
                Key::Char('p') => Action::FindPolynomial,
                Key::Char('c') => Action::FindCircle,
                Key::Char('a') => Action::FindArea,
                Key::Char('d') => {
                    self.clear_points();
                    Action::Continue
                },
                Key::Char('q') => Action::Quit,
                _ => Action::Continue,
            },
            Mode::Input => match key {
                Key::Enter => Action::InsertPoint,
                Key::Esc => {
                    self.stop_input();
                    Action::Continue
                },
                _ => Action::EditInput,
            },
            Mode::Edit => match key {
                Key::Down => {
                    self.scroll_points(-1);
                    Action::Continue
                },
                Key::Up => {
                    self.scroll_points(1);
                    Action::Continue
                },
                Key::Delete => {
                    self.delete_selected_point();
                    Action::Continue
                },
                Key::Char('e') => {
                    self.start_input();
                    Action::Continue
                },
                Key::Enter => {
                    self.mode = Mode::Select;
                    Action::Continue
                },
                Key::Esc => {
                    self.stop_edit();
                    Action::Continue
                },
                _ => Action::Continue,
            },
            Mode::Select => match key {
                Key::Up => {
                    self.move_point(true);
                    Action::Continue
                },
                Key::Down => {
                    self.move_point(false);
                    Action::Continue
                },
                Key::Enter => {
                    self.mode = Mode::Edit;
                    Action::Continue
                },
                Key::Esc => {
                    self.stop_edit();
                    Action::Continue
                },
                _ => Action::Continue,
            },
        }
    }
}

/// Exchanges the items at `k` and `k + 1`.
fn swap_with_next<T>(v: &mut Vec<T>, k: usize)
    requires
        k + 1 < old(v).len(),
    ensures
        final(v)@ == swapped(old(v)@, k as int, k + 1),
{
    let x = v.remove(k + 1);
    v.insert(k, x);
    assert(v@ =~= swapped(old(v)@, k as int, k + 1));
}

} // verus!
