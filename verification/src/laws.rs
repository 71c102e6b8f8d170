//! Properties of the editor and of the calculations that hold across calls.

use vstd::prelude::*;
use vstd::utf8::encode_utf8;
use crate::app::{
    AppView, Action, Key, ListSelection, Mode, PopupColor, initial_view, key_action, key_bound, swapped,
    selected_or_zero,
    input_error_message, calculation_error_message,
};
use crate::area::circular_pairs;
use crate::float_parser::{FloatText, shorter_text, point_display, float_display};
use crate::polynomial::polynomial_report;
use crate::view::title_text;
use crate::circle::{Offset, offset_text, circle_equation};
use crate::area::area_report;
use crate::view::{help_text, label_keys};

verus! {

/// Any key closes a message box, and the editor is back in the mode it was in
/// when the box opened, with its points and selection as they were.
pub proof fn popup_closes_to_previous_mode<T>(
    v: AppView<T>,
    title: Seq<char>,
    message: Seq<char>,
    color: PopupColor,
    key: Key,
)
    ensures
        ({
            let after = v.popup_started(title, message, color).after_key(key);
            &&& after.mode == v.mode
            &&& after.points == v.points
            &&& after.selection == v.selection
        }),
        key_action(v.popup_started(title, message, color).mode, key) == Action::Continue,
{
}

/// Moving the selected point up and then down again gives back the list and
/// the selection.
pub proof fn move_up_then_down_restores<T>(v: AppView<T>)
    requires
        v.selection.selected matches Some(s) && 0 < s < v.points.len(),
    ensures
        v.point_moved(true).point_moved(false) == v,
{
    let s = v.selection.selected.unwrap();
    assert(swapped(swapped(v.points, s as int, s - 1), s - 1, s as int) =~= v.points);
}

/// Moving the selected point down and then up again gives back the list and
/// the selection.
pub proof fn move_down_then_up_restores<T>(v: AppView<T>)
    requires
        v.selection.selected matches Some(s) && s + 1 < v.points.len(),
        v.points.len() <= usize::MAX,
    ensures
        v.point_moved(false).point_moved(true) == v,
{
    let s = v.selection.selected.unwrap();
    assert(swapped(swapped(v.points, s as int, s + 1), s + 1, s as int) =~= v.points);
}

/// Exchanging two items keeps the same items.
pub proof fn swapped_keeps_items<T>(s: Seq<T>, i: int, j: int)
    requires
        0 <= i < s.len(),
        0 <= j < s.len(),
    ensures
        swapped(s, i, j).to_multiset() == s.to_multiset(),
        swapped(s, i, j).len() == s.len(),
{
    broadcast use {
        vstd::seq_lib::to_multiset_update,
        vstd::seq_lib::group_to_multiset_ensures,
        vstd::multiset::group_multiset_axioms,
        vstd::multiset::group_multiset_properties,
    };

    if i == j {
        assert(swapped(s, i, j) =~= s);
    } else {
        let s1 = s.update(i, s[j]);
        assert(s1.to_multiset() == s.to_multiset().insert(s[j]).remove(s[i]));
        assert(s1[j] == s[j]);
        assert(swapped(s, i, j).to_multiset() == s1.to_multiset().insert(s[i]).remove(s[j]));
        assert(s.to_multiset().count(s[i]) > 0);
        assert(swapped(s, i, j).to_multiset() =~= s.to_multiset());
    }
}

/// Moving a point keeps the same points, and the selection goes with the
/// point that was selected.
pub proof fn move_keeps_points_and_follows<T>(v: AppView<T>, up: bool)
    requires
        v.move_is_safe(up),
    ensures
        v.point_moved(up).points.to_multiset() == v.points.to_multiset(),
        v.point_moved(up).points.len() == v.points.len(),
        v.selection.selected is Some && v.selection.selected.unwrap() < v.points.len() ==> {
            let after = v.point_moved(up);
            &&& after.selection.selected is Some
            &&& after.points[after.selection.selected.unwrap() as int]
                == v.points[v.selection.selected.unwrap() as int]
        },
        v.point_moved(up).mode == v.mode,
        v.point_moved(up).selection.offset == v.selection.offset,
{
    match v.selection.selected {
        None => {},
        Some(s) => {
            if up && s != 0 {
                swapped_keeps_items(v.points, s as int, s - 1);
            } else if !up && s + 1 < v.points.len() {
                swapped_keeps_items(v.points, s as int, s + 1);
            }
        },
    }
}

/// Deleting the selected point removes exactly that point, keeping the order
/// of the others.
pub proof fn delete_removes_selected<T>(v: AppView<T>)
    requires
        v.selection.selected matches Some(n) && n < v.points.len(),
    ensures
        ({
            let n = v.selection.selected.unwrap() as int;
            &&& v.point_deleted().points.len() == v.points.len() - 1
            &&& v.point_deleted().points == v.points.take(n) + v.points.skip(n + 1)
            &&& v.point_deleted().selection == v.selection
            &&& v.point_deleted().mode == v.mode
        }),
{
    let n = v.selection.selected.unwrap() as int;
    assert(v.points.remove(n) =~= v.points.take(n) + v.points.skip(n + 1));
}

/// A point typed while a point is selected replaces that point and editing
/// resumes; typed with nothing selected it is appended. The other points stay.
/// A selection survives into typing only when typing starts with `e` in edit
/// mode: command mode never has one (see `turn_keeps_well_formed`), so `i`
/// then Enter appends (see `point_after_i_is_appended`).
pub proof fn typed_point_replaces_or_appends<T>(v: AppView<T>, input: Seq<char>, p: T)
    requires
        v.mode == Mode::Input,
    ensures
        ({
            let after = v.point_inserted(input, Some(p));
            match v.selection.selected {
                Some(n) => after.points == v.points.update(n as int, p) && after.mode == Mode::Edit,
                None => after.points == v.points.push(p) && after.mode == Mode::Input && after.points.last()
                    == p,
            }
        }),
{
}

/// Text without a point changes no point, shows an error, and the next key
/// brings the editor back to typing.
pub proof fn bad_input_reports_and_returns<T>(v: AppView<T>, input: Seq<char>, key: Key)
    requires
        v.mode == Mode::Input,
    ensures
        ({
            let after = v.point_inserted(input, None);
            &&& after.mode == Mode::Popup
            &&& after.points == v.points
            &&& after.popup.color == PopupColor::Red
            &&& after.popup.message == input_error_message(input)
            &&& after.after_key(key).mode == Mode::Input
            &&& after.after_key(key).points == v.points
        }),
{
}

/// Escape in edit or select mode always ends editing: back to commands with
/// nothing selected.
pub proof fn escape_ends_editing<T>(v: AppView<T>)
    requires
        v.mode == Mode::Edit || v.mode == Mode::Select,
    ensures
        v.after_key(Key::Esc).mode == Mode::Normal,
        v.after_key(Key::Esc).selection == (ListSelection { offset: 0, selected: None }),
        v.after_key(Key::Esc).points == v.points,
{
}

/// Only `q` in command mode quits.
pub proof fn only_q_quits(mode: Mode, key: Key)
    ensures
        key_action(mode, key) == Action::Quit <==> (mode == Mode::Normal && key == Key::Char('q')),
{
}

/// The points change only by `d` in command mode, Delete in edit mode, and
/// Up or Down in select mode; every other key leaves them as they were.
pub proof fn points_change_only_by_editing_keys<T>(v: AppView<T>, key: Key)
    requires
        !(v.mode == Mode::Normal && key == Key::Char('d')),
        !(v.mode == Mode::Edit && key == Key::Delete),
        !(v.mode == Mode::Select && (key == Key::Up || key == Key::Down)),
    ensures
        v.after_key(key).points == v.points,
{
}

/// A key that the text field takes changes nothing else.
pub proof fn typing_changes_no_state<T>(v: AppView<T>, key: Key)
    requires
        key_action(v.mode, key) == Action::EditInput,
    ensures
        v.after_key(key) == v,
        v.mode == Mode::Input,
{
}

/// The shorter rendering is one of the two, and no longer in bytes than
/// either.
pub proof fn shorter_text_is_shortest(a: Seq<char>, b: Seq<char>)
    ensures
        shorter_text(a, b) == a || shorter_text(a, b) == b,
        encode_utf8(shorter_text(a, b)).len() <= encode_utf8(a).len(),
        encode_utf8(shorter_text(a, b)).len() <= encode_utf8(b).len(),
{
}

/// The pairs of consecutive corners close the polygon: each pair starts where
/// the previous one ended, the last ends where the first starts, and every
/// corner starts exactly one pair.
pub proof fn circular_pairs_close(n: nat)
    requires
        0 < n <= usize::MAX,
    ensures
        circular_pairs(n).len() == n,
        forall|i: int| 0 <= i < n ==> #[trigger] circular_pairs(n)[i].0 == i,
        forall|i: int| 0 < i < n ==> #[trigger] circular_pairs(n)[i].0 == circular_pairs(n)[i - 1].1,
        circular_pairs(n)[n - 1].1 == circular_pairs(n)[0].0,
{
    assert forall|i: int| 0 < i < n implies #[trigger] circular_pairs(n)[i].0 == circular_pairs(
        n,
    )[i - 1].1 by {
        assert((i - 1 + 1) % (n as int) == i) by (nonlinear_arith)
            requires
                0 < i < n,
        ;
    }
    assert(((n - 1) + 1) % (n as int) == 0) by (nonlinear_arith)
        requires
            n > 0,
    ;
}

/// The editor starts in a well-formed state.
pub proof fn initial_is_well_formed<T>()
    ensures
        initial_view::<T>().well_formed(),
{
}

/// Every turn of the front end keeps the state well formed: a message box
/// always returns to commands or to typing, and commands never see a
/// selection.
pub proof fn turn_keeps_well_formed<T>(
    v: AppView<T>,
    offset: usize,
    key: Key,
    input: Seq<char>,
    point: Option<T>,
    result: Result<Seq<char>, Seq<char>>,
)
    requires
        v.well_formed(),
    ensures
        v.after_event(offset, key, input, point, result).well_formed(),
{
}

/// Once the list is drawn, every key can be handled and every typed point
/// recorded: the selection lies inside the list, so no deletion, move or
/// replacement reaches past it. (The list must be shorter than `usize::MAX`,
/// as any list of points in memory is.)
pub proof fn drawn_state_handles_every_key<T>(
    v: AppView<T>,
    offset: usize,
    key: Key,
    point: Option<T>,
)
    requires
        v.points.len() < usize::MAX,
    ensures
        v.drawn(offset).key_is_safe(key),
        key_action(v.drawn(offset).mode, key) == Action::InsertPoint ==> v.drawn(offset).after_key(
            key,
        ).insert_is_safe(point),
{
}

/// In command mode, `i` followed by Enter records the typed point as a new
/// point at the end of the list, and typing goes on.
pub proof fn point_after_i_is_appended<T>(
    v: AppView<T>,
    offset1: usize,
    offset2: usize,
    input: Seq<char>,
    p: T,
    result: Result<Seq<char>, Seq<char>>,
)
    requires
        v.well_formed(),
        v.mode == Mode::Normal,
    ensures
        ({
            let typing = v.after_event(offset1, Key::Char('i'), input, Some(p), result);
            let after = typing.after_event(offset2, Key::Enter, input, Some(p), result);
            &&& typing.mode == Mode::Input
            &&& after.points == v.points.push(p)
            &&& after.mode == Mode::Input
        }),
{
}

/// Escape while typing always goes back to commands with nothing selected.
pub proof fn escape_stops_typing<T>(v: AppView<T>)
    requires
        v.mode == Mode::Input,
    ensures
        v.after_key(Key::Esc).mode == Mode::Normal,
        v.after_key(Key::Esc).selection.selected is None,
        v.after_key(Key::Esc).points == v.points,
{
}

/// The keys that the labels of the help line name, label by label.
proof fn label_keys_values()
    ensures
        label_keys(" q "@) == set![Key::Char('q')],
        label_keys(" d "@) == set![Key::Char('d')],
        label_keys(" i "@) == set![Key::Char('i')],
        label_keys(" e "@) == set![Key::Char('e')],
        label_keys(" p "@) == set![Key::Char('p')],
        label_keys(" c "@) == set![Key::Char('c')],
        label_keys(" a "@) == set![Key::Char('a')],
        label_keys(" Esc "@) == set![Key::Esc],
        label_keys(" Enter "@) == set![Key::Enter],
        label_keys(" Up/Down "@) == set![Key::Up, Key::Down],
        label_keys(" Del "@) == set![Key::Delete],
{
    reveal_strlit(" q ");
    assert(" q "@[0] == ' ');
    assert(" q "@[1] == 'q');
    assert(" q "@[2] == ' ');
    reveal_strlit(" d ");
    assert(" d "@[0] == ' ');
    assert(" d "@[1] == 'd');
    assert(" d "@[2] == ' ');
    reveal_strlit(" i ");
    assert(" i "@[0] == ' ');
    assert(" i "@[1] == 'i');
    assert(" i "@[2] == ' ');
    reveal_strlit(" e ");
    assert(" e "@[0] == ' ');
    assert(" e "@[1] == 'e');
    assert(" e "@[2] == ' ');
    reveal_strlit(" p ");
    assert(" p "@[0] == ' ');
    assert(" p "@[1] == 'p');
    assert(" p "@[2] == ' ');
    reveal_strlit(" c ");
    assert(" c "@[0] == ' ');
    assert(" c "@[1] == 'c');
    assert(" c "@[2] == ' ');
    reveal_strlit(" a ");
    assert(" a "@[0] == ' ');
    assert(" a "@[1] == 'a');
    assert(" a "@[2] == ' ');
    reveal_strlit(" Esc ");
    assert(" Esc "@[0] == ' ');
    assert(" Esc "@[1] == 'E');
    assert(" Esc "@[2] == 's');
    assert(" Esc "@[3] == 'c');
    assert(" Esc "@[4] == ' ');
    reveal_strlit(" Enter ");
    assert(" Enter "@[0] == ' ');
    assert(" Enter "@[1] == 'E');
    assert(" Enter "@[2] == 'n');
    assert(" Enter "@[3] == 't');
    assert(" Enter "@[4] == 'e');
    assert(" Enter "@[5] == 'r');
    assert(" Enter "@[6] == ' ');
    reveal_strlit(" Up/Down ");
    assert(" Up/Down "@[0] == ' ');
    assert(" Up/Down "@[1] == 'U');
    assert(" Up/Down "@[2] == 'p');
    assert(" Up/Down "@[3] == '/');
    assert(" Up/Down "@[4] == 'D');
    assert(" Up/Down "@[5] == 'o');
    assert(" Up/Down "@[6] == 'w');
    assert(" Up/Down "@[7] == 'n');
    assert(" Up/Down "@[8] == ' ');
    reveal_strlit(" Del ");
    assert(" Del "@[0] == ' ');
    assert(" Del "@[1] == 'D');
    assert(" Del "@[2] == 'e');
    assert(" Del "@[3] == 'l');
    assert(" Del "@[4] == ' ');
}

/// Every key that the help line of a mode names has a handling of its own in
/// that mode, and every label names at least one key.
pub proof fn help_line_keys_are_handled(mode: Mode)
    ensures
        forall|i: int|
            0 <= i < help_text(mode).len() ==> #[trigger] label_keys(help_text(mode)[i].0)
                != Set::<Key>::empty(),
        forall|i: int, k: Key|
            0 <= i < help_text(mode).len() && #[trigger] label_keys(help_text(mode)[i].0).contains(k)
                ==> key_bound(mode, k),
{
    label_keys_values();
    assert forall|i: int| 0 <= i < help_text(mode).len() implies #[trigger] label_keys(
        help_text(mode)[i].0,
    ) != Set::<Key>::empty() by {
        let keys = label_keys(help_text(mode)[i].0);
        assert(!Set::<Key>::empty().contains(Key::Esc));
        match mode {
            Mode::Normal => {
                if i == 0 {
                    assert(keys.contains(Key::Char('q')));
                } else if i == 1 {
                    assert(keys.contains(Key::Char('d')));
                } else if i == 2 {
                    assert(keys.contains(Key::Char('i')));
                } else if i == 3 {
                    assert(keys.contains(Key::Char('e')));
                } else if i == 4 {
                    assert(keys.contains(Key::Char('p')));
                } else if i == 5 {
                    assert(keys.contains(Key::Char('c')));
                } else if i == 6 {
                    assert(keys.contains(Key::Char('a')));
                }
            },
            Mode::Input => {
                if i == 0 {
                    assert(keys.contains(Key::Esc));
                } else if i == 1 {
                    assert(keys.contains(Key::Enter));
                }
            },
            Mode::Popup => {
                if i == 0 {
                    assert(keys.contains(Key::Esc));
                }
            },
            Mode::Edit => {
                if i == 0 {
                    assert(keys.contains(Key::Esc));
                } else if i == 1 {
                    assert(keys.contains(Key::Up));
                } else if i == 2 {
                    assert(keys.contains(Key::Enter));
                } else if i == 3 {
                    assert(keys.contains(Key::Char('e')));
                } else if i == 4 {
                    assert(keys.contains(Key::Delete));
                }
            },
            Mode::Select => {
                if i == 0 {
                    assert(keys.contains(Key::Esc));
                } else if i == 1 {
                    assert(keys.contains(Key::Up));
                } else if i == 2 {
                    assert(keys.contains(Key::Enter));
                }
            },
        }
    }
}

/// What each action text of the help line promises of the key it labels,
/// read from the state before the key (`v`), the state after it, and the
/// action asked of the front end. A text outside this list promises nothing
/// and is not accepted.
pub open spec fn help_action_holds<T>(text: Seq<char>, v: AppView<T>, key: Key) -> bool {
    let after = v.after_key(key);
    let action = key_action(v.mode, key);
    &&& (text == "exit"@ || text == "delete all points"@ || text == "input points"@ || text == "edit points"@ || text == "find polynomial"@ || text == "find circle"@ || text == "find area"@ || text == "stop editing"@ || text == "record point"@ || text == "close popup"@ || text == "scroll up/down"@ || text == "select point"@ || text == "edit point"@ || text == "delete point"@ || text == "move point up/down"@ || text == "deselect point"@)
    &&& text == "exit"@ ==> (action == Action::Quit)
    &&& text == "delete all points"@ ==> (after.points.len() == 0 && action == Action::Continue)
    &&& text == "input points"@ ==> (after.mode == Mode::Input && after.points == v.points)
    &&& text == "edit points"@ ==> (after.mode == Mode::Edit && after.selection.selected == Some(0usize))
    &&& text == "find polynomial"@ ==> (action == Action::FindPolynomial)
    &&& text == "find circle"@ ==> (action == Action::FindCircle)
    &&& text == "find area"@ ==> (action == Action::FindArea)
    &&& text == "stop editing"@ ==> (after.mode == Mode::Normal && after.selection.selected is None && after.points == v.points)
    &&& text == "record point"@ ==> (action == Action::InsertPoint)
    &&& text == "close popup"@ ==> (after.mode == v.popup.pre_popup_mode && after.points == v.points)
    &&& text == "scroll up/down"@ ==> (after.mode == v.mode && after.points == v.points && (key == Key::Up ==> selected_or_zero(after.selection.selected) <= selected_or_zero(v.selection.selected)) && (key == Key::Down ==> selected_or_zero(after.selection.selected) >= selected_or_zero(v.selection.selected)))
    &&& text == "select point"@ ==> (after.mode == Mode::Select && after.points == v.points)
    &&& text == "edit point"@ ==> (after.mode == Mode::Input && after.selection == v.selection && after.points == v.points)
    &&& text == "delete point"@ ==> (after.mode == v.mode && (v.selection.selected is Some && v.selection.selected.unwrap() < v.points.len() ==> after.points.len() == v.points.len() - 1))
    &&& text == "move point up/down"@ ==> (after.mode == Mode::Select && after.points.to_multiset() == v.points.to_multiset())
    &&& text == "deselect point"@ ==> (after.mode == Mode::Edit && after.points == v.points)
}

/// Each entry of the help line describes what its key does: for every key a
/// label names, the action text beside it holds of that key in that mode.
pub proof fn help_line_describes_actions<T>(v: AppView<T>, i: int, key: Key)
    requires
        0 <= i < help_text(v.mode).len(),
        label_keys(help_text(v.mode)[i].0).contains(key),
        v.key_is_safe(key),
    ensures
        help_action_holds(help_text(v.mode)[i].1, v, key),
        help_text(v.mode)[i].2 <==> key_action(v.mode, key) == Action::Quit,
{
    label_keys_values();
    reveal_strlit("exit");
    assert("exit"@.len() == 4);
    assert("exit"@[0] == 'e');
    assert("exit"@[1] == 'x');
    assert("exit"@[2] == 'i');
    assert("exit"@[3] == 't');
    reveal_strlit("delete all points");
    assert("delete all points"@.len() == 17);
    assert("delete all points"@[0] == 'd');
    assert("delete all points"@[1] == 'e');
    assert("delete all points"@[2] == 'l');
    assert("delete all points"@[3] == 'e');
    assert("delete all points"@[4] == 't');
    assert("delete all points"@[5] == 'e');
    assert("delete all points"@[6] == ' ');
    assert("delete all points"@[7] == 'a');
    assert("delete all points"@[8] == 'l');
    assert("delete all points"@[9] == 'l');
    assert("delete all points"@[10] == ' ');
    assert("delete all points"@[11] == 'p');
    assert("delete all points"@[12] == 'o');
    assert("delete all points"@[13] == 'i');
    assert("delete all points"@[14] == 'n');
    assert("delete all points"@[15] == 't');
    assert("delete all points"@[16] == 's');
    reveal_strlit("input points");
    assert("input points"@.len() == 12);
    assert("input points"@[0] == 'i');
    assert("input points"@[1] == 'n');
    assert("input points"@[2] == 'p');
    assert("input points"@[3] == 'u');
    assert("input points"@[4] == 't');
    assert("input points"@[5] == ' ');
    assert("input points"@[6] == 'p');
    assert("input points"@[7] == 'o');
    assert("input points"@[8] == 'i');
    assert("input points"@[9] == 'n');
    assert("input points"@[10] == 't');
    assert("input points"@[11] == 's');
    reveal_strlit("edit points");
    assert("edit points"@.len() == 11);
    assert("edit points"@[0] == 'e');
    assert("edit points"@[1] == 'd');
    assert("edit points"@[2] == 'i');
    assert("edit points"@[3] == 't');
    assert("edit points"@[4] == ' ');
    assert("edit points"@[5] == 'p');
    assert("edit points"@[6] == 'o');
    assert("edit points"@[7] == 'i');
    assert("edit points"@[8] == 'n');
    assert("edit points"@[9] == 't');
    assert("edit points"@[10] == 's');
    reveal_strlit("find polynomial");
    assert("find polynomial"@.len() == 15);
    assert("find polynomial"@[0] == 'f');
    assert("find polynomial"@[1] == 'i');
    assert("find polynomial"@[2] == 'n');
    assert("find polynomial"@[3] == 'd');
    assert("find polynomial"@[4] == ' ');
    assert("find polynomial"@[5] == 'p');
    assert("find polynomial"@[6] == 'o');
    assert("find polynomial"@[7] == 'l');
    assert("find polynomial"@[8] == 'y');
    assert("find polynomial"@[9] == 'n');
    assert("find polynomial"@[10] == 'o');
    assert("find polynomial"@[11] == 'm');
    assert("find polynomial"@[12] == 'i');
    assert("find polynomial"@[13] == 'a');
    assert("find polynomial"@[14] == 'l');
    reveal_strlit("find circle");
    assert("find circle"@.len() == 11);
    assert("find circle"@[0] == 'f');
    assert("find circle"@[1] == 'i');
    assert("find circle"@[2] == 'n');
    assert("find circle"@[3] == 'd');
    assert("find circle"@[4] == ' ');
    assert("find circle"@[5] == 'c');
    assert("find circle"@[6] == 'i');
    assert("find circle"@[7] == 'r');
    assert("find circle"@[8] == 'c');
    assert("find circle"@[9] == 'l');
    assert("find circle"@[10] == 'e');
    reveal_strlit("find area");
    assert("find area"@.len() == 9);
    assert("find area"@[0] == 'f');
    assert("find area"@[1] == 'i');
    assert("find area"@[2] == 'n');
    assert("find area"@[3] == 'd');
    assert("find area"@[4] == ' ');
    assert("find area"@[5] == 'a');
    assert("find area"@[6] == 'r');
    assert("find area"@[7] == 'e');
    assert("find area"@[8] == 'a');
    reveal_strlit("stop editing");
    assert("stop editing"@.len() == 12);
    assert("stop editing"@[0] == 's');
    assert("stop editing"@[1] == 't');
    assert("stop editing"@[2] == 'o');
    assert("stop editing"@[3] == 'p');
    assert("stop editing"@[4] == ' ');
    assert("stop editing"@[5] == 'e');
    assert("stop editing"@[6] == 'd');
    assert("stop editing"@[7] == 'i');
    assert("stop editing"@[8] == 't');
    assert("stop editing"@[9] == 'i');
    assert("stop editing"@[10] == 'n');
    assert("stop editing"@[11] == 'g');
    reveal_strlit("record point");
    assert("record point"@.len() == 12);
    assert("record point"@[0] == 'r');
    assert("record point"@[1] == 'e');
    assert("record point"@[2] == 'c');
    assert("record point"@[3] == 'o');
    assert("record point"@[4] == 'r');
    assert("record point"@[5] == 'd');
    assert("record point"@[6] == ' ');
    assert("record point"@[7] == 'p');
    assert("record point"@[8] == 'o');
    assert("record point"@[9] == 'i');
    assert("record point"@[10] == 'n');
    assert("record point"@[11] == 't');
    reveal_strlit("close popup");
    assert("close popup"@.len() == 11);
    assert("close popup"@[0] == 'c');
    assert("close popup"@[1] == 'l');
    assert("close popup"@[2] == 'o');
    assert("close popup"@[3] == 's');
    assert("close popup"@[4] == 'e');
    assert("close popup"@[5] == ' ');
    assert("close popup"@[6] == 'p');
    assert("close popup"@[7] == 'o');
    assert("close popup"@[8] == 'p');
    assert("close popup"@[9] == 'u');
    assert("close popup"@[10] == 'p');
    reveal_strlit("scroll up/down");
    assert("scroll up/down"@.len() == 14);
    assert("scroll up/down"@[0] == 's');
    assert("scroll up/down"@[1] == 'c');
    assert("scroll up/down"@[2] == 'r');
    assert("scroll up/down"@[3] == 'o');
    assert("scroll up/down"@[4] == 'l');
    assert("scroll up/down"@[5] == 'l');
    assert("scroll up/down"@[6] == ' ');
    assert("scroll up/down"@[7] == 'u');
    assert("scroll up/down"@[8] == 'p');
    assert("scroll up/down"@[9] == '/');
    assert("scroll up/down"@[10] == 'd');
    assert("scroll up/down"@[11] == 'o');
    assert("scroll up/down"@[12] == 'w');
    assert("scroll up/down"@[13] == 'n');
    reveal_strlit("select point");
    assert("select point"@.len() == 12);
    assert("select point"@[0] == 's');
    assert("select point"@[1] == 'e');
    assert("select point"@[2] == 'l');
    assert("select point"@[3] == 'e');
    assert("select point"@[4] == 'c');
    assert("select point"@[5] == 't');
    assert("select point"@[6] == ' ');
    assert("select point"@[7] == 'p');
    assert("select point"@[8] == 'o');
    assert("select point"@[9] == 'i');
    assert("select point"@[10] == 'n');
    assert("select point"@[11] == 't');
    reveal_strlit("edit point");
    assert("edit point"@.len() == 10);
    assert("edit point"@[0] == 'e');
    assert("edit point"@[1] == 'd');
    assert("edit point"@[2] == 'i');
    assert("edit point"@[3] == 't');
    assert("edit point"@[4] == ' ');
    assert("edit point"@[5] == 'p');
    assert("edit point"@[6] == 'o');
    assert("edit point"@[7] == 'i');
    assert("edit point"@[8] == 'n');
    assert("edit point"@[9] == 't');
    reveal_strlit("delete point");
    assert("delete point"@.len() == 12);
    assert("delete point"@[0] == 'd');
    assert("delete point"@[1] == 'e');
    assert("delete point"@[2] == 'l');
    assert("delete point"@[3] == 'e');
    assert("delete point"@[4] == 't');
    assert("delete point"@[5] == 'e');
    assert("delete point"@[6] == ' ');
    assert("delete point"@[7] == 'p');
    assert("delete point"@[8] == 'o');
    assert("delete point"@[9] == 'i');
    assert("delete point"@[10] == 'n');
    assert("delete point"@[11] == 't');
    reveal_strlit("move point up/down");
    assert("move point up/down"@.len() == 18);
    assert("move point up/down"@[0] == 'm');
    assert("move point up/down"@[1] == 'o');
    assert("move point up/down"@[2] == 'v');
    assert("move point up/down"@[3] == 'e');
    assert("move point up/down"@[4] == ' ');
    assert("move point up/down"@[5] == 'p');
    assert("move point up/down"@[6] == 'o');
    assert("move point up/down"@[7] == 'i');
    assert("move point up/down"@[8] == 'n');
    assert("move point up/down"@[9] == 't');
    assert("move point up/down"@[10] == ' ');
    assert("move point up/down"@[11] == 'u');
    assert("move point up/down"@[12] == 'p');
    assert("move point up/down"@[13] == '/');
    assert("move point up/down"@[14] == 'd');
    assert("move point up/down"@[15] == 'o');
    assert("move point up/down"@[16] == 'w');
    assert("move point up/down"@[17] == 'n');
    reveal_strlit("deselect point");
    assert("deselect point"@.len() == 14);
    assert("deselect point"@[0] == 'd');
    assert("deselect point"@[1] == 'e');
    assert("deselect point"@[2] == 's');
    assert("deselect point"@[3] == 'e');
    assert("deselect point"@[4] == 'l');
    assert("deselect point"@[5] == 'e');
    assert("deselect point"@[6] == 'c');
    assert("deselect point"@[7] == 't');
    assert("deselect point"@[8] == ' ');
    assert("deselect point"@[9] == 'p');
    assert("deselect point"@[10] == 'o');
    assert("deselect point"@[11] == 'i');
    assert("deselect point"@[12] == 'n');
    assert("deselect point"@[13] == 't');
    if v.mode == Mode::Select && (key == Key::Up || key == Key::Down) {
        move_keeps_points_and_follows(v, key == Key::Up);
    }
}

/// A key without a handling of its own in a mode changes nothing and asks
/// nothing of the front end.
pub proof fn unbound_keys_do_nothing<T>(v: AppView<T>, key: Key)
    requires
        !key_bound(v.mode, key),
    ensures
        v.after_key(key) == v,
        key_action(v.mode, key) == Action::Continue,
{
}

/// The UTF-8 encoding of a concatenation is the concatenation of the
/// encodings.
pub proof fn encode_utf8_concat(a: Seq<char>, b: Seq<char>)
    ensures
        encode_utf8(a + b) == encode_utf8(a) + encode_utf8(b),
    decreases a.len(),
{
    if a.len() == 0 {
        assert(a + b =~= b);
        assert(encode_utf8(a) =~= Seq::<u8>::empty());
        assert(encode_utf8(a) + encode_utf8(b) =~= encode_utf8(b));
    } else {
        assert((a + b).drop_first() =~= a.drop_first() + b);
        assert((a + b)[0] == a[0]);
        encode_utf8_concat(a.drop_first(), b);
        assert(encode_utf8(a + b) =~= encode_utf8(a) + encode_utf8(b));
    }
}

/// Choosing the shorter of two texts with the same prefix is choosing the
/// shorter of the rest, after that prefix.
pub proof fn shorter_text_common_prefix(p: Seq<char>, a: Seq<char>, b: Seq<char>)
    ensures
        shorter_text(p + a, p + b) == p + shorter_text(a, b),
{
    encode_utf8_concat(p, a);
    encode_utf8_concat(p, b);
}

/// The sign before a centre offset depends only on its kind: a subtracted
/// offset is written ` - ` and an added one ` + `, each followed by the
/// shorter rendering of its own value; a left-out offset is written as
/// nothing.
pub proof fn offset_sign_follows_kind(t: FloatText)
    ensures
        offset_text(Offset::Subtract(t)) == " - "@ + shorter_text(t.plain@, t.fixed@),
        offset_text(Offset::Add(t)) == " + "@ + shorter_text(t.plain@, t.fixed@),
        offset_text(Offset::Omit) == Seq::<char>::empty(),
{
    shorter_text_common_prefix(" - "@, t.plain@, t.fixed@);
    shorter_text_common_prefix(" + "@, t.plain@, t.fixed@);
}

/// The equation of a circle with a subtracted x offset and an added y offset
/// reads `(x - a)^2 + (y + b)^2 = r` with `a`, `b` and `r` each in its shorter
/// rendering.
pub proof fn circle_equation_reads_centre_and_radius(a: FloatText, b: FloatText, r: FloatText)
    ensures
        circle_equation(Offset::Subtract(a), Offset::Add(b), r) == "(x"@ + " - "@ + shorter_text(
            a.plain@,
            a.fixed@,
        ) + ")^2 + (y"@ + " + "@ + shorter_text(b.plain@, b.fixed@) + ")^2 = "@ + shorter_text(
            r.plain@,
            r.fixed@,
        ),
        circle_equation(Offset::Add(a), Offset::Subtract(b), r) == "(x"@ + " + "@ + shorter_text(
            a.plain@,
            a.fixed@,
        ) + ")^2 + (y"@ + " - "@ + shorter_text(b.plain@, b.fixed@) + ")^2 = "@ + shorter_text(
            r.plain@,
            r.fixed@,
        ),
{
    offset_sign_follows_kind(a);
    offset_sign_follows_kind(b);
}

/// Every solved area is reported as `A = ` followed by the shorter rendering
/// of that area, whatever its sign; an error is passed on unchanged.
pub proof fn area_report_shows_the_area(a: FloatText, e: String)
    ensures
        area_report(Ok(a)) == Ok::<Seq<char>, Seq<char>>("A = "@ + shorter_text(a.plain@, a.fixed@)),
        area_report(Err(e)) == Err::<Seq<char>, Seq<char>>(e@),
{
}

/// A point is shown as `(x, y)` where each coordinate is the shorter of its
/// own two renderings: the shown y depends on y alone, the shown x on x alone.
pub proof fn point_display_shows_each_coordinate(x: FloatText, y: FloatText, x2: FloatText)
    ensures
        point_display(x, y) == "("@ + shorter_text(x.plain@, x.fixed@) + ", "@ + shorter_text(
            y.plain@,
            y.fixed@,
        ) + ")"@,
        point_display(x2, y).subrange(
            point_display(x2, y).len() - shorter_text(y.plain@, y.fixed@).len() - 1,
            point_display(x2, y).len() as int,
        ) == point_display(x, y).subrange(
            point_display(x, y).len() - shorter_text(y.plain@, y.fixed@).len() - 1,
            point_display(x, y).len() as int,
        ),
{
    reveal_strlit(")");
    let dy = shorter_text(y.plain@, y.fixed@);
    let p1 = point_display(x, y);
    let p2 = point_display(x2, y);
    assert(p1.subrange(p1.len() - dy.len() - 1, p1.len() as int) =~= dy + ")"@);
    assert(p2.subrange(p2.len() - dy.len() - 1, p2.len() as int) =~= dy + ")"@);
}

/// A number is shown in its plain rendering unless the four-decimal one is
/// strictly shorter in UTF-8 bytes.
pub proof fn number_shown_plain_unless_fixed_is_shorter(t: FloatText)
    ensures
        encode_utf8(t.fixed@).len() < encode_utf8(t.plain@).len() ==> float_display(t) == t.fixed@,
        encode_utf8(t.fixed@).len() >= encode_utf8(t.plain@).len() ==> float_display(t) == t.plain@,
{
}

/// Every polynomial found is reported as `f(x) = ` followed by its text; an
/// error is passed on unchanged.
pub proof fn polynomial_report_shows_the_polynomial(p: Seq<char>, e: Seq<char>)
    ensures
        polynomial_report(Ok(p)) == Ok::<Seq<char>, Seq<char>>("f(x) = "@ + p),
        polynomial_report(Err(e)) == Err::<Seq<char>, Seq<char>>(e),
{
}

/// The error shown for text without a point quotes that text: different
/// texts give different messages, and the text stands inside the message.
pub proof fn input_error_quotes_the_text(a: Seq<char>, b: Seq<char>)
    ensures
        input_error_message(a) == input_error_message(b) ==> a == b,
        input_error_message(a).len() == input_error_message(b).len() + a.len() - b.len(),
{
    if input_error_message(a) == input_error_message(b) {
        let p = "Cannot get point from input '"@;
        let q = "'"@;
        assert(input_error_message(a).subrange(p.len() as int, (p.len() + a.len()) as int) =~= a);
        assert(input_error_message(b).subrange(p.len() as int, (p.len() + b.len()) as int) =~= b);
        reveal_strlit("'");
        assert(a.len() == b.len());
    }
}

/// The error shown for a failed calculation ends with that calculation's
/// error: different errors give different messages.
pub proof fn calculation_error_quotes_the_error(a: Seq<char>, b: Seq<char>)
    ensures
        calculation_error_message(a) == calculation_error_message(b) ==> a == b,
        calculation_error_message(a).subrange(
            calculation_error_message(a).len() - a.len(),
            calculation_error_message(a).len() as int,
        ) == a,
{
    let p = "An error occured: "@;
    assert(calculation_error_message(a).subrange(p.len() as int, calculation_error_message(a).len() as int) =~= a);
    assert(calculation_error_message(b).subrange(p.len() as int, calculation_error_message(b).len() as int) =~= b);
}

/// A calculation's outcome opens the message box from the current mode: a
/// result in green under its title with the result as the message, an error
/// in red under "Calculation error" with a message ending in the error. The
/// points and the selection stay.
pub proof fn calc_result_is_shown<T>(v: AppView<T>, title: Seq<char>, result: Result<Seq<char>, Seq<char>>)
    ensures
        ({
            let after = v.calc_result_shown(title, result);
            &&& after.mode == Mode::Popup
            &&& after.popup.pre_popup_mode == v.mode
            &&& after.points == v.points
            &&& after.selection == v.selection
            &&& match result {
                Ok(eq) => after.popup.title == title && after.popup.message == eq && after.popup.color
                    == PopupColor::Green,
                Err(e) => after.popup.title == "Calculation error"@ && after.popup.color
                    == PopupColor::Red && after.popup.message.subrange(
                    after.popup.message.len() - e.len(),
                    after.popup.message.len() as int,
                ) == e,
            }
        }),
{
    if let Err(e) = result {
        calculation_error_quotes_the_error(e, e);
    }
}

/// Drawing the list keeps a selection inside it, moves one past its end to
/// the last item, clears it for an empty list, and changes nothing when
/// repeated.
pub proof fn fitting_keeps_or_moves_to_last(sel: ListSelection, len: nat)
    ensures
        sel.fitted(len).fitted(len) == sel.fitted(len),
        len > 0 && (sel.selected matches Some(s) && s < len) ==> sel.fitted(len) == sel,
        len > 0 && sel.selected is None ==> sel.fitted(len) == sel,
        len > 0 && len <= usize::MAX && (sel.selected matches Some(s) && s >= len) ==> sel.fitted(
            len,
        ).selected == Some((len - 1) as usize) && sel.fitted(len).offset == sel.offset,
        len == 0 ==> sel.fitted(len).selected is None,
        sel.fitted(len).selected matches Some(k) ==> k < len,
{
}

/// Each mode group has its own title: edit and select mode share one, and
/// every other pair of modes is told apart.
pub proof fn titles_tell_modes_apart(a: Mode, b: Mode)
    ensures
        title_text(a) == title_text(b) <==> (a == b || ((a == Mode::Edit || a == Mode::Select) && (b
            == Mode::Edit || b == Mode::Select))),
{
    reveal_strlit("Command mode");
    reveal_strlit("Input mode");
    reveal_strlit("Edit mode");
    reveal_strlit("Polynomial finder mode");
    assert("Command mode"@.len() == 12);
    assert("Input mode"@.len() == 10);
    assert("Edit mode"@.len() == 9);
    assert("Polynomial finder mode"@.len() == 22);
}

} // verus!
