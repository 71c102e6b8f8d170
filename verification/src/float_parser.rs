//! Rendering of numbers as short text, and reading a point from typed text.

use vstd::prelude::*;
use vstd::utf8::encode_utf8;
use vstd::utf8::is_ascii_chars;

verus! {

/// The two renderings of one number that the display chooses between: the
/// shortest round-trip form (`plain`) and the form with four decimals (`fixed`).
pub struct FloatText {
    pub plain: String,
    pub fixed: String,
}

/// The text that `peroxide`'s `choose_shorter_string` gives back: the second
/// argument when the first is longer in UTF-8 bytes, else the first.
pub open spec fn shorter_text(a: Seq<char>, b: Seq<char>) -> Seq<char> {
    if encode_utf8(a).len() > encode_utf8(b).len() {
        b
    } else {
        a
    }
}

/// Calls `peroxide::fuga::choose_shorter_string`, whose source compares the
/// two strings' byte lengths (`String::len`) and returns the second one only
/// when the first is strictly longer.
#[verifier::external_body]
pub(crate) fn choose_shorter(x1: String, x2: String) -> (r: String)
    ensures
        r@ == shorter_text(x1@, x2@),
{
    peroxide::fuga::choose_shorter_string(x1, x2)
}

/// What `display_float` shows for a number given by its two renderings.
pub open spec fn float_display(t: FloatText) -> Seq<char> {
    shorter_text(t.plain@, t.fixed@)
}

/// Shows a number in whichever of its two renderings is shorter.
pub fn display_float(f: FloatText) -> (r: String)
    ensures
        r@ == float_display(f),
{
    choose_shorter(f.plain, f.fixed)
}

/// What `display_point` shows for a point: `(x, y)` with each coordinate
/// shown as `display_float` shows it.
pub open spec fn point_display(x: FloatText, y: FloatText) -> Seq<char> {
    "("@ + float_display(x) + ", "@ + float_display(y) + ")"@
}

/// Shows a point as `(x, y)`.
pub fn display_point(x: FloatText, y: FloatText) -> (r: String)
    ensures
        r@ == point_display(x, y),
{
    let xs = display_float(x);
    let ys = display_float(y);
    let mut r = String::from_str("(");
    r.append(xs.as_str());
    r.append(", ");
    r.append(ys.as_str());
    r.append(")");
    r
}

/// The pattern of a point in typed text: a number, then at least one character
/// that is neither a digit nor a dot (as few as possible), then a number.
/// Group 1 holds the first number and group 3 the second.
pub const POINT_PATTERN: &'static str = r"(-?\d+(\.\d+)?)[^\d\.]+?(-?\d+(\.\d+)?)";

/// The text of capture group `group` when `regex` compiles `pattern` and finds
/// its first match in `haystack`; `None` when the pattern does not compile,
/// nothing matches, or the group took no part in the match.
pub uninterp spec fn regex_group(pattern: Seq<char>, haystack: Seq<char>, group: usize) -> Option<Seq<char>>;

/// An ASCII decimal digit; on ASCII text these are exactly the characters
/// that the pattern's `\d` matches.
pub open spec fn is_digit(c: char) -> bool {
    '0' <= c <= '9'
}

/// A character that may stand between the two numbers: neither a digit nor
/// a dot.
pub open spec fn is_separator(c: char) -> bool {
    !is_digit(c) && c != '.'
}

/// The end of the run of digits that starts at `i`.
pub open spec fn digits_end(s: Seq<char>, i: int) -> int
    decreases s.len() - i,
{
    if 0 <= i < s.len() && is_digit(s[i]) {
        digits_end(s, i + 1)
    } else {
        i
    }
}

/// The end of the longest number `-?\d+(\.\d+)?` that starts at `i`, if one
/// does.
pub open spec fn number_end(s: Seq<char>, i: int) -> Option<int> {
    let int_start = if 0 <= i < s.len() && s[i] == '-' { i + 1 } else { i };
    if 0 <= int_start < s.len() && is_digit(s[int_start]) {
        let e = digits_end(s, int_start);
        if e + 1 < s.len() && s[e] == '.' && is_digit(s[e + 1]) {
            Some(digits_end(s, e + 1))
        } else {
            Some(e)
        }
    } else {
        None
    }
}

/// The first position from `j` on, reached over separators only, where a
/// number starts.
pub open spec fn second_start(s: Seq<char>, j: int) -> Option<int>
    decreases s.len() - j,
{
    if !(0 <= j <= s.len()) {
        None
    } else if number_end(s, j) is Some {
        Some(j)
    } else if j < s.len() && is_separator(s[j]) {
        second_start(s, j + 1)
    } else {
        None
    }
}

/// The match of the point pattern that starts at `i`, as the bounds of the
/// two numbers: the longest number at `i`, then the fewest separators (at
/// least one) after which a number starts, then the longest such number.
pub open spec fn match_at(s: Seq<char>, i: int) -> Option<(int, int, int, int)> {
    match number_end(s, i) {
        Some(k) => if k < s.len() && is_separator(s[k]) {
            match second_start(s, k + 1) {
                Some(j) => Some((i, k, j, number_end(s, j).unwrap())),
                None => None,
            }
        } else {
            None
        },
        None => None,
    }
}

/// The leftmost match of the point pattern at or after `i`.
pub open spec fn first_match(s: Seq<char>, i: int) -> Option<(int, int, int, int)>
    decreases s.len() - i,
{
    if 0 <= i < s.len() {
        match match_at(s, i) {
            Some(m) => Some(m),
            None => first_match(s, i + 1),
        }
    } else {
        None
    }
}

/// The text that group `group` (1 or 3) of the point pattern captures in
/// ASCII text `s`.
pub open spec fn point_group(s: Seq<char>, group: usize) -> Option<Seq<char>> {
    match first_match(s, 0) {
        Some((a, b, c, d)) => if group == 1 {
            Some(s.subrange(a, b))
        } else {
            Some(s.subrange(c, d))
        },
        None => None,
    }
}

/// Calls `regex::Regex::new(pattern)`, then `Regex::captures(haystack)` and
/// `Captures::get(group)`. The text found is the value of `regex_group` on
/// the same arguments. For the point pattern on ASCII text, where `\d` is
/// `[0-9]`, it is also the group of the leftmost-first match that the regex
/// documentation describes (`point_group`); on other text it is left to the
/// name, as Unicode's decimal digits are not written out here.
#[verifier::external_body]
fn regex_capture(pattern: &str, haystack: &str, group: usize) -> (r: Option<String>)
    ensures
        r matches Some(t) ==> regex_group(pattern@, haystack@, group) == Some(t@),
        r is None ==> regex_group(pattern@, haystack@, group) is None,
        pattern@ == POINT_PATTERN@ && is_ascii_chars(haystack@) && (group == 1 || group == 3) ==> (
        r is Some <==> point_group(haystack@, group) is Some),
        pattern@ == POINT_PATTERN@ && is_ascii_chars(haystack@) && (group == 1 || group == 3) && r
            is Some ==> point_group(haystack@, group) == Some(r.unwrap()@),
{
    let re = regex::Regex::new(pattern).ok()?;
    let caps = re.captures(haystack)?;
    Some(caps.get(group)?.as_str().to_string())
}

/// The texts of the two coordinates that `get_points` finds in `input`.
pub open spec fn point_texts(input: Seq<char>) -> Option<(Seq<char>, Seq<char>)> {
    match (regex_group(POINT_PATTERN@, input, 1), regex_group(POINT_PATTERN@, input, 3)) {
        (Some(x), Some(y)) => Some((x, y)),
        _ => None,
    }
}

/// Finds the first point written in `input` and gives back the texts of its two
/// coordinates, to be read as numbers by the caller.
pub fn get_points(input: &str) -> (r: Option<(String, String)>)
    ensures
        r matches Some((x, y)) ==> point_texts(input@) == Some((x@, y@)),
        r is None ==> point_texts(input@) is None,
        is_ascii_chars(input@) ==> (r is Some <==> first_match(input@, 0) is Some),
        is_ascii_chars(input@) && r is Some ==> ({
            let (a, b, c, d) = first_match(input@, 0).unwrap();
            &&& r.unwrap().0@ == input@.subrange(a, b)
            &&& r.unwrap().1@ == input@.subrange(c, d)
        }),
{
    let x = regex_capture(POINT_PATTERN, input, 1);
    match x {
        None => None,
        Some(x) => {
            let y = regex_capture(POINT_PATTERN, input, 3);
            match y {
                None => None,
                Some(y) => Some((x, y)),
            }
        },
    }
}

} // verus!
