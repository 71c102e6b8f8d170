//! The circle through the recorded points: which points define it, when it is
//! accepted, and how its equation is written.

use vstd::prelude::*;
use crate::float_parser::{FloatText, shorter_text, float_display, choose_shorter, display_float};

verus! {

/// The message when there are too few points for a circle.
pub open spec fn too_few_points_message() -> Seq<char> {
    "Need > 3 points to calculate circle"@
}

/// The message when a point beyond the first three is off the circle.
pub open spec fn off_circle_message() -> Seq<char> {
    "No circle that satisfies all points"@
}

/// Splits the points into the three that define the circle and the rest,
/// which must lie on it; an error when there are fewer than three.
pub fn try_from<P: Copy>(points: &[P]) -> (r: Result<(Vec<P>, Vec<P>), String>)
    ensures
        r is Ok <==> points@.len() >= 3,
        r matches Ok((defining, to_check)) ==> defining@ == points@.take(3) && to_check@
            == points@.skip(3),
        r matches Ok((defining, to_check)) ==> defining@ + to_check@ == points@,
        r matches Err(e) ==> e@ == too_few_points_message(),
{
    let n = points.len();
    if n < 3 {
        return Err(String::from_str("Need > 3 points to calculate circle"));
    }
    let mut defining: Vec<P> = Vec::new();
    let mut to_check: Vec<P> = Vec::new();
    for i in 0..n
        invariant
            n == points@.len(),
            n >= 3,
            defining@ == points@.take(if i < 3 { i as int } else { 3 }),
            to_check@ == points@.subrange(3, if i < 3 { 3 } else { i as int }),
    {
        if i < 3 {
            defining.push(points[i]);
        } else {
            to_check.push(points[i]);
        }
    }
    assert(to_check@ =~= points@.skip(3));
    assert(defining@ + to_check@ =~= points@);
    Ok((defining, to_check))
}

/// Accepts the circle solved from the first three points when every further
/// point lies on it (`fits[i]` for the point after the first three); the
/// error of the solution comes first.
pub fn accept<C>(solved: Result<C, String>, fits: &Vec<bool>) -> (r: Result<C, String>)
    ensures
        solved is Err ==> r == solved,
        solved is Ok ==> (r is Ok <==> forall|i: int| 0 <= i < fits@.len() ==> #[trigger] fits@[i]),
        r is Ok ==> r == solved,
        solved is Ok && r is Err ==> r->Err_0@ == off_circle_message(),
{
    match solved {
        Err(e) => Err(e),
        Ok(c) => {
            let n = fits.len();
            for i in 0..n
                invariant
                    n == fits@.len(),
                    solved is Ok,
                    forall|j: int| 0 <= j < i ==> #[trigger] fits@[j],
            {
                if !fits[i] {
                    return Err(String::from_str("No circle that satisfies all points"));
                }
            }
            Ok(c)
        },
    }
}

/// How the centre's coordinate enters `(x - a)^2`: a positive `a` is
/// subtracted, a negative one added as its absolute value, and zero (or a
/// value that is neither) left out.
pub enum Offset {
    Subtract(FloatText),
    Add(FloatText),
    Omit,
}

/// The text of an offset: the shorter of its two renderings after the sign.
pub open spec fn offset_text(o: Offset) -> Seq<char> {
    match o {
        Offset::Subtract(t) => shorter_text(" - "@ + t.plain@, " - "@ + t.fixed@),
        Offset::Add(t) => shorter_text(" + "@ + t.plain@, " + "@ + t.fixed@),
        Offset::Omit => Seq::empty(),
    }
}

/// The equation `(x - a)^2 + (y - b)^2 = r^2` as the display writes it.
pub open spec fn circle_equation(x: Offset, y: Offset, r_squared: FloatText) -> Seq<char> {
    "(x"@ + offset_text(x) + ")^2 + (y"@ + offset_text(y) + ")^2 = "@ + float_display(r_squared)
}

fn prefixed(sign: &str, text: String) -> (r: String)
    ensures
        r@ == sign@ + text@,
{
    let mut r = String::from_str(sign);
    r.append(text.as_str());
    r
}

fn offset_to_text(o: Offset) -> (r: String)
    ensures
        r@ == offset_text(o),
{
    match o {
        Offset::Subtract(t) => choose_shorter(prefixed(" - ", t.plain), prefixed(" - ", t.fixed)),
        Offset::Add(t) => choose_shorter(prefixed(" + ", t.plain), prefixed(" + ", t.fixed)),
        Offset::Omit => String::new(),
    }
}

/// Writes the equation of the circle with centre offsets `x`, `y` and squared
/// radius `r_squared`.
pub fn format_circle_equation(x: Offset, y: Offset, r_squared: FloatText) -> (r: String)
    ensures
        r@ == circle_equation(x, y, r_squared),
{
    let mut result = String::from_str("(x");
    let xt = offset_to_text(x);
    result.append(xt.as_str());
    result.append(")^2 + (y");
    let yt = offset_to_text(y);
    result.append(yt.as_str());
    result.append(")^2 = ");
    let rt = display_float(r_squared);
    result.append(rt.as_str());
    result
}

} // verus!
