//! The area of the polygon through the recorded points, by the shoelace
//! formula: the checks and the pairing of consecutive corners. The sum of the
//! cross products over these pairs is taken by the caller.

use vstd::prelude::*;
use itertools::Itertools;
use crate::float_parser::{FloatText, float_display, display_float};
use crate::points::Split2DArray;

verus! {

/// The pairs `(i, i + 1)` of consecutive indices in `0..n`, the last index
/// paired with the first.
pub open spec fn circular_pairs(n: nat) -> Seq<(usize, usize)> {
    Seq::new(n, |i: int| (i as usize, ((i + 1) % (n as int)) as usize))
}

/// Calls `Itertools::circular_tuple_windows` on `0..n`, collecting pairs. Its
/// source cycles the items and yields `n` windows of two: `(i, i + 1)`, with
/// the last item followed by the first (a single item is paired with itself).
#[verifier::external_body]
fn circular_index_pairs(n: usize) -> (r: Vec<(usize, usize)>)
    ensures
        r@ == circular_pairs(n as nat),
{
    (0..n).circular_tuple_windows().collect()
}

/// The message when there are too few points for an area.
pub open spec fn too_few_points_message() -> Seq<char> {
    "Need > 3 points to calculate area"@
}

/// The message when the two columns of coordinates differ in length.
pub open spec fn length_mismatch_message() -> Seq<char> {
    "x_vals and y_vals have different lengths"@
}

/// The pairs of indices of consecutive corners of the polygon through
/// `points`, or the error when there are fewer than three points.
pub fn try_from<T: Copy>(points: &[[T; 2]]) -> (r: Result<Vec<(usize, usize)>, String>)
    ensures
        r is Ok <==> points@.len() >= 3,
        r matches Ok(pairs) ==> pairs@ == circular_pairs(points@.len()),
        r matches Err(e) ==> e@ == too_few_points_message(),
{
    if points.len() < 3 {
        return Err(String::from_str("Need > 3 points to calculate area"));
    }
    let (x_vals, y_vals) = points.split_2d_array();
    solve_from_points(&x_vals, &y_vals)
}

/// Reference: <https://en.wikipedia.org/wiki/Shoelace_formula#Triangle_formula>
///
/// The pairs of indices of consecutive corners whose cross products the
/// shoelace formula sums (`x1 * y2 - x2 * y1`, then halved), or the error when
/// the columns differ in length.
pub fn solve_from_points<T>(x_vals: &Vec<T>, y_vals: &Vec<T>) -> (r: Result<Vec<(usize, usize)>, String>)
    ensures
        r is Ok <==> x_vals@.len() == y_vals@.len(),
        r matches Ok(pairs) ==> pairs@ == circular_pairs(x_vals@.len()),
        r matches Err(e) ==> e@ == length_mismatch_message(),
{
    if x_vals.len() != y_vals.len() {
        return Err(String::from_str("x_vals and y_vals have different lengths"));
    }
    Ok(circular_index_pairs(x_vals.len()))
}

/// What the area calculation reports: `A = ` and the area, or the error.
pub open spec fn area_report(solved: Result<FloatText, String>) -> Result<Seq<char>, Seq<char>> {
    match solved {
        Ok(a) => Ok("A = "@ + float_display(a)),
        Err(e) => Err(e@),
    }
}

/// Return the formatted result or formatted errors.
pub fn calc_from_points(solved: Result<FloatText, String>) -> (r: Result<String, String>)
    ensures
        match r {
            Ok(s) => area_report(solved) == Ok::<Seq<char>, Seq<char>>(s@),
            Err(e) => area_report(solved) == Err::<Seq<char>, Seq<char>>(e@),
        },
{
    match solved {
        Ok(a) => {
            let mut text = String::from_str("A = ");
            let shown = display_float(a);
            text.append(shown.as_str());
            Ok(text)
        },
        Err(e) => Err(e),
    }
}

} // verus!
