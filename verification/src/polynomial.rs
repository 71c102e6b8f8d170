//! The polynomial through the recorded points: the check before solving and
//! the text of the result.

use vstd::prelude::*;

verus! {

/// The message when there is no point to fit.
pub open spec fn no_points_message() -> Seq<char> {
    "Need > 0 points to calculate"@
}

/// Checks that there is at least one point to fit.
pub fn try_from<P>(points: &[P]) -> (r: Result<(), String>)
    ensures
        r is Ok <==> points@.len() > 0,
        r matches Err(e) ==> e@ == no_points_message(),
{
    if points.len() == 0 {
        return Err(String::from_str("Need > 0 points to calculate"));
    }
    Ok(())
}

/// What the polynomial calculation reports: `f(x) = ` and the polynomial, or
/// the error.
pub open spec fn polynomial_report(solved: Result<Seq<char>, Seq<char>>) -> Result<Seq<char>, Seq<char>> {
    match solved {
        Ok(p) => Ok("f(x) = "@ + p),
        Err(e) => Err(e),
    }
}

/// Return the formatted result or formatted errors, from the text of the
/// polynomial found.
pub fn calc_from_points(solved: Result<String, String>) -> (r: Result<String, String>)
    ensures
        match r {
            Ok(s) => polynomial_report(
                match solved {
                    Ok(p) => Ok(p@),
                    Err(e) => Err(e@),
                },
            ) == Ok::<Seq<char>, Seq<char>>(s@),
            Err(e) => polynomial_report(
                match solved {
                    Ok(p) => Ok(p@),
                    Err(e) => Err(e@),
                },
            ) == Err::<Seq<char>, Seq<char>>(e@),
        },
{
    match solved {
        Ok(p) => {
            let mut text = String::from_str("f(x) = ");
            text.append(p.as_str());
            Ok(text)
        },
        Err(e) => Err(e),
    }
}

} // verus!
