//! Rows of `[x, y]` pairs split into a column of x and a column of y.

use vstd::prelude::*;

verus! {

pub trait Split2DArray<T> {
    /// The rows, in order.
    spec fn rows(&self) -> Seq<[T; 2]>;

    /// Split an array of [x, y] to an array of x and an array of y
    fn split_2d_array(&self) -> (r: (Vec<T>, Vec<T>))
        ensures
            r.0@.len() == self.rows().len(),
            r.1@.len() == self.rows().len(),
            forall|i: int| 0 <= i < self.rows().len() ==> #[trigger] r.0@[i] == self.rows()[i][0],
            forall|i: int| 0 <= i < self.rows().len() ==> #[trigger] r.1@[i] == self.rows()[i][1],
    ;
}

impl<T: Copy> Split2DArray<T> for [[T; 2]] {
    open spec fn rows(&self) -> Seq<[T; 2]> {
        self@
    }

    fn split_2d_array(&self) -> (r: (Vec<T>, Vec<T>)) {
        let mut xs: Vec<T> = Vec::new();
        let mut ys: Vec<T> = Vec::new();
        let n = self.len();
        for i in 0..n
            invariant
                n == self@.len(),
                xs@.len() == i,
                ys@.len() == i,
                forall|j: int| 0 <= j < i ==> #[trigger] xs@[j] == self@[j][0],
                forall|j: int| 0 <= j < i ==> #[trigger] ys@[j] == self@[j][1],
        {
            let row: [T; 2] = self[i];
            xs.push(row[0]);
            ys.push(row[1]);
        }
        (xs, ys)
    }
}

/// The message when the two columns of coordinates differ in length.
pub open spec fn column_mismatch_message() -> Seq<char> {
    "mismatch in length for x_vals and y_vals"@
}

/// Checks that the column of x and the column of y have the same length.
pub fn check_columns<T>(x_vals: &Vec<T>, y_vals: &Vec<T>) -> (r: Result<(), String>)
    ensures
        r is Ok <==> x_vals@.len() == y_vals@.len(),
        r matches Err(e) ==> e@ == column_mismatch_message(),
{
    if x_vals.len() != y_vals.len() {
        return Err(String::from_str("mismatch in length for x_vals and y_vals"));
    }
    Ok(())
}

} // verus!
