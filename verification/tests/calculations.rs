use polynomial_finder::area;
use polynomial_finder::circle::{self, Offset};
use polynomial_finder::float_parser::{display_float, display_point, get_points, FloatText};
use polynomial_finder::points::{check_columns, Split2DArray};
use polynomial_finder::polynomial;

fn ft(plain: &str, fixed: &str) -> FloatText {
    FloatText { plain: plain.to_string(), fixed: fixed.to_string() }
}

#[test]
fn display_float_takes_the_shorter() {
    assert_eq!(display_float(ft("0.1", "0.1000")), "0.1");
    assert_eq!(display_float(ft("0.33333334", "0.3333")), "0.3333");
    // equal lengths: the first
    assert_eq!(display_float(ft("1.5000", "1.5001")), "1.5000");
    // bytes, not characters, are compared
    assert_eq!(display_float(ft("é", "ab")), "é");
    assert_eq!(display_float(ft("éé", "abc")), "abc");
}

#[test]
fn display_point_writes_a_pair() {
    assert_eq!(display_point(ft("1", "1.0000"), ft("-2.5", "-2.5000")), "(1, -2.5)");
}

#[test]
fn get_points_finds_two_numbers() {
    assert_eq!(get_points("1, 2"), Some(("1".to_string(), "2".to_string())));
    assert_eq!(get_points("(-1.5; 3)"), Some(("-1.5".to_string(), "3".to_string())));
    assert_eq!(get_points("x=10 y=-0.25 z=7"), Some(("10".to_string(), "-0.25".to_string())));
    assert_eq!(get_points("abc"), None);
    assert_eq!(get_points("12"), None);
    assert_eq!(get_points("1.2.3"), None);
}

#[test]
fn split_2d_array_splits_columns() {
    let rows: Vec<[i32; 2]> = vec![[1, 2], [3, 4], [5, 6]];
    let (xs, ys) = rows.as_slice().split_2d_array();
    assert_eq!(xs, vec![1, 3, 5]);
    assert_eq!(ys, vec![2, 4, 6]);
    let empty: Vec<[i32; 2]> = vec![];
    assert_eq!(empty.as_slice().split_2d_array(), (vec![], vec![]));
}

#[test]
fn columns_must_match() {
    assert_eq!(check_columns(&vec![1, 2], &vec![3, 4]), Ok(()));
    assert_eq!(
        check_columns(&vec![1, 2], &vec![3]),
        Err("mismatch in length for x_vals and y_vals".to_string())
    );
}

#[test]
fn area_needs_three_points() {
    let two: Vec<[f64; 2]> = vec![[0.0, 0.0], [1.0, 0.0]];
    assert_eq!(area::try_from(&two), Err("Need > 3 points to calculate area".to_string()));
    let three: Vec<[f64; 2]> = vec![[0.0, 0.0], [1.0, 0.0], [0.0, 1.0]];
    assert_eq!(area::try_from(&three), Ok(vec![(0, 1), (1, 2), (2, 0)]));
}

#[test]
fn area_pairs_close_the_polygon() {
    let xs = vec![0.0, 1.0, 1.0, 0.0];
    let ys = vec![0.0, 0.0, 1.0, 1.0];
    assert_eq!(area::solve_from_points(&xs, &ys), Ok(vec![(0, 1), (1, 2), (2, 3), (3, 0)]));
    assert_eq!(area::solve_from_points(&vec![5.0], &vec![6.0]), Ok(vec![(0, 0)]));
    assert_eq!(area::solve_from_points::<f64>(&vec![], &vec![]), Ok(vec![]));
    assert_eq!(
        area::solve_from_points(&vec![1.0], &vec![]),
        Err("x_vals and y_vals have different lengths".to_string())
    );
}

#[test]
fn area_report() {
    assert_eq!(area::calc_from_points(Ok(ft("0.5", "0.5000"))), Ok("A = 0.5".to_string()));
    assert_eq!(area::calc_from_points(Err("e".to_string())), Err("e".to_string()));
}

#[test]
fn circle_needs_three_points() {
    let two: Vec<[f64; 2]> = vec![[0.0, 0.0], [1.0, 0.0]];
    assert_eq!(circle::try_from(&two), Err("Need > 3 points to calculate circle".to_string()));
    let five: Vec<[f64; 2]> = vec![[1.0, 0.0], [0.0, 1.0], [-1.0, 0.0], [0.0, -1.0], [2.0, 2.0]];
    let (defining, rest) = circle::try_from(&five).unwrap();
    assert_eq!(defining, vec![[1.0, 0.0], [0.0, 1.0], [-1.0, 0.0]]);
    assert_eq!(rest, vec![[0.0, -1.0], [2.0, 2.0]]);
}

#[test]
fn circle_accepted_only_when_all_points_fit() {
    assert_eq!(circle::accept(Ok(7), &vec![true, true]), Ok(7));
    assert_eq!(circle::accept(Ok(7), &vec![]), Ok(7));
    assert_eq!(
        circle::accept(Ok(7), &vec![true, false]),
        Err("No circle that satisfies all points".to_string())
    );
    assert_eq!(circle::accept::<i32>(Err("colinear".to_string()), &vec![false]), Err("colinear".to_string()));
}

#[test]
fn circle_equation_text() {
    let eq = circle::format_circle_equation(
        Offset::Subtract(ft("1", "1.0000")),
        Offset::Add(ft("2.5", "2.5000")),
        ft("4", "4.0000"),
    );
    assert_eq!(eq, "(x - 1)^2 + (y + 2.5)^2 = 4");
    let eq = circle::format_circle_equation(Offset::Omit, Offset::Omit, ft("0.33333334", "0.3333"));
    assert_eq!(eq, "(x)^2 + (y)^2 = 0.3333");
}

#[test]
fn polynomial_needs_a_point() {
    let none: Vec<[f64; 2]> = vec![];
    assert_eq!(polynomial::try_from(&none), Err("Need > 0 points to calculate".to_string()));
    assert_eq!(polynomial::try_from(&[[1.0, 2.0]]), Ok(()));
}

#[test]
fn polynomial_report() {
    assert_eq!(polynomial::calc_from_points(Ok("x^2 + 1".to_string())), Ok("f(x) = x^2 + 1".to_string()));
    assert_eq!(polynomial::calc_from_points(Err("No suitable polynomial found".to_string())), Err("No suitable polynomial found".to_string()));
}
