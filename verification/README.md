# polynomial_finder

A terminal tool that records points in the plane and finds the polynomial
through them, the circle through them, or the area of the polygon they span.

- `src/` is the verified library: the editor's state machine (`app`), what the
  screen shows in each mode (`view`), the checks, pairings and texts of the
  three calculations (`area`, `circle`, `polynomial`, `points`), number
  display and point reading (`float_parser`), and properties proved across
  calls (`laws`).
- `app/` is the terminal front end (ratatui, tui-input) and the floating-point
  arithmetic of the calculations (peroxide), which the library leaves to it.

## Behaviour worth knowing

The help line documents `i` in command mode as "input points" and Enter
while typing as "record point"; changing a point is "edit point", `e` in
edit mode. Escape while typing therefore clears the selection
(`App::stop_input`): were a selection left over from editing, a later `i` …
Enter would overwrite that point, which command mode does not show. So `i` …
Enter always records a new point.

The area is positive for points in clockwise order, as its documentation
says, and a point lies on a circle when it is within the tolerance, bounds
included, so that a circle of radius 0 holds its centre.
