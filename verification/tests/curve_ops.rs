use vvvf_sound::UNIT;
use vvvf_sound::curve::CurveValue;
use vvvf_sound::editable_func::EditableFunc;
use vvvf_sound::editable_func::EditableFuncMode;
use vvvf_sound::editable_function::Bounds;
use vvvf_sound::editable_function::EditableFunction;
use vvvf_sound::editable_function::EditableFunctionMode;

fn fin(num: i128, den: i128) -> CurveValue {
    CurveValue::Finite { num, den }
}

#[test]
fn two_point_interpolates_midpoint() {
    // A curve through (0, 0) and (10, 1) is 0.5 at 5: exactly 5/10.
    let f = EditableFunc::with_points(vec![(0, 0), (10, 1)]);
    assert_eq!(f.value_at(5), fin(5, 10));
}

#[test]
fn two_point_extrapolates_line() {
    // Past the last point the last segment's line continues: 2.0 at 20.
    let f = EditableFunc::with_points(vec![(0, 0), (10, 1)]);
    assert_eq!(f.value_at(20), fin(20, 10));
    // Before the first point the first segment's line continues: -1.0 at -10.
    assert_eq!(f.value_at(-10), fin(-10, 10));
}

#[test]
fn single_point_is_flat_everywhere() {
    // One stored point means a constant curve, with no extrapolation line.
    let x = 40 * UNIT;
    let half = 500_000;
    let f = EditableFunction::with_points(vec![(x, half)], Bounds::default());
    assert_eq!(f.value_at(0), fin(half as i128, 1));
    assert_eq!(f.value_at(x), fin(half as i128, 1));
}

#[test]
fn value_hits_stored_points() {
    let f = EditableFunc::with_points(vec![(0, 3), (10, 7), (20, 5)]);
    let at0 = f.value_at(0);
    let at10 = f.value_at(10);
    let at20 = f.value_at(20);
    assert_eq!(at0, fin(3 * 10, 10));
    assert_eq!(at10, fin(7 * 10, 10));
    match at20 {
        CurveValue::Finite { num, den } => assert_eq!(num * 1, 5 * den),
        _ => panic!("expected a finite value"),
    }
}

#[test]
fn duplicate_x_yields_signed_infinity() {
    // A vertical first segment makes values before it infinite, signed by
    // the implied step.
    let f = EditableFunc::with_points(vec![(5, 0), (5, 1)]);
    assert_eq!(f.value_at(0), CurveValue::NegInfinite);
    let g = EditableFunc::with_points(vec![(5, 1), (5, 0)]);
    assert_eq!(g.value_at(0), CurveValue::PosInfinite);
}

#[test]
fn insert_point_keeps_order() {
    let mut f = EditableFunc::with_points(vec![(0, 0), (10, 1)]);
    let (idx, stored) = f.insert_point((4, 9));
    assert_eq!(idx, 1);
    assert_eq!(stored, (4, 9));
    let pts = f.points().unwrap().clone();
    assert_eq!(pts, vec![(0, 0), (4, 9), (10, 1)]);
}

#[test]
fn split_segment_inserts_curve_value() {
    let mut f = EditableFunc::with_points(vec![(0, 0), (10, 10)]);
    let (idx, stored) = f.split_segment(4);
    assert_eq!((idx, stored), (1, (4, 4)));
    assert_eq!(f.points().unwrap().clone(), vec![(0, 0), (4, 4), (10, 10)]);
}

#[test]
fn insert_point_by_index_ends_and_interior() {
    // Front: mirrors the first segment; back: doubles the last; interior:
    // midpoint.
    let mut f = EditableFunc::with_points(vec![(10, 0), (20, 10)]);
    let (idx, stored) = f.insert_point_by_index(0);
    assert_eq!((idx, stored), (0, (0, -10)));
    let mut g = EditableFunc::with_points(vec![(10, 0), (20, 10)]);
    let (idx, stored) = g.insert_point_by_index(2);
    assert_eq!((idx, stored), (2, (30, 20)));
    let mut h = EditableFunc::with_points(vec![(10, 0), (20, 10)]);
    let (idx, stored) = h.insert_point_by_index(1);
    assert_eq!((idx, stored), (1, (15, 5)));
}

#[test]
fn move_point_constrained_by_neighbours() {
    let mut f = EditableFunc::with_points(vec![(0, 0), (10, 1), (20, 2)]);
    // Trying to drag the middle point past its right neighbour stops at it.
    let moved = f.move_point_to(1, (35, 5));
    assert_eq!(moved, Some((20, 5)));
    // Dragging past the left neighbour stops there too.
    let moved = f.move_point_to(1, (-3, 4));
    assert_eq!(moved, Some((0, 4)));
    // An out-of-range index does nothing.
    assert_eq!(f.move_point_to(9, (1, 1)), None);
}

#[test]
fn remove_point_keeps_at_least_one() {
    let mut f = EditableFunc::with_points(vec![(0, 0), (10, 1)]);
    assert_eq!(f.remove_point(0), Some((0, 0)));
    // The last point cannot be removed.
    assert_eq!(f.remove_point(0), None);
    assert_eq!(f.points().unwrap().len(), 1);
}

#[test]
fn checked_value_at_rejects_infinity() {
    let f = EditableFunc::with_points(vec![(5, 0), (5, 1)]);
    assert!(f.checked_value_at(0).is_none());
    let g = EditableFunc::with_points(vec![(0, 0), (10, 1)]);
    assert_eq!(g.checked_value_at(5), Some(fin(5, 10)));
}

#[test]
fn bounds_clamp_points_and_extrapolation() {
    let bounds = Bounds::new(Some(0), Some(100), Some(0), Some(10));
    let mut f = EditableFunction::with_points(vec![(0, 0), (10, 10)], bounds);
    // An inserted point is clamped into the box.
    f.insert_point((200, 50));
    assert_eq!(*f.points().last().unwrap(), (100, 10));
    // The extrapolated line (value 100 at x = 100) is capped at max_y.
    let g = EditableFunction::with_points(vec![(0, 0), (10, 10)], bounds);
    assert_eq!(g.value_at(100), fin(10, 1));
}

#[test]
fn bounds_min_wins_on_degenerate_box() {
    let b = Bounds::new(Some(5), Some(3), None, None);
    assert_eq!(b.clamp_x(10), 5);
    assert_eq!(b.clamp_x(0), 5);
    assert_eq!(b.clamp((10, 7)), (5, 7));
}

#[test]
fn expression_parse_good_and_bad() {
    // A parseable formula leaves no error; a broken one is kept with its
    // error, and the points are untouched.
    let mut f = EditableFunc::with_points(vec![(0, 0)]);
    *f.mode_mut() = EditableFuncMode::Expression;
    *f.expression_mut() = String::from("min(2.5,90/x,(80/x)^2)");
    f.update_expression();
    assert!(f.expression_err().is_none());
    *f.expression_mut() = String::from("((x");
    f.update_expression();
    assert!(f.expression_err().is_some());
    assert_eq!(f.points().unwrap().clone(), vec![(0, 0)]);
}

#[test]
fn with_expression_parses_eagerly() {
    let f = EditableFunc::with_expression("x/500");
    assert!(f.expression_err().is_none());
    let g = EditableFunc::with_expression("x +* 2");
    assert!(g.expression_err().is_some());
}

#[test]
fn set_expression_reparses_only_on_change() {
    let mut f = EditableFunction::with_points(vec![(0, 0)], Bounds::default());
    f.set_expression("x/2");
    assert_eq!(f.mode, EditableFunctionMode::Expression);
    assert_eq!(f.expression(), "x/2");
    assert!(f.expression_err().is_none());
    f.set_expression("((");
    assert!(f.expression_err().is_some());
    // Setting the same text keeps the stored result.
    f.set_expression("((");
    assert!(f.expression_err().is_some());
    f.set_expression("");
    assert!(f.expression_err().is_none());
}
