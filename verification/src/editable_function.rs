//! The bounds-carrying editable curve: like `EditableFunc`, but every
//! point-producing operation is clamped into an optional per-axis box,
//! and extrapolated values are clamped to the y bounds.

use crate::curve::CurveVal;
use crate::curve::CurveValue;
use crate::curve::cap_val;
use crate::curve::cap_value;
use crate::curve::cv_bounded;
use crate::curve::div_trunc;
use crate::curve::find_segment;
use crate::curve::flat_val;
use crate::curve::floor_val;
use crate::curve::floor_value;
use crate::curve::in_coord;
use crate::curve::lemma_insert_sorted;
use crate::curve::lemma_seg_index_facts;
use crate::curve::line_val;
use crate::curve::line_value;
use crate::curve::point_in_coord;
use crate::curve::points_in_coord;
use crate::curve::round_value;
use crate::curve::seg_index;
use crate::curve::x_sorted;
use crate::expression::expr_parses;
use crate::expression::parse_expression;
use vstd::prelude::*;

verus! {

#[derive(Debug, Clone, Copy, PartialEq, Eq, Structural)]
pub enum EditableFunctionMode {
    Points,
    Expression,
}

/// Optional per-axis clamps for edited points.  When a minimum and a
/// maximum are both present the minimum is applied last, so it wins on a
/// degenerate box.
#[derive(Debug, Clone, Copy, PartialEq, Eq, Structural)]
pub struct Bounds {
    min_x: Option<i64>,
    max_x: Option<i64>,
    min_y: Option<i64>,
    max_y: Option<i64>,
}

pub open spec fn opt_in_coord(v: Option<i64>) -> bool {
    v matches Some(m) ==> in_coord(m as int)
}

pub open spec fn clamp_axis(min: Option<i64>, max: Option<i64>, v: i64) -> i64 {
    let v1 = match max {
        Some(m) => if v > m {
            m
        } else {
            v
        },
        None => v,
    };
    match min {
        Some(m) => if v1 < m {
            m
        } else {
            v1
        },
        None => v1,
    }
}

impl Bounds {
    pub closed spec fn min_x_spec(&self) -> Option<i64> {
        self.min_x
    }

    pub closed spec fn max_x_spec(&self) -> Option<i64> {
        self.max_x
    }

    pub closed spec fn min_y_spec(&self) -> Option<i64> {
        self.min_y
    }

    pub closed spec fn max_y_spec(&self) -> Option<i64> {
        self.max_y
    }

    pub open spec fn wf(&self) -> bool {
        &&& opt_in_coord(self.min_x_spec())
        &&& opt_in_coord(self.max_x_spec())
        &&& opt_in_coord(self.min_y_spec())
        &&& opt_in_coord(self.max_y_spec())
    }

    pub open spec fn clamp_x_spec(&self, x: i64) -> i64 {
        clamp_axis(self.min_x_spec(), self.max_x_spec(), x)
    }

    pub open spec fn clamp_y_spec(&self, y: i64) -> i64 {
        clamp_axis(self.min_y_spec(), self.max_y_spec(), y)
    }

    pub open spec fn clamp_spec(&self, p: (i64, i64)) -> (i64, i64) {
        (self.clamp_x_spec(p.0), self.clamp_y_spec(p.1))
    }

    /// The clamp applied to an extrapolated curve value: cap at `max_y`,
    /// then raise to `min_y`.
    pub open spec fn clamp_val_spec(&self, v: CurveVal) -> CurveVal {
        let v1 = match self.max_y_spec() {
            Some(m) => cap_val(v, m as int),
            None => v,
        };
        match self.min_y_spec() {
            Some(m) => floor_val(v1, m as int),
            None => v1,
        }
    }

    pub fn new(min_x: Option<i64>, max_x: Option<i64>, min_y: Option<i64>, max_y: Option<i64>)
        -> (r: Self)
        requires
            opt_in_coord(min_x),
            opt_in_coord(max_x),
            opt_in_coord(min_y),
            opt_in_coord(max_y),
        ensures
            r.wf(),
            r.min_x_spec() == min_x,
            r.max_x_spec() == max_x,
            r.min_y_spec() == min_y,
            r.max_y_spec() == max_y,
    {
        Bounds { min_x, max_x, min_y, max_y }
    }

    pub fn clamp_x(&self, x: i64) -> (r: i64)
        ensures
            r == self.clamp_x_spec(x),
    {
        let mut v = x;
        if let Some(m) = self.max_x {
            if v > m {
                v = m;
            }
        }
        if let Some(m) = self.min_x {
            if v < m {
                v = m;
            }
        }
        v
    }

    pub fn clamp_y(&self, y: i64) -> (r: i64)
        ensures
            r == self.clamp_y_spec(y),
    {
        let mut v = y;
        if let Some(m) = self.max_y {
            if v > m {
                v = m;
            }
        }
        if let Some(m) = self.min_y {
            if v < m {
                v = m;
            }
        }
        v
    }

    pub fn clamp(&self, point: (i64, i64)) -> (r: (i64, i64))
        ensures
            r == self.clamp_spec(point),
    {
        (self.clamp_x(point.0), self.clamp_y(point.1))
    }

    /// Applies the y clamp to a curve value.
    pub(crate) fn clamp_value(&self, v: CurveValue) -> (r: CurveValue)
        requires
            cv_bounded(v),
            self.wf(),
        ensures
            r.model() == self.clamp_val_spec(v.model()),
            cv_bounded(r),
    {
        let v1 = if let Some(m) = self.max_y {
            cap_value(v, m)
        } else {
            v
        };
        if let Some(m) = self.min_y {
            floor_value(v1, m)
        } else {
            v1
        }
    }
}

impl Default for Bounds {
    fn default() -> (r: Self)
        ensures
            r.wf(),
            r.min_x_spec() is None,
            r.max_x_spec() is None,
            r.min_y_spec() is None,
            r.max_y_spec() is None,
    {
        Bounds { min_x: None, max_x: None, min_y: None, max_y: None }
    }
}

/// The axis clamp is monotone.
pub proof fn lemma_clamp_axis_mono(min: Option<i64>, max: Option<i64>, a: i64, b: i64)
    requires
        a <= b,
    ensures
        clamp_axis(min, max, a) <= clamp_axis(min, max, b),
{
}

/// Every stored point is a fixed point of the bounds clamp, which is what
/// "the bounds are respected" means.
pub open spec fn points_in_bounds(s: Seq<(i64, i64)>, b: Bounds) -> bool {
    forall|i: int| 0 <= i < s.len() ==> b.clamp_spec(#[trigger] s[i]) == s[i]
}

/// The bounds clamp maps into its own fixed points.
pub proof fn lemma_bounds_clamp_idem(b: Bounds, p: (i64, i64))
    ensures
        b.clamp_spec(b.clamp_spec(p)) == b.clamp_spec(p),
{
}

proof fn lemma_bounds_insert(s: Seq<(i64, i64)>, i: int, p: (i64, i64), b: Bounds)
    requires
        points_in_bounds(s, b),
        b.clamp_spec(p) == p,
        0 <= i <= s.len(),
    ensures
        points_in_bounds(s.insert(i, p), b),
{
    let t = s.insert(i, p);
    assert forall|j: int| 0 <= j < t.len() implies b.clamp_spec(#[trigger] t[j]) == t[j] by {
        if j < i {
            assert(t[j] == s[j]);
        } else if j > i {
            assert(t[j] == s[j - 1]);
        }
    }
}

proof fn lemma_bounds_remove(s: Seq<(i64, i64)>, i: int, b: Bounds)
    requires
        points_in_bounds(s, b),
        0 <= i < s.len(),
    ensures
        points_in_bounds(s.remove(i), b),
{
    let t = s.remove(i);
    assert forall|j: int| 0 <= j < t.len() implies b.clamp_spec(#[trigger] t[j]) == t[j] by {
        if j < i {
            assert(t[j] == s[j]);
        } else {
            assert(t[j] == s[j + 1]);
        }
    }
}

/// The curve value at `x` under the bounds: linear interpolation inside
/// the stored range, the boundary line clamped to the y bounds outside it,
/// the constant value of a one-point list.
pub open spec fn bounded_value_at(s: Seq<(i64, i64)>, b: Bounds, x: int) -> CurveVal
    recommends
        s.len() >= 1,
{
    let i = seg_index(s, x);
    if s.len() < 2 {
        flat_val(s[0].1)
    } else if i == 0 {
        b.clamp_val_spec(line_val(s[0], s[1], x))
    } else if i >= s.len() {
        b.clamp_val_spec(line_val(s[s.len() - 2], s[s.len() - 1], x))
    } else {
        line_val(s[i - 1], s[i], x)
    }
}

/// The x position `move_point_to` stores.
pub open spec fn bounded_move_target(s: Seq<(i64, i64)>, index: int, pos: (i64, i64), b: Bounds)
    -> (i64, i64) {
    let x1 = if index >= 1 && index - 1 < s.len() && s[index - 1].0 > pos.0 {
        s[index - 1].0
    } else {
        pos.0
    };
    let x2 = if index + 1 < s.len() && s[index + 1].0 < x1 {
        s[index + 1].0
    } else {
        x1
    };
    b.clamp_spec((x2, pos.1))
}

/// The value at `x` is finite and rounds to a storable coordinate.
pub open spec fn bounded_splittable(s: Seq<(i64, i64)>, b: Bounds, x: int) -> bool {
    &&& bounded_value_at(s, b, x) matches CurveVal::Fin { num, den } && in_coord(
        div_trunc(num, den),
    )
}

/// A curve in point or expression form with an optional clamp box.  The
/// point list is never empty, is ordered by non-decreasing x, and every
/// point respects the bounds.
pub struct EditableFunction {
    pub mode: EditableFunctionMode,
    points: Vec<(i64, i64)>,
    expression_str: String,
    expression: Option<Result<meval::Expr, meval::Error>>,
    bounds: Bounds,
}

impl EditableFunction {
    pub closed spec fn points_seq(&self) -> Seq<(i64, i64)> {
        self.points@
    }

    pub closed spec fn mode_spec(&self) -> EditableFunctionMode {
        self.mode
    }

    pub closed spec fn expr_text(&self) -> Seq<char> {
        self.expression_str@
    }

    pub closed spec fn bounds_spec(&self) -> Bounds {
        self.bounds
    }

    /// Whether a parse result is cached, and whether it succeeded.
    pub closed spec fn cache(&self) -> Option<bool> {
        match self.expression {
            Some(r) => Some(r is Ok),
            None => None,
        }
    }

    pub open spec fn wf(&self) -> bool {
        &&& self.points_seq().len() >= 1
        &&& x_sorted(self.points_seq())
        &&& points_in_coord(self.points_seq())
        &&& self.bounds_spec().wf()
        &&& points_in_bounds(self.points_seq(), self.bounds_spec())
    }

    pub open spec fn has_parse_error(&self) -> bool {
        self.cache() == Some(false)
    }

    pub open spec fn same_but_points(&self, other: &Self) -> bool {
        &&& self.mode_spec() == other.mode_spec()
        &&& self.expr_text() == other.expr_text()
        &&& self.cache() == other.cache()
        &&& self.bounds_spec() == other.bounds_spec()
    }

    pub fn with_points(points: Vec<(i64, i64)>, bounds: Bounds) -> (r: Self)
        requires
            points@.len() >= 1,
            x_sorted(points@),
            points_in_coord(points@),
            bounds.wf(),
            points_in_bounds(points@, bounds),
        ensures
            r.wf(),
            r.points_seq() == points@,
            r.mode_spec() is Points,
            r.bounds_spec() == bounds,
            r.expr_text().len() == 0,
            r.cache() is None,
    {
        EditableFunction {
            mode: EditableFunctionMode::Points,
            points,
            expression_str: String::new(),
            expression: None,
            bounds,
        }
    }

    pub fn points(&self) -> (r: &Vec<(i64, i64)>)
        ensures
            r@ == self.points_seq(),
    {
        &self.points
    }

    pub fn expression(&self) -> (r: &str)
        ensures
            r@ == self.expr_text(),
    {
        self.expression_str.as_str()
    }

    pub fn expression_err(&self) -> (r: Option<&meval::Error>)
        ensures
            r is Some <==> self.has_parse_error(),
    {
        match &self.expression {
            Some(Err(e)) => Some(e),
            _ => None,
        }
    }

    /// Switches to expression mode; if the text changed, stores it and
    /// re-parses it (an empty text clears the cached parse instead).
    pub fn set_expression(&mut self, expression: &str)
        ensures
            final(self).mode_spec() is Expression,
            final(self).points_seq() == old(self).points_seq(),
            final(self).bounds_spec() == old(self).bounds_spec(),
            final(self).expr_text() == expression@,
            expression@ == old(self).expr_text() ==> final(self).cache() == old(self).cache(),
            expression@ != old(self).expr_text() && expression@.len() > 0 ==> final(self).cache()
                == Some(expr_parses(expression@)),
            expression@ != old(self).expr_text() && expression@.len() == 0 ==> final(self).cache()
                is None,
            old(self).wf() ==> final(self).wf(),
    {
        self.mode = EditableFunctionMode::Expression;
        let text = expression.to_owned();
        if self.expression_str.eq(&text) {
            return ;
        }
        self.expression_str = text;
        if !expression.is_empty() {
            self.expression = Some(parse_expression(expression));
        } else {
            self.expression = None;
        }
    }

    /// Exact curve value at `x` (point mode only; a formula evaluates to
    /// floating point and is evaluated by callers of the library).
    pub fn value_at(&self, x: i64) -> (r: CurveValue)
        requires
            self.wf(),
            self.mode_spec() is Points,
            in_coord(x as int),
        ensures
            r.model() == bounded_value_at(self.points_seq(), self.bounds_spec(), x as int),
            cv_bounded(r),
    {
        proof {
            lemma_seg_index_facts(self.points_seq(), x as int);
        }
        let n = self.points.len();
        let i = find_segment(&self.points, x);
        if n < 2 {
            CurveValue::Finite { num: self.points[0].1 as i128, den: 1 }
        } else if i == 0 {
            self.bounds.clamp_value(line_value(self.points[0], self.points[1], x))
        } else if i >= n {
            self.bounds.clamp_value(line_value(self.points[n - 2], self.points[n - 1], x))
        } else {
            line_value(self.points[i - 1], self.points[i], x)
        }
    }

    /// Clamps the point to the bounds and inserts it at its segment index,
    /// keeping the list sorted.
    pub fn insert_point(&mut self, point: (i64, i64))
        requires
            old(self).wf(),
            point_in_coord(point),
        ensures
            ({
                let cp = old(self).bounds_spec().clamp_spec(point);
                let idx = seg_index(old(self).points_seq(), cp.0 as int);
                &&& final(self).points_seq() == old(self).points_seq().insert(idx, cp)
                &&& final(self).wf()
                &&& final(self).same_but_points(old(self))
            }),
    {
        let cp = self.bounds.clamp(point);
        let index = find_segment(&self.points, cp.0);
        proof {
            lemma_seg_index_facts(self.points@, cp.0 as int);
            lemma_insert_sorted(self.points@, cp);
            lemma_bounds_clamp_idem(self.bounds_spec(), point);
            lemma_bounds_insert(self.points@, index as int, cp, self.bounds_spec());
        }
        self.points.insert(index, cp);
        proof {
            assert forall|j: int| 0 <= j < self.points@.len() implies point_in_coord(
                #[trigger] self.points@[j],
            ) by {
                if j < index {
                    assert(self.points@[j] == old(self).points_seq()[j]);
                } else if j > index {
                    assert(self.points@[j] == old(self).points_seq()[j - 1]);
                }
            }
        }
    }

    /// Splits the segment at `x`: inserts `(x, value_at(x))` with the
    /// value rounded toward zero to a coordinate.
    pub fn split_segment(&mut self, x: i64)
        requires
            old(self).wf(),
            old(self).mode_spec() is Points,
            in_coord(x as int),
            bounded_splittable(old(self).points_seq(), old(self).bounds_spec(), x as int),
        ensures
            ({
                let v = bounded_value_at(old(self).points_seq(), old(self).bounds_spec(), x as int);
                let y = div_trunc(v->Fin_num, v->Fin_den);
                let cp = old(self).bounds_spec().clamp_spec((x, y as i64));
                let idx = seg_index(old(self).points_seq(), cp.0 as int);
                &&& final(self).points_seq() == old(self).points_seq().insert(idx, cp)
                &&& final(self).wf()
                &&& final(self).same_but_points(old(self))
            }),
    {
        let v = self.value_at(x);
        match v {
            CurveValue::Finite { num, den } => {
                let y = round_value(num, den);
                self.insert_point((x, y as i64));
            },
            _ => {
                proof {
                    assert(false);
                }
            },
        }
    }

    /// Synthesizes a new point next to `index` and splits there: mirroring
    /// the first segment before the start, doubling the last past the end,
    /// the midpoint in the interior.
    pub fn insert_point_by_index(&mut self, index: usize)
        requires
            old(self).wf(),
            old(self).mode_spec() is Points,
            in_coord(crate::editable_func::by_index_x(old(self).points_seq(), index as int)),
            bounded_splittable(
                old(self).points_seq(),
                old(self).bounds_spec(),
                crate::editable_func::by_index_x(old(self).points_seq(), index as int),
            ),
        ensures
            ({
                let x = crate::editable_func::by_index_x(old(self).points_seq(), index as int);
                let v = bounded_value_at(old(self).points_seq(), old(self).bounds_spec(), x);
                let y = div_trunc(v->Fin_num, v->Fin_den);
                let cp = old(self).bounds_spec().clamp_spec((x as i64, y as i64));
                let idx = seg_index(old(self).points_seq(), cp.0 as int);
                &&& final(self).points_seq() == old(self).points_seq().insert(idx, cp)
                &&& final(self).wf()
                &&& final(self).same_but_points(old(self))
            }),
    {
        let n = self.points.len();
        let x: i64 = if index == 0 {
            if n >= 2 {
                let x0 = self.points[0].0;
                let x1 = self.points[1].0;
                x0 - (x1 - x0)
            } else {
                let x0 = self.points[0].0;
                x0 - crate::editable_func::abs_fifth(x0)
            }
        } else if index >= n {
            if n >= 2 {
                let x0 = self.points[n - 2].0;
                let x1 = self.points[n - 1].0;
                x0 + 2 * (x1 - x0)
            } else {
                let x0 = self.points[0].0;
                x0 + crate::editable_func::abs_fifth(x0)
            }
        } else {
            let x0 = self.points[index - 1].0;
            let x1 = self.points[index].0;
            x0 + crate::editable_func::half_gap(x0, x1)
        };
        assert(x as int == crate::editable_func::by_index_x(self.points_seq(), index as int));
        self.split_segment(x);
    }

    /// Removes the point at `index`; a one-point list is left untouched.
    pub fn remove_point(&mut self, index: usize)
        requires
            old(self).wf(),
            old(self).points_seq().len() >= 2 ==> index < old(self).points_seq().len(),
        ensures
            ({
                let s = old(self).points_seq();
                &&& (s.len() >= 2 ==> final(self).points_seq() == s.remove(index as int))
                &&& (s.len() < 2 ==> final(self).points_seq() == s)
                &&& final(self).points_seq().len() >= 1
                &&& final(self).wf()
                &&& final(self).same_but_points(old(self))
            }),
    {
        let ghost s = old(self).points_seq();
        if self.points.len() >= 2 {
            let _ = self.points.remove(index);
            proof {
                let t = self.points_seq();
                assert forall|i: int, j: int| 0 <= i < j < t.len() implies (#[trigger] t[i]).0
                    <= (#[trigger] t[j]).0 by {
                    let si = if i < index as int {
                        i
                    } else {
                        i + 1
                    };
                    let sj = if j < index as int {
                        j
                    } else {
                        j + 1
                    };
                    assert(t[i] == s[si] && t[j] == s[sj]);
                    assert(s[si].0 <= s[sj].0);
                }
                assert forall|i: int| 0 <= i < t.len() implies point_in_coord(#[trigger] t[i]) by {
                    if i < index as int {
                        assert(t[i] == s[i]);
                    } else {
                        assert(t[i] == s[i + 1]);
                    }
                }
                lemma_bounds_remove(s, index as int, self.bounds_spec());
            }
        }
    }

    /// Moves the point at `index` toward `pos`, constrained between its
    /// neighbours' x and clamped to the bounds; out-of-range indices do
    /// nothing.
    pub fn move_point_to(&mut self, index: usize, pos: (i64, i64))
        requires
            old(self).wf(),
            point_in_coord(pos),
        ensures
            ({
                let s = old(self).points_seq();
                let t = bounded_move_target(s, index as int, pos, old(self).bounds_spec());
                &&& (index < s.len() ==> final(self).points_seq() == s.update(index as int, t))
                &&& (index >= s.len() ==> final(self).points_seq() == s)
                &&& final(self).wf()
                &&& final(self).same_but_points(old(self))
            }),
    {
        let ghost s = old(self).points_seq();
        let n = self.points.len();
        let mut x = pos.0;
        if index >= 1 && index - 1 < n {
            let left = self.points[index - 1].0;
            if left > x {
                x = left;
            }
        }
        if index < usize::MAX && index + 1 < n {
            let right = self.points[index + 1].0;
            if right < x {
                x = right;
            }
        }
        let cp = self.bounds.clamp((x, pos.1));
        assert(cp == bounded_move_target(s, index as int, pos, self.bounds_spec()));
        if index < n {
            proof {
                let b = self.bounds_spec();
                if index >= 1 {
                    assert(b.clamp_spec(s[index as int - 1]) == s[index as int - 1]);
                    lemma_clamp_axis_mono(b.min_x_spec(), b.max_x_spec(), s[index as int - 1].0, x);
                }
                if index + 1 < n {
                    assert(b.clamp_spec(s[index as int + 1]) == s[index as int + 1]);
                    lemma_clamp_axis_mono(b.min_x_spec(), b.max_x_spec(), x, s[index as int + 1].0);
                }
                lemma_bounds_clamp_idem(b, (x, pos.1));
            }
            self.points[index] = cp;
            proof {
                let t = self.points_seq();
                assert forall|i: int, j: int| 0 <= i < j < t.len() implies (#[trigger] t[i]).0
                    <= (#[trigger] t[j]).0 by {
                    if i != index as int && j != index as int {
                        assert(s[i].0 <= s[j].0);
                    } else if j == index as int {
                        if index >= 1 {
                            assert(s[i].0 <= s[index as int - 1].0);
                        }
                    } else {
                        if index + 1 < n {
                            assert(s[index as int + 1].0 <= s[j].0);
                        }
                    }
                }
                assert forall|i: int| 0 <= i < t.len() implies point_in_coord(#[trigger] t[i])
                    && self.bounds_spec().clamp_spec(t[i]) == t[i] by {
                    if i != index as int {
                        assert(point_in_coord(s[i]) && self.bounds_spec().clamp_spec(s[i]) == s[i]);
                    }
                }
            }
        }
    }
}

impl Default for EditableFunction {
    fn default() -> (r: Self)
        ensures
            r.wf(),
            r.mode_spec() is Points,
            r.points_seq() == seq![(0i64, 0i64)],
            r.bounds_spec().min_x_spec() is None,
            r.bounds_spec().max_x_spec() is None,
            r.bounds_spec().min_y_spec() is None,
            r.bounds_spec().max_y_spec() is None,
            r.expr_text().len() == 0,
            r.cache() is None,
    {
        EditableFunction {
            mode: EditableFunctionMode::Points,
            points: vec![(0i64, 0i64)],
            expression_str: String::new(),
            expression: None,
            bounds: Bounds::default(),
        }
    }
}

} // verus!
