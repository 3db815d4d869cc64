//! The editable curve: an ordered list of fixed-point sample points with
//! linear interpolation, or a textual formula parsed lazily on change.
//! Every point-producing operation runs through a clamp policy, the hook
//! the restricted curve variants are built on.

use crate::curve::COORD_LIMIT;
use crate::curve::CurveVal;
use crate::curve::CurveValue;
use crate::curve::UNIT;
use crate::curve::cap_val;
use crate::curve::cap_value;
use crate::curve::cv_bounded;
use crate::curve::div_trunc;
use crate::curve::find_segment;
use crate::curve::flat_val;
use crate::curve::floor_val;
use crate::curve::floor_value;
use crate::curve::in_coord;
use crate::curve::lemma_insert_sorted;
use crate::curve::lemma_seg_index_facts;
use crate::curve::line_val;
use crate::curve::line_value;
use crate::curve::point_in_coord;
use crate::curve::points_in_coord;
use crate::curve::round_value;
use crate::curve::seg_index;
use crate::curve::x_sorted;
use crate::expression::expr_parses;
use crate::expression::parse_expression;
use vstd::prelude::*;

verus! {

#[derive(Debug, Clone, Copy, PartialEq, Eq, Structural)]
pub enum EditableFuncMode {
    Points,
    Expression,
}

/// The clamp applied to every point a curve operation produces: none, into
/// the unit band (x at least 0, y between 0 and `UNIT`), or into the
/// non-negative quadrant.
#[derive(Debug, Clone, Copy, PartialEq, Eq, Structural)]
pub enum ClampPolicy {
    Plain,
    ZeroOne,
    Positive,
}

pub open spec fn clamp_x_spec(k: ClampPolicy, x: i64) -> i64 {
    match k {
        ClampPolicy::Plain => x,
        ClampPolicy::ZeroOne => if x < 0 {
            0
        } else {
            x
        },
        ClampPolicy::Positive => if x < 0 {
            0
        } else {
            x
        },
    }
}

pub open spec fn clamp_y_spec(k: ClampPolicy, y: i64) -> i64 {
    match k {
        ClampPolicy::Plain => y,
        ClampPolicy::ZeroOne => if y < 0 {
            0
        } else if y > UNIT {
            UNIT
        } else {
            y
        },
        ClampPolicy::Positive => if y < 0 {
            0
        } else {
            y
        },
    }
}

pub open spec fn clamp_point_spec(k: ClampPolicy, p: (i64, i64)) -> (i64, i64) {
    (clamp_x_spec(k, p.0), clamp_y_spec(k, p.1))
}

/// The clamp a policy applies to an extrapolated curve value.
pub open spec fn clamp_val_spec(k: ClampPolicy, v: CurveVal) -> CurveVal {
    match k {
        ClampPolicy::Plain => v,
        ClampPolicy::ZeroOne => floor_val(cap_val(v, UNIT as int), 0),
        ClampPolicy::Positive => floor_val(v, 0),
    }
}

/// Every stored point is a fixed point of the policy's clamp.
pub open spec fn points_in_region(s: Seq<(i64, i64)>, k: ClampPolicy) -> bool {
    forall|i: int| 0 <= i < s.len() ==> clamp_point_spec(k, #[trigger] s[i]) == s[i]
}

/// Applies the policy's point clamp.
pub fn clamp_point(p: (i64, i64), k: ClampPolicy) -> (r: (i64, i64))
    requires
        point_in_coord(p),
    ensures
        r == clamp_point_spec(k, p),
        point_in_coord(r),
        clamp_point_spec(k, r) == r,
{
    match k {
        ClampPolicy::Plain => p,
        ClampPolicy::ZeroOne => {
            let x = if p.0 < 0 {
                0
            } else {
                p.0
            };
            let y = if p.1 < 0 {
                0
            } else if p.1 > UNIT {
                UNIT
            } else {
                p.1
            };
            (x, y)
        },
        ClampPolicy::Positive => {
            let x = if p.0 < 0 {
                0
            } else {
                p.0
            };
            let y = if p.1 < 0 {
                0
            } else {
                p.1
            };
            (x, y)
        },
    }
}

/// Applies the policy's value clamp.
pub fn clamp_value(v: CurveValue, k: ClampPolicy) -> (r: CurveValue)
    requires
        cv_bounded(v),
    ensures
        r.model() == clamp_val_spec(k, v.model()),
        cv_bounded(r),
{
    match k {
        ClampPolicy::Plain => v,
        ClampPolicy::ZeroOne => floor_value(cap_value(v, UNIT), 0),
        ClampPolicy::Positive => floor_value(v, 0),
    }
}

/// The policy's x clamp is monotone.
pub proof fn lemma_clamp_x_mono(k: ClampPolicy, a: i64, b: i64)
    requires
        a <= b,
    ensures
        clamp_x_spec(k, a) <= clamp_x_spec(k, b),
{
}

/// The curve value at `x` of a point list under a clamp policy: linear
/// interpolation on the segment containing `x`, the boundary line (clamped
/// by the policy) outside the stored range, the constant value of a
/// one-point list.
pub open spec fn value_at_spec(s: Seq<(i64, i64)>, k: ClampPolicy, x: int) -> CurveVal
    recommends
        s.len() >= 1,
{
    let i = seg_index(s, x);
    if s.len() < 2 {
        flat_val(s[0].1)
    } else if i == 0 {
        clamp_val_spec(k, line_val(s[0], s[1], x))
    } else if i >= s.len() {
        clamp_val_spec(k, line_val(s[s.len() - 2], s[s.len() - 1], x))
    } else {
        line_val(s[i - 1], s[i], x)
    }
}

/// The x the point-by-index operation synthesizes: mirroring the first
/// segment before the start, doubling the last segment past the end,
/// stepping a fifth away from a single point, the segment midpoint
/// (rounded down) in the interior.
pub open spec fn by_index_x(s: Seq<(i64, i64)>, index: int) -> int
    recommends
        s.len() >= 1,
{
    if index <= 0 {
        if s.len() >= 2 {
            2 * s[0].0 - s[1].0
        } else {
            s[0].0 - abs_int(s[0].0 as int) / 5
        }
    } else if index >= s.len() {
        if s.len() >= 2 {
            2 * s[s.len() - 1].0 - s[s.len() - 2].0
        } else {
            s[0].0 + abs_int(s[0].0 as int) / 5
        }
    } else {
        s[index - 1].0 + (s[index].0 - s[index - 1].0) / 2
    }
}

pub open spec fn abs_int(v: int) -> int {
    if v < 0 {
        -v
    } else {
        v
    }
}

/// The value at `x` is finite and rounds to a storable coordinate, so a
/// point may be split off there.
pub open spec fn splittable(s: Seq<(i64, i64)>, k: ClampPolicy, x: int) -> bool {
    &&& value_at_spec(s, k, x) matches CurveVal::Fin { num, den } && in_coord(div_trunc(num, den))
}

/// The x position the move operation stores: the requested x constrained
/// between the neighbours of `index`, then the policy clamp.
pub open spec fn move_target(s: Seq<(i64, i64)>, index: int, pos: (i64, i64), k: ClampPolicy) -> (
    i64,
    i64,
) {
    let x1 = if index >= 1 && index - 1 < s.len() && s[index - 1].0 > pos.0 {
        s[index - 1].0
    } else {
        pos.0
    };
    let x2 = if index + 1 < s.len() && s[index + 1].0 < x1 {
        s[index + 1].0
    } else {
        x1
    };
    clamp_point_spec(k, (x2, pos.1))
}

/// A curve in point or expression form.  The point list is never empty,
/// is ordered by non-decreasing x, and stays within `COORD_LIMIT`; the
/// formula text is parsed lazily when `update_expression` sees it changed.
pub struct EditableFunc {
    pub mode: EditableFuncMode,
    points: Vec<(i64, i64)>,
    pub expression: String,
    expr_result: Option<(Result<meval::Expr, meval::Error>, String)>,
}

impl EditableFunc {
    pub closed spec fn points_seq(&self) -> Seq<(i64, i64)> {
        self.points@
    }

    pub closed spec fn mode_spec(&self) -> EditableFuncMode {
        self.mode
    }

    pub closed spec fn expr_text(&self) -> Seq<char> {
        self.expression@
    }

    /// The cached parse outcome: whether it succeeded, and the text it was
    /// produced from.
    pub closed spec fn cache(&self) -> Option<(bool, Seq<char>)> {
        match self.expr_result {
            Some((r, s)) => Some((r is Ok, s@)),
            None => None,
        }
    }

    pub open spec fn wf(&self) -> bool {
        &&& self.points_seq().len() >= 1
        &&& x_sorted(self.points_seq())
        &&& points_in_coord(self.points_seq())
    }

    /// The cached parse of the current text failed.
    pub open spec fn has_parse_error(&self) -> bool {
        match self.cache() {
            Some((ok, _)) => !ok,
            None => false,
        }
    }

    /// The stored parse cache no longer belongs to the current text.
    pub open spec fn needs_reparse(&self) -> bool {
        &&& self.mode_spec() is Expression
        &&& ((self.expr_text().len() == 0) != (self.cache() is None) || match self.cache() {
            Some((_, t)) => t != self.expr_text(),
            None => false,
        })
    }

    /// Everything but the point list is unchanged.
    pub open spec fn same_but_points(&self, other: &Self) -> bool {
        &&& self.mode_spec() == other.mode_spec()
        &&& self.expr_text() == other.expr_text()
        &&& self.cache() == other.cache()
    }

    pub fn with_points(points: Vec<(i64, i64)>) -> (r: Self)
        requires
            points@.len() >= 1,
            x_sorted(points@),
            points_in_coord(points@),
        ensures
            r.wf(),
            r.points_seq() == points@,
            r.mode_spec() is Points,
            r.expr_text().len() == 0,
            r.cache() is None,
    {
        EditableFunc {
            mode: EditableFuncMode::Points,
            points,
            expression: String::new(),
            expr_result: None,
        }
    }

    pub fn with_expression(expression: &str) -> (r: Self)
        ensures
            r.wf(),
            r.mode_spec() is Expression,
            r.expr_text() == expression@,
            r.points_seq() == seq![(0i64, 0i64)],
            expression@.len() == 0 ==> r.cache() is None,
            expression@.len() > 0 ==> r.cache() == Some((expr_parses(expression@), expression@)),
    {
        let mut s = EditableFunc {
            mode: EditableFuncMode::Expression,
            points: vec![(0i64, 0i64)],
            expression: expression.to_owned(),
            expr_result: None,
        };
        s.update_expression();
        s
    }

    pub fn mode(&self) -> (r: &EditableFuncMode)
        ensures
            *r == self.mode_spec(),
    {
        &self.mode
    }

    pub fn mode_mut(&mut self) -> (r: &mut EditableFuncMode)
        ensures
            *r == old(self).mode_spec(),
            final(self).mode_spec() == *final(r),
            final(self).points_seq() == old(self).points_seq(),
            final(self).expr_text() == old(self).expr_text(),
            final(self).cache() == old(self).cache(),
    {
        &mut self.mode
    }

    pub fn is_mode_points(&self) -> (r: bool)
        ensures
            r == (self.mode_spec() is Points),
    {
        matches!(self.mode, EditableFuncMode::Points)
    }

    pub fn points(&self) -> (r: Option<&Vec<(i64, i64)>>)
        ensures
            r matches Some(v) && v@ == self.points_seq(),
    {
        Some(&self.points)
    }

    pub fn expression_mut(&mut self) -> (r: &mut String)
        ensures
            (*r)@ == old(self).expr_text(),
            final(self).expr_text() == (*final(r))@,
            final(self).points_seq() == old(self).points_seq(),
            final(self).mode_spec() == old(self).mode_spec(),
            final(self).cache() == old(self).cache(),
    {
        &mut self.expression
    }

    pub fn expression_text(&self) -> (r: &String)
        ensures
            r@ == self.expr_text(),
    {
        &self.expression
    }

    pub fn expression_err(&self) -> (r: Option<&meval::Error>)
        ensures
            r is Some <==> self.has_parse_error(),
    {
        match &self.expr_result {
            Some((Err(e), _)) => Some(e),
            _ => None,
        }
    }

    /// Re-parses the formula only when the text changed since the cached
    /// parse (or the cache is missing), and only in expression mode; an
    /// empty text clears the cache instead.
    pub fn update_expression(&mut self)
        ensures
            !old(self).needs_reparse() ==> *final(self) == *old(self),
            final(self).points_seq() == old(self).points_seq(),
            final(self).mode_spec() == old(self).mode_spec(),
            final(self).expr_text() == old(self).expr_text(),
            old(self).needs_reparse() && old(self).expr_text().len() > 0 ==> final(self).cache()
                == Some((expr_parses(old(self).expr_text()), old(self).expr_text())),
            old(self).needs_reparse() && old(self).expr_text().len() == 0 ==> final(self).cache()
                is None,
    {
        let empty = self.expression.as_str().is_empty();
        let stale = match &self.expr_result {
            Some((_, s)) => empty || !s.eq(&self.expression),
            None => !empty,
        };
        if matches!(self.mode, EditableFuncMode::Expression) && stale {
            if !self.expression.as_str().is_empty() {
                let parsed = parse_expression(self.expression.as_str());
                self.expr_result = Some((parsed, self.expression.clone()));
            } else {
                self.expr_result = None;
            }
        }
    }

    /// Exact curve value at `x` under a clamp policy (point mode only; a
    /// formula evaluates to floating point and is evaluated by callers of
    /// the library).
    pub(crate) fn value_at_clamped(&self, x: i64, k: ClampPolicy) -> (r: CurveValue)
        requires
            self.wf(),
            self.mode_spec() is Points,
            in_coord(x as int),
        ensures
            r.model() == value_at_spec(self.points_seq(), k, x as int),
            cv_bounded(r),
    {
        proof {
            lemma_seg_index_facts(self.points_seq(), x as int);
        }
        let n = self.points.len();
        let i = find_segment(&self.points, x);
        if n < 2 {
            CurveValue::Finite { num: self.points[0].1 as i128, den: 1 }
        } else if i == 0 {
            clamp_value(line_value(self.points[0], self.points[1], x), k)
        } else if i >= n {
            clamp_value(line_value(self.points[n - 2], self.points[n - 1], x), k)
        } else {
            line_value(self.points[i - 1], self.points[i], x)
        }
    }

    pub(crate) fn checked_value_at_clamped(&self, x: i64, k: ClampPolicy) -> (r: Option<
        CurveValue,
    >)
        requires
            self.wf(),
            self.mode_spec() is Points,
            in_coord(x as int),
        ensures
            r is Some <==> value_at_spec(self.points_seq(), k, x as int) is Fin,
            r matches Some(v) ==> v.model() == value_at_spec(self.points_seq(), k, x as int)
                && cv_bounded(v),
    {
        let v = self.value_at_clamped(x, k);
        match v {
            CurveValue::Finite { .. } => Some(v),
            _ => None,
        }
    }

    /// Clamps the point by the policy and inserts it at its segment index,
    /// which keeps the list sorted; returns the index and the stored point.
    pub(crate) fn insert_point_clamped(&mut self, pos: (i64, i64), k: ClampPolicy) -> (r: (
        usize,
        (i64, i64),
    ))
        requires
            old(self).wf(),
            point_in_coord(pos),
        ensures
            ({
                let cp = clamp_point_spec(k, pos);
                let idx = seg_index(old(self).points_seq(), cp.0 as int);
                &&& r.1 == cp
                &&& r.0 as int == idx
                &&& final(self).points_seq() == old(self).points_seq().insert(idx, cp)
                &&& final(self).wf()
                &&& final(self).same_but_points(old(self))
            }),
    {
        let cp = clamp_point(pos, k);
        let index = find_segment(&self.points, cp.0);
        proof {
            lemma_seg_index_facts(self.points@, cp.0 as int);
            lemma_insert_sorted(self.points@, cp);
        }
        self.points.insert(index, cp);
        proof {
            assert forall|j: int| 0 <= j < self.points@.len() implies point_in_coord(
                #[trigger] self.points@[j],
            ) by {
                if j < index {
                    assert(self.points@[j] == old(self).points_seq()[j]);
                } else if j > index {
                    assert(self.points@[j] == old(self).points_seq()[j - 1]);
                }
            }
        }
        (index, cp)
    }

    pub fn insert_point(&mut self, pos: (i64, i64)) -> (r: (usize, (i64, i64)))
        requires
            old(self).wf(),
            point_in_coord(pos),
        ensures
            ({
                let idx = seg_index(old(self).points_seq(), pos.0 as int);
                &&& r.1 == pos
                &&& r.0 as int == idx
                &&& final(self).points_seq() == old(self).points_seq().insert(idx, pos)
                &&& final(self).wf()
                &&& final(self).same_but_points(old(self))
            }),
    {
        self.insert_point_clamped(pos, ClampPolicy::Plain)
    }

    /// Splits the segment at `x`: inserts `(x, value_at(x))` with the value
    /// rounded toward zero to a coordinate.
    pub(crate) fn split_segment_clamped(&mut self, x: i64, k: ClampPolicy) -> (r: (
        usize,
        (i64, i64),
    ))
        requires
            old(self).wf(),
            old(self).mode_spec() is Points,
            in_coord(x as int),
            splittable(old(self).points_seq(), k, x as int),
        ensures
            ({
                let v = value_at_spec(old(self).points_seq(), k, x as int);
                let y = div_trunc(v->Fin_num, v->Fin_den);
                let cp = clamp_point_spec(k, (x, y as i64));
                let idx = seg_index(old(self).points_seq(), cp.0 as int);
                &&& r.1 == cp
                &&& r.0 as int == idx
                &&& final(self).points_seq() == old(self).points_seq().insert(idx, cp)
                &&& final(self).wf()
                &&& final(self).same_but_points(old(self))
            }),
    {
        let v = self.value_at_clamped(x, k);
        match v {
            CurveValue::Finite { num, den } => {
                let y = round_value(num, den);
                self.insert_point_clamped((x, y as i64), k)
            },
            _ => {
                proof {
                    assert(false);
                }
                (0, (0, 0))
            },
        }
    }

    pub fn split_segment(&mut self, x: i64) -> (r: (usize, (i64, i64)))
        requires
            old(self).wf(),
            old(self).mode_spec() is Points,
            in_coord(x as int),
            splittable(old(self).points_seq(), ClampPolicy::Plain, x as int),
        ensures
            ({
                let v = value_at_spec(old(self).points_seq(), ClampPolicy::Plain, x as int);
                let y = div_trunc(v->Fin_num, v->Fin_den);
                let idx = seg_index(old(self).points_seq(), x as int);
                &&& r == (idx as usize, (x, y as i64))
                &&& final(self).points_seq() == old(self).points_seq().insert(idx, (x, y as i64))
                &&& final(self).wf()
                &&& final(self).same_but_points(old(self))
            }),
    {
        self.split_segment_clamped(x, ClampPolicy::Plain)
    }

    /// Synthesizes a new point next to `index` (see `by_index_x`) and
    /// splits there.
    pub(crate) fn insert_point_by_index_clamped(&mut self, index: usize, k: ClampPolicy) -> (r: (
        usize,
        (i64, i64),
    ))
        requires
            old(self).wf(),
            old(self).mode_spec() is Points,
            in_coord(by_index_x(old(self).points_seq(), index as int)),
            splittable(
                old(self).points_seq(),
                k,
                by_index_x(old(self).points_seq(), index as int),
            ),
        ensures
            ({
                let x = by_index_x(old(self).points_seq(), index as int);
                let v = value_at_spec(old(self).points_seq(), k, x);
                let y = div_trunc(v->Fin_num, v->Fin_den);
                let cp = clamp_point_spec(k, (x as i64, y as i64));
                let idx = seg_index(old(self).points_seq(), cp.0 as int);
                &&& r.1 == cp
                &&& r.0 as int == idx
                &&& final(self).points_seq() == old(self).points_seq().insert(idx, cp)
                &&& final(self).wf()
                &&& final(self).same_but_points(old(self))
            }),
    {
        let n = self.points.len();
        let x: i64 = if index == 0 {
            if n >= 2 {
                let x0 = self.points[0].0;
                let x1 = self.points[1].0;
                x0 - (x1 - x0)
            } else {
                let x0 = self.points[0].0;
                x0 - abs_fifth(x0)
            }
        } else if index >= n {
            if n >= 2 {
                let x0 = self.points[n - 2].0;
                let x1 = self.points[n - 1].0;
                x0 + 2 * (x1 - x0)
            } else {
                let x0 = self.points[0].0;
                x0 + abs_fifth(x0)
            }
        } else {
            let x0 = self.points[index - 1].0;
            let x1 = self.points[index].0;
            x0 + half_gap(x0, x1)
        };
        assert(x as int == by_index_x(self.points_seq(), index as int));
        self.split_segment_clamped(x, k)
    }

    pub fn insert_point_by_index(&mut self, index: usize) -> (r: (usize, (i64, i64)))
        requires
            old(self).wf(),
            old(self).mode_spec() is Points,
            in_coord(by_index_x(old(self).points_seq(), index as int)),
            splittable(
                old(self).points_seq(),
                ClampPolicy::Plain,
                by_index_x(old(self).points_seq(), index as int),
            ),
        ensures
            ({
                let x = by_index_x(old(self).points_seq(), index as int);
                let v = value_at_spec(old(self).points_seq(), ClampPolicy::Plain, x);
                let y = div_trunc(v->Fin_num, v->Fin_den);
                let idx = seg_index(old(self).points_seq(), x);
                &&& r == (idx as usize, (x as i64, y as i64))
                &&& final(self).points_seq() == old(self).points_seq().insert(
                    idx,
                    (x as i64, y as i64),
                )
                &&& final(self).wf()
                &&& final(self).same_but_points(old(self))
            }),
    {
        self.insert_point_by_index_clamped(index, ClampPolicy::Plain)
    }

    /// Moves the point at `index` toward `pos`, constrained between its
    /// neighbours' x and clamped by the policy; out-of-range indices do
    /// nothing.
    pub(crate) fn move_point_to_clamped(&mut self, index: usize, pos: (i64, i64), k: ClampPolicy)
        -> (r: Option<(i64, i64)>)
        requires
            old(self).wf(),
            point_in_coord(pos),
            points_in_region(old(self).points_seq(), k),
        ensures
            ({
                let s = old(self).points_seq();
                let t = move_target(s, index as int, pos, k);
                &&& (index < s.len() ==> r == Some(t) && final(self).points_seq() == s.update(
                    index as int,
                    t,
                ))
                &&& (index >= s.len() ==> r is None && final(self).points_seq() == s)
                &&& final(self).wf()
                &&& points_in_region(final(self).points_seq(), k)
                &&& final(self).same_but_points(old(self))
            }),
    {
        let ghost s = old(self).points_seq();
        let n = self.points.len();
        let mut x = pos.0;
        if index >= 1 && index - 1 < n {
            let left = self.points[index - 1].0;
            if left > x {
                x = left;
            }
        }
        if index < usize::MAX && index + 1 < n {
            let right = self.points[index + 1].0;
            if right < x {
                x = right;
            }
        }
        let cp = clamp_point((x, pos.1), k);
        assert(cp == move_target(s, index as int, pos, k));
        if index < n {
            proof {
                if index >= 1 {
                    assert(clamp_point_spec(k, s[index as int - 1]) == s[index as int - 1]);
                    lemma_clamp_x_mono(k, s[index as int - 1].0, x);
                }
                if index + 1 < n {
                    assert(clamp_point_spec(k, s[index as int + 1]) == s[index as int + 1]);
                    lemma_clamp_x_mono(k, x, s[index as int + 1].0);
                }
            }
            self.points[index] = cp;
            proof {
                let t = self.points_seq();
                assert forall|i: int, j: int| 0 <= i < j < t.len() implies (#[trigger] t[i]).0
                    <= (#[trigger] t[j]).0 by {
                    if i != index as int && j != index as int {
                        assert(s[i].0 <= s[j].0);
                    } else if j == index as int {
                        if index >= 1 {
                            assert(s[i].0 <= s[index as int - 1].0);
                        }
                    } else {
                        if index + 1 < n {
                            assert(s[index as int + 1].0 <= s[j].0);
                        }
                    }
                }
                assert forall|i: int| 0 <= i < t.len() implies point_in_coord(#[trigger] t[i])
                    && clamp_point_spec(k, t[i]) == t[i] by {
                    if i != index as int {
                        assert(point_in_coord(s[i]) && clamp_point_spec(k, s[i]) == s[i]);
                    }
                }
            }
            Some(cp)
        } else {
            None
        }
    }

    pub fn move_point_to(&mut self, index: usize, pos: (i64, i64)) -> (r: Option<(i64, i64)>)
        requires
            old(self).wf(),
            point_in_coord(pos),
        ensures
            ({
                let s = old(self).points_seq();
                let t = move_target(s, index as int, pos, ClampPolicy::Plain);
                &&& (index < s.len() ==> r == Some(t) && final(self).points_seq() == s.update(
                    index as int,
                    t,
                ))
                &&& (index >= s.len() ==> r is None && final(self).points_seq() == s)
                &&& final(self).wf()
                &&& final(self).same_but_points(old(self))
            }),
    {
        self.move_point_to_clamped(index, pos, ClampPolicy::Plain)
    }

    /// Removes the point at `index`; a one-point list is left untouched so
    /// the curve always keeps at least one point.
    pub fn remove_point(&mut self, index: usize) -> (r: Option<(i64, i64)>)
        requires
            old(self).wf(),
            old(self).points_seq().len() >= 2 ==> index < old(self).points_seq().len(),
        ensures
            ({
                let s = old(self).points_seq();
                &&& (s.len() >= 2 ==> r == Some(s[index as int]) && final(self).points_seq()
                    == s.remove(index as int))
                &&& (s.len() < 2 ==> r is None && final(self).points_seq() == s)
                &&& final(self).points_seq().len() >= 1
                &&& final(self).wf()
                &&& final(self).same_but_points(old(self))
            }),
    {
        let ghost s = old(self).points_seq();
        if self.points.len() >= 2 {
            let p = self.points.remove(index);
            proof {
                let t = self.points_seq();
                assert forall|i: int, j: int| 0 <= i < j < t.len() implies (#[trigger] t[i]).0
                    <= (#[trigger] t[j]).0 by {
                    let si = if i < index as int {
                        i
                    } else {
                        i + 1
                    };
                    let sj = if j < index as int {
                        j
                    } else {
                        j + 1
                    };
                    assert(t[i] == s[si] && t[j] == s[sj]);
                    assert(s[si].0 <= s[sj].0);
                }
                assert forall|i: int| 0 <= i < t.len() implies point_in_coord(#[trigger] t[i]) by {
                    if i < index as int {
                        assert(t[i] == s[i]);
                    } else {
                        assert(t[i] == s[i + 1]);
                    }
                }
            }
            Some(p)
        } else {
            None
        }
    }

    pub fn value_at(&self, x: i64) -> (r: CurveValue)
        requires
            self.wf(),
            self.mode_spec() is Points,
            in_coord(x as int),
        ensures
            r.model() == value_at_spec(self.points_seq(), ClampPolicy::Plain, x as int),
            cv_bounded(r),
    {
        self.value_at_clamped(x, ClampPolicy::Plain)
    }

    pub fn checked_value_at(&self, x: i64) -> (r: Option<CurveValue>)
        requires
            self.wf(),
            self.mode_spec() is Points,
            in_coord(x as int),
        ensures
            r is Some <==> value_at_spec(self.points_seq(), ClampPolicy::Plain, x as int) is Fin,
            r matches Some(v) ==> v.model() == value_at_spec(
                self.points_seq(),
                ClampPolicy::Plain,
                x as int,
            ) && cv_bounded(v),
    {
        self.checked_value_at_clamped(x, ClampPolicy::Plain)
    }
}

impl Default for EditableFunc {
    fn default() -> (r: Self)
        ensures
            r.wf(),
            r.mode_spec() is Points,
            r.points_seq() == seq![(0i64, 0i64)],
            r.expr_text().len() == 0,
            r.cache() is None,
    {
        EditableFunc {
            mode: EditableFuncMode::Points,
            points: vec![(0i64, 0i64)],
            expression: String::new(),
            expr_result: None,
        }
    }
}

impl Clone for EditableFunc {
    /// The copy keeps the points, mode, text, and the cached parse status
    /// (the parsed form itself is re-wrapped, not inspected).
    fn clone(&self) -> (r: Self)
        ensures
            r.mode_spec() == self.mode_spec(),
            r.points_seq() == self.points_seq(),
            r.expr_text() == self.expr_text(),
            r.cache() == self.cache(),
    {
        EditableFunc {
            mode: self.mode,
            points: clone_points(&self.points),
            expression: self.expression.clone(),
            expr_result: match &self.expr_result {
                Some((Ok(e), s)) => Some((Ok(crate::expression::clone_expr(e)), s.clone())),
                Some((Err(e), s)) => Some((Err(crate::expression::clone_error(e)), s.clone())),
                None => None,
            },
        }
    }
}

/// Copies a point list element by element.
pub(crate) fn clone_points(v: &Vec<(i64, i64)>) -> (r: Vec<(i64, i64)>)
    ensures
        r@ == v@,
{
    let mut r: Vec<(i64, i64)> = Vec::new();
    let n = v.len();
    for i in 0..n
        invariant
            n == v@.len(),
            r@.len() == i,
            forall|q: int| 0 <= q < i ==> (#[trigger] r@[q]) == v@[q],
    {
        r.push(v[i]);
    }
    proof {
        assert(r@ =~= v@);
    }
    r
}

/// A fifth of the magnitude, rounded down: the step used to place a second
/// point next to a lone one.
pub(crate) fn abs_fifth(v: i64) -> (r: i64)
    requires
        in_coord(v as int),
    ensures
        r == abs_int(v as int) / 5,
{
    let a: u64 = if v < 0 {
        (-v) as u64
    } else {
        v as u64
    };
    (a / 5) as i64
}

/// Half the gap between two ordered coordinates, rounded down.
pub(crate) fn half_gap(a: i64, b: i64) -> (r: i64)
    requires
        in_coord(a as int),
        in_coord(b as int),
        a <= b,
    ensures
        r == (b - a) / 2,
{
    let d: u64 = (b - a) as u64;
    (d / 2) as i64
}

} // verus!
