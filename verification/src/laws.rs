//! Statements, proved once and for all, of the global shape of curve
//! evaluation: piecewise linearity on the stored segments, agreement with
//! the stored points, and linear extension beyond the boundary segments.

use crate::curve::CurveVal;
use crate::curve::line_val;
use crate::curve::seg_index;
use crate::curve::x_sorted;
use crate::editable_func::ClampPolicy;
use crate::editable_func::clamp_val_spec;
use crate::editable_func::value_at_spec;
use vstd::prelude::*;

verus! {

/// `v` is the rational equal to the integer `y`.
pub open spec fn cv_equals_int(v: CurveVal, y: int) -> bool {
    &&& v matches CurveVal::Fin { num, den }
    &&& v->Fin_den > 0
    &&& v->Fin_num == y * v->Fin_den
}

/// The points strictly increase in x (no duplicate x values).
pub open spec fn x_strictly_sorted(s: Seq<(i64, i64)>) -> bool {
    forall|i: int| 0 <= i + 1 < s.len() ==> (#[trigger] s[i]).0 < s[i + 1].0
}

proof fn lemma_strict_implies_sorted(s: Seq<(i64, i64)>)
    requires
        x_strictly_sorted(s),
    ensures
        x_sorted(s),
{
    assert forall|i: int, j: int| 0 <= i < j < s.len() implies (#[trigger] s[i]).0
        <= (#[trigger] s[j]).0 by {
        lemma_strict_chain(s, i, j);
    }
}

proof fn lemma_strict_chain(s: Seq<(i64, i64)>, i: int, j: int)
    requires
        x_strictly_sorted(s),
        0 <= i < j < s.len(),
    ensures
        s[i].0 < s[j].0,
    decreases j - i,
{
    if j > i + 1 {
        lemma_strict_chain(s, i, j - 1);
    }
}

/// On a sorted list, at most one window can contain `x`, and the scan
/// finds it: if `s[i].0 <= x < s[i + 1].0` then the segment index is
/// `i + 1`.
pub proof fn lemma_seg_index_unique(s: Seq<(i64, i64)>, x: int, i: int)
    requires
        x_sorted(s),
        0 <= i,
        i + 1 < s.len(),
        s[i].0 <= x < s[i + 1].0,
    ensures
        seg_index(s, x) == i + 1,
{
    crate::curve::lemma_seg_index_facts(s, x);
    let r = seg_index(s, x);
    if r == 0 {
        assert(x < s[0].0 && s[0].0 <= s[i].0);
    } else if r == s.len() {
        crate::curve::lemma_seg_index_from_match(s, x, 0);
        assert(!(s[i].0 <= x && x < s[i + 1].0));
    } else {
        if r - 1 < i {
            assert(s[r].0 <= s[i].0);
        } else if r - 1 > i {
            assert(s[i + 1].0 <= s[r - 1].0);
        }
    }
}

/// Piecewise linearity: inside a stored segment the curve value is the
/// exact line through that segment's endpoints, whatever the clamp
/// policy (the policy only touches extrapolation).
pub proof fn lemma_value_piecewise_linear(
    s: Seq<(i64, i64)>,
    k: ClampPolicy,
    x: int,
    i: int,
)
    requires
        x_sorted(s),
        0 <= i,
        i + 1 < s.len(),
        s[i].0 <= x < s[i + 1].0,
    ensures
        value_at_spec(s, k, x) == line_val(s[i], s[i + 1], x),
{
    lemma_seg_index_unique(s, x, i);
}

/// The line through two points with distinct x takes the value of each
/// endpoint at that endpoint's x.
pub proof fn lemma_line_hits_endpoints(p0: (i64, i64), p1: (i64, i64))
    requires
        p0.0 < p1.0,
    ensures
        cv_equals_int(line_val(p0, p1, p0.0 as int), p0.1 as int),
        cv_equals_int(line_val(p0, p1, p1.0 as int), p1.1 as int),
{
    assert(p0.1 * (p1.0 - p0.0) + (p1.1 - p0.1) * (p0.0 - p0.0) == p0.1 * (p1.0 - p0.0))
        by (nonlinear_arith);
    assert(p0.1 * (p1.0 - p0.0) + (p1.1 - p0.1) * (p1.0 - p0.0) == p1.1 * (p1.0 - p0.0))
        by (nonlinear_arith);
}

/// Continuity at the stored points: on a strictly x-sorted list the
/// unclamped curve value at a stored x is exactly the stored y.  Together
/// with `lemma_value_piecewise_linear` this says each segment's line meets
/// its neighbours at the shared point.
pub proof fn lemma_value_at_stored_point(s: Seq<(i64, i64)>, j: int)
    requires
        x_strictly_sorted(s),
        s.len() >= 1,
        0 <= j < s.len(),
    ensures
        cv_equals_int(value_at_spec(s, ClampPolicy::Plain, s[j].0 as int), s[j].1 as int),
{
    lemma_strict_implies_sorted(s);
    let x = s[j].0 as int;
    let n = s.len() as int;
    if n < 2 {
        assert(s[0].1 as int == (s[0].1 as int) * 1) by (nonlinear_arith);
    } else if j + 1 < n {
        lemma_value_piecewise_linear(s, ClampPolicy::Plain, x, j);
        lemma_line_hits_endpoints(s[j], s[j + 1]);
    } else {
        crate::curve::lemma_seg_index_facts(s, x);
        let r = seg_index(s, x);
        if r == 0 {
            assert(s[0].0 <= s[j].0);
        } else if r < n {
            assert(s[r].0 <= s[n - 1].0);
        }
        assert(r == n);
        lemma_line_hits_endpoints(s[n - 2], s[n - 1]);
    }
}

/// Before the first stored x, the value is the line through the first two
/// points, clamped by the policy: the first segment extends linearly.
pub proof fn lemma_value_extends_left(s: Seq<(i64, i64)>, k: ClampPolicy, x: int)
    requires
        x_sorted(s),
        s.len() >= 2,
        x < s[0].0,
    ensures
        value_at_spec(s, k, x) == clamp_val_spec(k, line_val(s[0], s[1], x)),
{
}

/// From the last stored x on, the value is the line through the last two
/// points, clamped by the policy: the last segment extends linearly.
pub proof fn lemma_value_extends_right(s: Seq<(i64, i64)>, k: ClampPolicy, x: int)
    requires
        x_sorted(s),
        s.len() >= 2,
        x >= s[s.len() - 1].0,
    ensures
        value_at_spec(s, k, x) == clamp_val_spec(
            k,
            line_val(s[s.len() - 2], s[s.len() - 1], x),
        ),
{
    crate::curve::lemma_seg_index_facts(s, x);
    let n = s.len() as int;
    let r = seg_index(s, x);
    if r == 0 {
        assert(s[0].0 <= s[n - 1].0);
    } else if r < n {
        assert(s[r].0 <= s[n - 1].0);
    }
    assert(r == n);
}

/// Law: every point stored in a well-formed bounded curve is a fixed
/// point of its bounds clamp, so bounds, once respected, are respected
/// after any sequence of operations (each of which keeps the curve
/// well-formed).
pub proof fn lemma_points_respect_bounds(f: &crate::editable_function::EditableFunction)
    requires
        f.wf(),
    ensures
        forall|i: int|
            0 <= i < f.points_seq().len() ==> f.bounds_spec().clamp_spec(
                #[trigger] f.points_seq()[i],
            ) == f.points_seq()[i],
{
}

/// Law: the point a move stores never breaks the x order against its
/// neighbours; the whole list stays sorted.
pub proof fn lemma_move_preserves_order(
    s: Seq<(i64, i64)>,
    index: int,
    pos: (i64, i64),
    k: ClampPolicy,
)
    requires
        x_sorted(s),
        crate::editable_func::points_in_region(s, k),
        0 <= index < s.len(),
    ensures
        index >= 1 ==> s[index - 1].0 <= crate::editable_func::move_target(s, index, pos, k).0,
        index + 1 < s.len() ==> crate::editable_func::move_target(s, index, pos, k).0 <= s[index
            + 1].0,
        x_sorted(s.update(index, crate::editable_func::move_target(s, index, pos, k))),
{
    let t = crate::editable_func::move_target(s, index, pos, k);
    let x1 = if index >= 1 && index - 1 < s.len() && s[index - 1].0 > pos.0 {
        s[index - 1].0
    } else {
        pos.0
    };
    let x2 = if index + 1 < s.len() && s[index + 1].0 < x1 {
        s[index + 1].0
    } else {
        x1
    };
    if index >= 1 {
        assert(crate::editable_func::clamp_point_spec(k, s[index - 1]) == s[index - 1]);
        crate::editable_func::lemma_clamp_x_mono(k, s[index - 1].0, x2);
    }
    if index + 1 < s.len() {
        assert(crate::editable_func::clamp_point_spec(k, s[index + 1]) == s[index + 1]);
        crate::editable_func::lemma_clamp_x_mono(k, x2, s[index + 1].0);
    }
    let u = s.update(index, t);
    assert forall|i: int, j: int| 0 <= i < j < u.len() implies (#[trigger] u[i]).0
        <= (#[trigger] u[j]).0 by {
        if i != index && j != index {
            assert(s[i].0 <= s[j].0);
        } else if j == index {
            if index >= 1 {
                assert(s[i].0 <= s[index - 1].0);
            }
        } else {
            if index + 1 < s.len() {
                assert(s[index + 1].0 <= s[j].0);
            }
        }
    }
}

} // verus!
