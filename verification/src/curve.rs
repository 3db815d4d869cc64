//! Shared core of the editable piecewise-linear curves: the exact rational
//! value type, segment search over an x-sorted point list, and line
//! evaluation with overflow bounds.

use vstd::prelude::*;

verus! {

/// Largest magnitude a stored coordinate (or an evaluation position) may
/// have.  Keeping coordinates within this range keeps every intermediate
/// product of the exact rational evaluation well inside `i128`.
pub const COORD_LIMIT: i64 = 1152921504606846976;

/// Fixed-point scale: the stored integer `UNIT` stands for the real value 1.
pub const UNIT: i64 = 1_000_000;

/// Bound on the numerator of any rational produced by line evaluation.
pub const NUM_LIMIT: i128 = 10633823966279326983230456482242756608;

pub open spec fn in_coord(v: int) -> bool {
    -(COORD_LIMIT as int) <= v <= COORD_LIMIT as int
}

pub open spec fn point_in_coord(p: (i64, i64)) -> bool {
    in_coord(p.0 as int) && in_coord(p.1 as int)
}

pub open spec fn points_in_coord(s: Seq<(i64, i64)>) -> bool {
    forall|i: int| 0 <= i < s.len() ==> point_in_coord(#[trigger] s[i])
}

/// The stored points are ordered by non-decreasing x (duplicates allowed).
pub open spec fn x_sorted(s: Seq<(i64, i64)>) -> bool {
    forall|i: int, j: int| 0 <= i < j < s.len() ==> (#[trigger] s[i]).0 <= (#[trigger] s[j]).0
}

/// Mathematical value of a curve at one position: an exact rational, or an
/// infinity standing for the vertical jump at a duplicated x.
pub ghost enum CurveVal {
    Fin { num: int, den: int },
    PosInf,
    NegInf,
}

/// Executable counterpart of `CurveVal`.  `Finite` carries an unreduced
/// fraction with a positive denominator.
#[derive(Clone, Copy, Debug, PartialEq, Eq, Structural)]
pub enum CurveValue {
    Finite { num: i128, den: i128 },
    PosInfinite,
    NegInfinite,
}

impl CurveValue {
    pub open spec fn model(self) -> CurveVal {
        match self {
            CurveValue::Finite { num, den } => CurveVal::Fin { num: num as int, den: den as int },
            CurveValue::PosInfinite => CurveVal::PosInf,
            CurveValue::NegInfinite => CurveVal::NegInf,
        }
    }
}

/// Denominator positive and both parts small enough for further arithmetic.
pub open spec fn cv_bounded(v: CurveValue) -> bool {
    v matches CurveValue::Finite { num, den } ==> {
        &&& 0 < den <= 2 * (COORD_LIMIT as i128)
        &&& -NUM_LIMIT <= num <= NUM_LIMIT
    }
}

/// The value at `x` of the line through `p0` and `p1`; a vertical line
/// yields an infinity whose sign follows the implied step.
pub open spec fn line_val(p0: (i64, i64), p1: (i64, i64), x: int) -> CurveVal {
    if p0.0 == p1.0 {
        if (p1.1 - p0.1) * (x - p0.0) > 0 {
            CurveVal::PosInf
        } else {
            CurveVal::NegInf
        }
    } else {
        CurveVal::Fin {
            num: p0.1 * (p1.0 - p0.0) + (p1.1 - p0.1) * (x - p0.0),
            den: p1.0 - p0.0,
        }
    }
}

/// The constant value of a single-point curve.
pub open spec fn flat_val(y: i64) -> CurveVal {
    CurveVal::Fin { num: y as int, den: 1 }
}

/// Index of the segment containing `x`, scanning windows from position `i`:
/// the first `j >= i` with `s[j].0 <= x < s[j + 1].0` gives `j + 1`; if no
/// window matches the result is `s.len()`.
pub open spec fn seg_index_from(s: Seq<(i64, i64)>, x: int, i: int) -> int
    decreases s.len() - i,
{
    if i < 0 || i + 1 >= s.len() {
        s.len() as int
    } else if s[i].0 <= x && x < s[i + 1].0 {
        i + 1
    } else {
        seg_index_from(s, x, i + 1)
    }
}

/// Segment index used by evaluation and sorted insertion: 0 when `x` lies
/// before the first point, otherwise the first matching window, otherwise
/// `s.len()`.
pub open spec fn seg_index(s: Seq<(i64, i64)>, x: int) -> int {
    if s.len() == 0 {
        0
    } else if x < s[0].0 {
        0
    } else {
        seg_index_from(s, x, 0)
    }
}

pub proof fn lemma_seg_index_from_bounds(s: Seq<(i64, i64)>, x: int, i: int)
    requires
        0 <= i <= s.len(),
    ensures
        0 <= seg_index_from(s, x, i) <= s.len(),
        seg_index_from(s, x, i) == s.len() || i < seg_index_from(s, x, i),
    decreases s.len() - i,
{
    if i + 1 >= s.len() {
    } else if s[i].0 <= x && x < s[i + 1].0 {
    } else {
        lemma_seg_index_from_bounds(s, x, i + 1);
    }
}

/// What a result of `seg_index_from` means: an interior result is a
/// matching window and no earlier window (from `i` on) matches; the end
/// result means no window from `i` on matches.
pub proof fn lemma_seg_index_from_match(s: Seq<(i64, i64)>, x: int, i: int)
    requires
        0 <= i <= s.len(),
    ensures
        ({
            let r = seg_index_from(s, x, i);
            &&& (i < r < s.len() ==> s[r - 1].0 <= x && x < s[r].0)
            &&& (r == s.len() ==> forall|j: int|
                i <= j < s.len() - 1 ==> !((#[trigger] s[j]).0 <= x && x < s[j + 1].0))
        }),
    decreases s.len() - i,
{
    if i + 1 >= s.len() {
    } else if s[i].0 <= x && x < s[i + 1].0 {
    } else {
        lemma_seg_index_from_bounds(s, x, i + 1);
        lemma_seg_index_from_match(s, x, i + 1);
    }
}

/// On a sorted list whose head is at or before `x`, "no window matches"
/// means every x-coordinate is at or before `x`.
pub proof fn lemma_no_match_all_le(s: Seq<(i64, i64)>, x: int)
    requires
        s.len() >= 1,
        x_sorted(s),
        s[0].0 <= x,
        forall|j: int| 0 <= j < s.len() - 1 ==> !((#[trigger] s[j]).0 <= x && x < s[j + 1].0),
    ensures
        forall|j: int| 0 <= j < s.len() ==> (#[trigger] s[j]).0 <= x,
{
    assert forall|j: int| 0 <= j < s.len() implies (#[trigger] s[j]).0 <= x by {
        lemma_prefix_le(s, x, j);
    }
}

proof fn lemma_prefix_le(s: Seq<(i64, i64)>, x: int, j: int)
    requires
        s.len() >= 1,
        s[0].0 <= x,
        forall|k: int| 0 <= k < s.len() - 1 ==> !((#[trigger] s[k]).0 <= x && x < s[k + 1].0),
        0 <= j < s.len(),
    ensures
        s[j].0 <= x,
    decreases j,
{
    if j > 0 {
        lemma_prefix_le(s, x, j - 1);
        assert(!(s[j - 1].0 <= x && x < s[j].0));
    }
}

/// Summary of `seg_index` on a sorted non-empty list, in the form sorted
/// insertion and evaluation need.
pub proof fn lemma_seg_index_facts(s: Seq<(i64, i64)>, x: int)
    requires
        s.len() >= 1,
        x_sorted(s),
    ensures
        ({
            let r = seg_index(s, x);
            &&& 0 <= r <= s.len()
            &&& (r == 0 ==> x < s[0].0)
            &&& (0 < r < s.len() ==> s[r - 1].0 <= x && x < s[r].0)
            &&& (forall|j: int| 0 <= j < r ==> (#[trigger] s[j]).0 <= x)
            &&& (forall|j: int| r <= j < s.len() ==> x <= (#[trigger] s[j]).0)
            &&& (r == s.len() ==> forall|j: int| 0 <= j < s.len() ==> (#[trigger] s[j]).0 <= x)
        }),
{
    let r = seg_index(s, x);
    if x < s[0].0 {
        assert(r == 0);
    } else {
        lemma_seg_index_from_bounds(s, x, 0);
        lemma_seg_index_from_match(s, x, 0);
        if r == s.len() {
            lemma_no_match_all_le(s, x);
        } else {
            assert(s[r - 1].0 <= x && x < s[r].0);
            assert forall|j: int| 0 <= j < r implies (#[trigger] s[j]).0 <= x by {
                if j < r - 1 {
                    assert(s[j].0 <= s[r - 1].0);
                }
            }
            assert forall|j: int| r <= j < s.len() implies x <= (#[trigger] s[j]).0 by {
                if j > r {
                    assert(s[r].0 <= s[j].0);
                }
            }
        }
    }
}

/// Inserting a point at its segment index keeps the list sorted.
pub proof fn lemma_insert_sorted(s: Seq<(i64, i64)>, p: (i64, i64))
    requires
        s.len() >= 1,
        x_sorted(s),
    ensures
        x_sorted(s.insert(seg_index(s, p.0 as int), p)),
{
    let x = p.0 as int;
    let r = seg_index(s, x);
    lemma_seg_index_facts(s, x);
    let t = s.insert(r, p);
    assert forall|i: int, j: int| 0 <= i < j < t.len() implies (#[trigger] t[i]).0
        <= (#[trigger] t[j]).0 by {
        if i < r && j < r {
            assert(t[i] == s[i] && t[j] == s[j]);
        } else if i < r && j == r {
            assert(t[i] == s[i]);
        } else if i < r && j > r {
            assert(t[i] == s[i] && t[j] == s[j - 1]);
            if j - 1 == i {
                assert(s[i].0 <= x && x <= s[i].0);
            }
        } else if i == r && j > r {
            assert(t[j] == s[j - 1]);
        } else if i > r && j > r {
            assert(t[i] == s[i - 1] && t[j] == s[j - 1]);
        }
    }
}

/// Finds the segment index of `x` by a linear window scan, as
/// `seg_index` describes.
pub fn find_segment(points: &Vec<(i64, i64)>, x: i64) -> (r: usize)
    requires
        points@.len() >= 1,
    ensures
        r == seg_index(points@, x as int),
{
    let ghost s = points@;
    if x < points[0].0 {
        return 0;
    }
    let n = points.len();
    let mut i: usize = 0;
    while i < n - 1
        invariant
            points@ == s,
            n == s.len(),
            n >= 1,
            0 <= i <= s.len(),
            s[0].0 <= x,
            seg_index_from(s, x as int, 0) == seg_index_from(s, x as int, i as int),
        decreases n - i,
    {
        if points[i].0 <= x && x < points[i + 1].0 {
            assert(seg_index_from(s, x as int, i as int) == i + 1);
            return i + 1;
        }
        assert(seg_index_from(s, x as int, i as int) == seg_index_from(s, x as int, i + 1));
        i += 1;
    }
    assert(seg_index_from(s, x as int, i as int) == s.len());
    n
}

/// Product magnitude bound used by the overflow proofs.
pub proof fn lemma_mul_abs_bound(a: int, b: int, aa: int, bb: int)
    by (nonlinear_arith)
    requires
        -aa <= a <= aa,
        -bb <= b <= bb,
        0 <= aa,
        0 <= bb,
    ensures
        -(aa * bb) <= a * b <= aa * bb,
{
}

/// Evaluates the line through `p0` and `p1` at `x` as an exact rational;
/// for a vertical pair the matching signed infinity.
pub fn line_value(p0: (i64, i64), p1: (i64, i64), x: i64) -> (r: CurveValue)
    requires
        point_in_coord(p0),
        point_in_coord(p1),
        in_coord(x as int),
        p0.0 <= p1.0,
    ensures
        r.model() == line_val(p0, p1, x as int),
        cv_bounded(r),
{
    let x0 = p0.0 as i128;
    let y0 = p0.1 as i128;
    let x1 = p1.0 as i128;
    let y1 = p1.1 as i128;
    let xq = x as i128;
    if p0.0 == p1.0 {
        proof {
            lemma_mul_abs_bound(y1 as int - y0 as int, xq as int - x0 as int, 2 * (COORD_LIMIT
                as int), 2 * (COORD_LIMIT as int));
        }
        if (y1 - y0) * (xq - x0) > 0 {
            CurveValue::PosInfinite
        } else {
            CurveValue::NegInfinite
        }
    } else {
        proof {
            lemma_mul_abs_bound(y0 as int, x1 as int - x0 as int, COORD_LIMIT as int, 2 * (
            COORD_LIMIT as int));
            lemma_mul_abs_bound(y1 as int - y0 as int, xq as int - x0 as int, 2 * (COORD_LIMIT
                as int), 2 * (COORD_LIMIT as int));
        }
        CurveValue::Finite { num: y0 * (x1 - x0) + (y1 - y0) * (xq - x0), den: x1 - x0 }
    }
}

/// Truncating division (the quotient is rounded toward zero), the rounding
/// used when an exact rational value is stored back as a coordinate.
pub open spec fn div_trunc(a: int, b: int) -> int {
    if a >= 0 {
        a / b
    } else {
        -((-a) / b)
    }
}

/// Caps a curve value at `m` from above, as the float `min` does: a finite
/// value above `m` (and the positive infinity) becomes exactly `m`.
pub open spec fn cap_val(v: CurveVal, m: int) -> CurveVal {
    match v {
        CurveVal::Fin { num, den } => if num > m * den {
            CurveVal::Fin { num: m, den: 1 }
        } else {
            v
        },
        CurveVal::PosInf => CurveVal::Fin { num: m, den: 1 },
        CurveVal::NegInf => v,
    }
}

/// Raises a curve value to at least `m`, as the float `max` does.
pub open spec fn floor_val(v: CurveVal, m: int) -> CurveVal {
    match v {
        CurveVal::Fin { num, den } => if num < m * den {
            CurveVal::Fin { num: m, den: 1 }
        } else {
            v
        },
        CurveVal::PosInf => v,
        CurveVal::NegInf => CurveVal::Fin { num: m, den: 1 },
    }
}

/// Executable counterpart of `cap_val`.
pub fn cap_value(v: CurveValue, m: i64) -> (r: CurveValue)
    requires
        cv_bounded(v),
        in_coord(m as int),
    ensures
        r.model() == cap_val(v.model(), m as int),
        cv_bounded(r),
{
    match v {
        CurveValue::Finite { num, den } => {
            proof {
                lemma_mul_abs_bound(m as int, den as int, COORD_LIMIT as int, 2 * (COORD_LIMIT
                    as int));
            }
            if num > (m as i128) * den {
                CurveValue::Finite { num: m as i128, den: 1 }
            } else {
                v
            }
        },
        CurveValue::PosInfinite => CurveValue::Finite { num: m as i128, den: 1 },
        CurveValue::NegInfinite => v,
    }
}

/// Executable counterpart of `floor_val`.
pub fn floor_value(v: CurveValue, m: i64) -> (r: CurveValue)
    requires
        cv_bounded(v),
        in_coord(m as int),
    ensures
        r.model() == floor_val(v.model(), m as int),
        cv_bounded(r),
{
    match v {
        CurveValue::Finite { num, den } => {
            proof {
                lemma_mul_abs_bound(m as int, den as int, COORD_LIMIT as int, 2 * (COORD_LIMIT
                    as int));
            }
            if num < (m as i128) * den {
                CurveValue::Finite { num: m as i128, den: 1 }
            } else {
                v
            }
        },
        CurveValue::PosInfinite => v,
        CurveValue::NegInfinite => CurveValue::Finite { num: m as i128, den: 1 },
    }
}

/// Division by a positive number keeps a non-negative value between zero
/// and the dividend.
pub proof fn lemma_div_le(a: int, b: int)
    by (nonlinear_arith)
    requires
        0 <= a,
        1 <= b,
    ensures
        0 <= a / b <= a,
{
}

/// Rounds a finite curve value to an integer coordinate, toward zero.
pub fn round_value(num: i128, den: i128) -> (r: i128)
    requires
        0 < den,
        -NUM_LIMIT <= num <= NUM_LIMIT,
    ensures
        r == div_trunc(num as int, den as int),
{
    if num >= 0 {
        proof {
            lemma_div_le(num as int, den as int);
        }
        let q = (num as u128) / (den as u128);
        q as i128
    } else {
        proof {
            lemma_div_le(-num as int, den as int);
        }
        let q = ((-num) as u128) / (den as u128);
        -(q as i128)
    }
}

} // verus!
