//! Restricted curve variants built over `EditableFunc` by injecting a
//! clamp policy into every point-producing operation: one keeps volume
//! curves inside the unit band, the other keeps pitch curves non-negative.

use crate::curve::CurveValue;
use crate::curve::cv_bounded;
use crate::curve::div_trunc;
use crate::curve::in_coord;
use crate::curve::point_in_coord;
use crate::curve::seg_index;
use crate::editable_func::ClampPolicy;
use crate::editable_func::EditableFunc;
use crate::editable_func::EditableFuncMode;
use crate::editable_func::by_index_x;
use crate::editable_func::clamp_point_spec;
use crate::editable_func::move_target;
use crate::editable_func::points_in_region;
use crate::editable_func::splittable;
use crate::editable_func::value_at_spec;
use crate::expression::expr_parses;
use vstd::prelude::*;

verus! {

/// A policy clamp maps into its own region.
pub proof fn lemma_clamp_point_idem(k: ClampPolicy, p: (i64, i64))
    ensures
        clamp_point_spec(k, clamp_point_spec(k, p)) == clamp_point_spec(k, p),
{
}

/// Inserting a clamp-fixed point keeps the whole list clamp-fixed.
pub proof fn lemma_region_insert(s: Seq<(i64, i64)>, i: int, p: (i64, i64), k: ClampPolicy)
    requires
        points_in_region(s, k),
        clamp_point_spec(k, p) == p,
        0 <= i <= s.len(),
    ensures
        points_in_region(s.insert(i, p), k),
{
    let t = s.insert(i, p);
    assert forall|j: int| 0 <= j < t.len() implies clamp_point_spec(k, #[trigger] t[j]) == t[j] by {
        if j < i {
            assert(t[j] == s[j]);
        } else if j > i {
            assert(t[j] == s[j - 1]);
        }
    }
}

/// Removing a point keeps the list clamp-fixed.
pub proof fn lemma_region_remove(s: Seq<(i64, i64)>, i: int, k: ClampPolicy)
    requires
        points_in_region(s, k),
        0 <= i < s.len(),
    ensures
        points_in_region(s.remove(i), k),
{
    let t = s.remove(i);
    assert forall|j: int| 0 <= j < t.len() implies clamp_point_spec(k, #[trigger] t[j]) == t[j] by {
        if j < i {
            assert(t[j] == s[j]);
        } else {
            assert(t[j] == s[j + 1]);
        }
    }
}

/// A curve whose points are kept at x at least 0 and y within `[0, UNIT]`:
/// the form volume curves take.
pub struct EditableZeroOneFunc {
    inner: EditableFunc,
}

impl EditableZeroOneFunc {
    pub closed spec fn inner_spec(&self) -> EditableFunc {
        self.inner
    }

    pub open spec fn points_seq(&self) -> Seq<(i64, i64)> {
        self.inner_spec().points_seq()
    }

    pub(crate) fn inner_ref(&self) -> (r: &EditableFunc)
        ensures
            *r == self.inner_spec(),
    {
        &self.inner
    }


    pub open spec fn mode_spec(&self) -> EditableFuncMode {
        self.inner_spec().mode_spec()
    }

    pub open spec fn wf(&self) -> bool {
        &&& self.inner_spec().wf()
        &&& points_in_region(self.points_seq(), ClampPolicy::ZeroOne)
    }

    pub fn new(inner: EditableFunc) -> (r: Self)
        requires
            inner.wf(),
            points_in_region(inner.points_seq(), ClampPolicy::ZeroOne),
        ensures
            r.wf(),
            r.inner_spec() == inner,
    {
        EditableZeroOneFunc { inner }
    }

    pub fn mode(&self) -> (r: &EditableFuncMode)
        ensures
            *r == self.mode_spec(),
    {
        self.inner.mode()
    }

    pub fn mode_mut(&mut self) -> (r: &mut EditableFuncMode)
        ensures
            *r == old(self).mode_spec(),
            final(self).mode_spec() == *final(r),
            final(self).points_seq() == old(self).points_seq(),
            final(self).inner_spec().expr_text() == old(self).inner_spec().expr_text(),
            final(self).inner_spec().cache() == old(self).inner_spec().cache(),
            old(self).wf() ==> final(self).wf(),
    {
        self.inner.mode_mut()
    }

    pub fn points(&self) -> (r: Option<&Vec<(i64, i64)>>)
        ensures
            r matches Some(v) && v@ == self.points_seq(),
    {
        self.inner.points()
    }

    pub fn value_at(&self, x: i64) -> (r: CurveValue)
        requires
            self.wf(),
            self.mode_spec() is Points,
            in_coord(x as int),
        ensures
            r.model() == value_at_spec(self.points_seq(), ClampPolicy::ZeroOne, x as int),
            cv_bounded(r),
    {
        self.inner.value_at_clamped(x, ClampPolicy::ZeroOne)
    }

    pub fn checked_value_at(&self, x: i64) -> (r: Option<CurveValue>)
        requires
            self.wf(),
            self.mode_spec() is Points,
            in_coord(x as int),
        ensures
            r is Some <==> value_at_spec(self.points_seq(), ClampPolicy::ZeroOne, x as int)
                is Fin,
            r matches Some(v) ==> v.model() == value_at_spec(
                self.points_seq(),
                ClampPolicy::ZeroOne,
                x as int,
            ),
    {
        self.inner.checked_value_at_clamped(x, ClampPolicy::ZeroOne)
    }

    pub fn insert_point(&mut self, pos: (i64, i64)) -> (r: (usize, (i64, i64)))
        requires
            old(self).wf(),
            point_in_coord(pos),
        ensures
            ({
                let cp = clamp_point_spec(ClampPolicy::ZeroOne, pos);
                let idx = seg_index(old(self).points_seq(), cp.0 as int);
                &&& r.1 == cp
                &&& r.0 as int == idx
                &&& final(self).points_seq() == old(self).points_seq().insert(idx, cp)
                &&& final(self).wf()
            }),
    {
        let r = self.inner.insert_point_clamped(pos, ClampPolicy::ZeroOne);
        proof {
            lemma_clamp_point_idem(ClampPolicy::ZeroOne, pos);
            crate::curve::lemma_seg_index_facts(
                old(self).points_seq(),
                clamp_point_spec(ClampPolicy::ZeroOne, pos).0 as int,
            );
            lemma_region_insert(
                old(self).points_seq(),
                seg_index(
                    old(self).points_seq(),
                    clamp_point_spec(ClampPolicy::ZeroOne, pos).0 as int,
                ),
                clamp_point_spec(ClampPolicy::ZeroOne, pos),
                ClampPolicy::ZeroOne,
            );
        }
        r
    }

    pub fn insert_point_by_index(&mut self, index: usize) -> (r: (usize, (i64, i64)))
        requires
            old(self).wf(),
            old(self).mode_spec() is Points,
            in_coord(by_index_x(old(self).points_seq(), index as int)),
            splittable(
                old(self).points_seq(),
                ClampPolicy::ZeroOne,
                by_index_x(old(self).points_seq(), index as int),
            ),
        ensures
            ({
                let x = by_index_x(old(self).points_seq(), index as int);
                let v = value_at_spec(old(self).points_seq(), ClampPolicy::ZeroOne, x);
                let y = div_trunc(v->Fin_num, v->Fin_den);
                let cp = clamp_point_spec(ClampPolicy::ZeroOne, (x as i64, y as i64));
                let idx = seg_index(old(self).points_seq(), cp.0 as int);
                &&& r.1 == cp
                &&& r.0 as int == idx
                &&& final(self).points_seq() == old(self).points_seq().insert(idx, cp)
                &&& final(self).wf()
            }),
    {
        let ghost s = old(self).points_seq();
        let r = self.inner.insert_point_by_index_clamped(index, ClampPolicy::ZeroOne);
        proof {
            let x = by_index_x(s, index as int);
            let v = value_at_spec(s, ClampPolicy::ZeroOne, x);
            let y = div_trunc(v->Fin_num, v->Fin_den);
            let cp = clamp_point_spec(ClampPolicy::ZeroOne, (x as i64, y as i64));
            lemma_clamp_point_idem(ClampPolicy::ZeroOne, (x as i64, y as i64));
            crate::curve::lemma_seg_index_facts(s, cp.0 as int);
            lemma_region_insert(s, seg_index(s, cp.0 as int), cp, ClampPolicy::ZeroOne);
        }
        r
    }

    pub fn split_segment(&mut self, x: i64) -> (r: (usize, (i64, i64)))
        requires
            old(self).wf(),
            old(self).mode_spec() is Points,
            in_coord(x as int),
            splittable(old(self).points_seq(), ClampPolicy::ZeroOne, x as int),
        ensures
            ({
                let v = value_at_spec(old(self).points_seq(), ClampPolicy::ZeroOne, x as int);
                let y = div_trunc(v->Fin_num, v->Fin_den);
                let cp = clamp_point_spec(ClampPolicy::ZeroOne, (x, y as i64));
                let idx = seg_index(old(self).points_seq(), cp.0 as int);
                &&& r.1 == cp
                &&& r.0 as int == idx
                &&& final(self).points_seq() == old(self).points_seq().insert(idx, cp)
                &&& final(self).wf()
            }),
    {
        let ghost s = old(self).points_seq();
        let r = self.inner.split_segment_clamped(x, ClampPolicy::ZeroOne);
        proof {
            let v = value_at_spec(s, ClampPolicy::ZeroOne, x as int);
            let y = div_trunc(v->Fin_num, v->Fin_den);
            let cp = clamp_point_spec(ClampPolicy::ZeroOne, (x, y as i64));
            lemma_clamp_point_idem(ClampPolicy::ZeroOne, (x, y as i64));
            crate::curve::lemma_seg_index_facts(s, cp.0 as int);
            lemma_region_insert(s, seg_index(s, cp.0 as int), cp, ClampPolicy::ZeroOne);
        }
        r
    }

    pub fn move_point_to(&mut self, index: usize, pos: (i64, i64)) -> (r: Option<(i64, i64)>)
        requires
            old(self).wf(),
            point_in_coord(pos),
        ensures
            ({
                let s = old(self).points_seq();
                let t = move_target(s, index as int, pos, ClampPolicy::ZeroOne);
                &&& (index < s.len() ==> r == Some(t) && final(self).points_seq() == s.update(
                    index as int,
                    t,
                ))
                &&& (index >= s.len() ==> r is None && final(self).points_seq() == s)
                &&& final(self).wf()
            }),
    {
        self.inner.move_point_to_clamped(index, pos, ClampPolicy::ZeroOne)
    }

    pub fn remove_point(&mut self, index: usize) -> (r: Option<(i64, i64)>)
        requires
            old(self).wf(),
            old(self).points_seq().len() >= 2 ==> index < old(self).points_seq().len(),
        ensures
            ({
                let s = old(self).points_seq();
                &&& (s.len() >= 2 ==> r == Some(s[index as int]) && final(self).points_seq()
                    == s.remove(index as int))
                &&& (s.len() < 2 ==> r is None && final(self).points_seq() == s)
                &&& final(self).points_seq().len() >= 1
                &&& final(self).wf()
            }),
    {
        let ghost s = old(self).points_seq();
        let r = self.inner.remove_point(index);
        proof {
            if s.len() >= 2 {
                lemma_region_remove(s, index as int, ClampPolicy::ZeroOne);
            }
        }
        r
    }

    pub fn expression_mut(&mut self) -> (r: &mut String)
        ensures
            (*r)@ == old(self).inner_spec().expr_text(),
            final(self).inner_spec().expr_text() == (*final(r))@,
            final(self).points_seq() == old(self).points_seq(),
            final(self).mode_spec() == old(self).mode_spec(),
            final(self).inner_spec().cache() == old(self).inner_spec().cache(),
            old(self).wf() ==> final(self).wf(),
    {
        self.inner.expression_mut()
    }

    pub fn expression_err(&self) -> (r: Option<&meval::Error>)
        ensures
            r is Some <==> self.inner_spec().has_parse_error(),
    {
        self.inner.expression_err()
    }

    pub fn update_expression(&mut self)
        ensures
            final(self).points_seq() == old(self).points_seq(),
            final(self).mode_spec() == old(self).mode_spec(),
            final(self).inner_spec().expr_text() == old(self).inner_spec().expr_text(),
            old(self).wf() ==> final(self).wf(),
            old(self).inner_spec().needs_reparse() && old(self).inner_spec().expr_text().len() > 0
                ==> final(self).inner_spec().cache() == Some(
                (expr_parses(old(self).inner_spec().expr_text()), old(self).inner_spec().expr_text()),
            ),
    {
        self.inner.update_expression()
    }
}

impl Clone for EditableZeroOneFunc {
    /// The copy keeps the points, mode, text, and cached parse status.
    fn clone(&self) -> (r: Self)
        ensures
            r.mode_spec() == self.mode_spec(),
            r.points_seq() == self.points_seq(),
            r.inner_spec().expr_text() == self.inner_spec().expr_text(),
            r.inner_spec().cache() == self.inner_spec().cache(),
            self.wf() ==> r.wf(),
    {
        EditableZeroOneFunc { inner: self.inner.clone() }
    }
}

/// A curve whose points are kept in the non-negative quadrant: the form
/// pitch and performance curves take.
pub struct EditablePositiveFunc {
    inner: EditableFunc,
}

impl EditablePositiveFunc {
    pub closed spec fn inner_spec(&self) -> EditableFunc {
        self.inner
    }

    pub open spec fn points_seq(&self) -> Seq<(i64, i64)> {
        self.inner_spec().points_seq()
    }

    pub(crate) fn inner_ref(&self) -> (r: &EditableFunc)
        ensures
            *r == self.inner_spec(),
    {
        &self.inner
    }


    pub open spec fn mode_spec(&self) -> EditableFuncMode {
        self.inner_spec().mode_spec()
    }

    pub open spec fn wf(&self) -> bool {
        &&& self.inner_spec().wf()
        &&& points_in_region(self.points_seq(), ClampPolicy::Positive)
    }

    pub fn new(inner: EditableFunc) -> (r: Self)
        requires
            inner.wf(),
            points_in_region(inner.points_seq(), ClampPolicy::Positive),
        ensures
            r.wf(),
            r.inner_spec() == inner,
    {
        EditablePositiveFunc { inner }
    }

    pub fn mode(&self) -> (r: &EditableFuncMode)
        ensures
            *r == self.mode_spec(),
    {
        self.inner.mode()
    }

    pub fn mode_mut(&mut self) -> (r: &mut EditableFuncMode)
        ensures
            *r == old(self).mode_spec(),
            final(self).mode_spec() == *final(r),
            final(self).points_seq() == old(self).points_seq(),
            final(self).inner_spec().expr_text() == old(self).inner_spec().expr_text(),
            final(self).inner_spec().cache() == old(self).inner_spec().cache(),
            old(self).wf() ==> final(self).wf(),
    {
        self.inner.mode_mut()
    }

    pub fn points(&self) -> (r: Option<&Vec<(i64, i64)>>)
        ensures
            r matches Some(v) && v@ == self.points_seq(),
    {
        self.inner.points()
    }

    pub fn value_at(&self, x: i64) -> (r: CurveValue)
        requires
            self.wf(),
            self.mode_spec() is Points,
            in_coord(x as int),
        ensures
            r.model() == value_at_spec(self.points_seq(), ClampPolicy::Positive, x as int),
            cv_bounded(r),
    {
        self.inner.value_at_clamped(x, ClampPolicy::Positive)
    }

    pub fn checked_value_at(&self, x: i64) -> (r: Option<CurveValue>)
        requires
            self.wf(),
            self.mode_spec() is Points,
            in_coord(x as int),
        ensures
            r is Some <==> value_at_spec(self.points_seq(), ClampPolicy::Positive, x as int)
                is Fin,
            r matches Some(v) ==> v.model() == value_at_spec(
                self.points_seq(),
                ClampPolicy::Positive,
                x as int,
            ),
    {
        self.inner.checked_value_at_clamped(x, ClampPolicy::Positive)
    }

    pub fn insert_point(&mut self, pos: (i64, i64)) -> (r: (usize, (i64, i64)))
        requires
            old(self).wf(),
            point_in_coord(pos),
        ensures
            ({
                let cp = clamp_point_spec(ClampPolicy::Positive, pos);
                let idx = seg_index(old(self).points_seq(), cp.0 as int);
                &&& r.1 == cp
                &&& r.0 as int == idx
                &&& final(self).points_seq() == old(self).points_seq().insert(idx, cp)
                &&& final(self).wf()
            }),
    {
        let r = self.inner.insert_point_clamped(pos, ClampPolicy::Positive);
        proof {
            lemma_clamp_point_idem(ClampPolicy::Positive, pos);
            crate::curve::lemma_seg_index_facts(
                old(self).points_seq(),
                clamp_point_spec(ClampPolicy::Positive, pos).0 as int,
            );
            lemma_region_insert(
                old(self).points_seq(),
                seg_index(
                    old(self).points_seq(),
                    clamp_point_spec(ClampPolicy::Positive, pos).0 as int,
                ),
                clamp_point_spec(ClampPolicy::Positive, pos),
                ClampPolicy::Positive,
            );
        }
        r
    }

    pub fn insert_point_by_index(&mut self, index: usize) -> (r: (usize, (i64, i64)))
        requires
            old(self).wf(),
            old(self).mode_spec() is Points,
            in_coord(by_index_x(old(self).points_seq(), index as int)),
            splittable(
                old(self).points_seq(),
                ClampPolicy::Positive,
                by_index_x(old(self).points_seq(), index as int),
            ),
        ensures
            ({
                let x = by_index_x(old(self).points_seq(), index as int);
                let v = value_at_spec(old(self).points_seq(), ClampPolicy::Positive, x);
                let y = div_trunc(v->Fin_num, v->Fin_den);
                let cp = clamp_point_spec(ClampPolicy::Positive, (x as i64, y as i64));
                let idx = seg_index(old(self).points_seq(), cp.0 as int);
                &&& r.1 == cp
                &&& r.0 as int == idx
                &&& final(self).points_seq() == old(self).points_seq().insert(idx, cp)
                &&& final(self).wf()
            }),
    {
        let ghost s = old(self).points_seq();
        let r = self.inner.insert_point_by_index_clamped(index, ClampPolicy::Positive);
        proof {
            let x = by_index_x(s, index as int);
            let v = value_at_spec(s, ClampPolicy::Positive, x);
            let y = div_trunc(v->Fin_num, v->Fin_den);
            let cp = clamp_point_spec(ClampPolicy::Positive, (x as i64, y as i64));
            lemma_clamp_point_idem(ClampPolicy::Positive, (x as i64, y as i64));
            crate::curve::lemma_seg_index_facts(s, cp.0 as int);
            lemma_region_insert(s, seg_index(s, cp.0 as int), cp, ClampPolicy::Positive);
        }
        r
    }

    pub fn split_segment(&mut self, x: i64) -> (r: (usize, (i64, i64)))
        requires
            old(self).wf(),
            old(self).mode_spec() is Points,
            in_coord(x as int),
            splittable(old(self).points_seq(), ClampPolicy::Positive, x as int),
        ensures
            ({
                let v = value_at_spec(old(self).points_seq(), ClampPolicy::Positive, x as int);
                let y = div_trunc(v->Fin_num, v->Fin_den);
                let cp = clamp_point_spec(ClampPolicy::Positive, (x, y as i64));
                let idx = seg_index(old(self).points_seq(), cp.0 as int);
                &&& r.1 == cp
                &&& r.0 as int == idx
                &&& final(self).points_seq() == old(self).points_seq().insert(idx, cp)
                &&& final(self).wf()
            }),
    {
        let ghost s = old(self).points_seq();
        let r = self.inner.split_segment_clamped(x, ClampPolicy::Positive);
        proof {
            let v = value_at_spec(s, ClampPolicy::Positive, x as int);
            let y = div_trunc(v->Fin_num, v->Fin_den);
            let cp = clamp_point_spec(ClampPolicy::Positive, (x, y as i64));
            lemma_clamp_point_idem(ClampPolicy::Positive, (x, y as i64));
            crate::curve::lemma_seg_index_facts(s, cp.0 as int);
            lemma_region_insert(s, seg_index(s, cp.0 as int), cp, ClampPolicy::Positive);
        }
        r
    }

    pub fn move_point_to(&mut self, index: usize, pos: (i64, i64)) -> (r: Option<(i64, i64)>)
        requires
            old(self).wf(),
            point_in_coord(pos),
        ensures
            ({
                let s = old(self).points_seq();
                let t = move_target(s, index as int, pos, ClampPolicy::Positive);
                &&& (index < s.len() ==> r == Some(t) && final(self).points_seq() == s.update(
                    index as int,
                    t,
                ))
                &&& (index >= s.len() ==> r is None && final(self).points_seq() == s)
                &&& final(self).wf()
            }),
    {
        self.inner.move_point_to_clamped(index, pos, ClampPolicy::Positive)
    }

    pub fn remove_point(&mut self, index: usize) -> (r: Option<(i64, i64)>)
        requires
            old(self).wf(),
            old(self).points_seq().len() >= 2 ==> index < old(self).points_seq().len(),
        ensures
            ({
                let s = old(self).points_seq();
                &&& (s.len() >= 2 ==> r == Some(s[index as int]) && final(self).points_seq()
                    == s.remove(index as int))
                &&& (s.len() < 2 ==> r is None && final(self).points_seq() == s)
                &&& final(self).points_seq().len() >= 1
                &&& final(self).wf()
            }),
    {
        let ghost s = old(self).points_seq();
        let r = self.inner.remove_point(index);
        proof {
            if s.len() >= 2 {
                lemma_region_remove(s, index as int, ClampPolicy::Positive);
            }
        }
        r
    }

    pub fn expression_mut(&mut self) -> (r: &mut String)
        ensures
            (*r)@ == old(self).inner_spec().expr_text(),
            final(self).inner_spec().expr_text() == (*final(r))@,
            final(self).points_seq() == old(self).points_seq(),
            final(self).mode_spec() == old(self).mode_spec(),
            final(self).inner_spec().cache() == old(self).inner_spec().cache(),
            old(self).wf() ==> final(self).wf(),
    {
        self.inner.expression_mut()
    }

    pub fn expression_err(&self) -> (r: Option<&meval::Error>)
        ensures
            r is Some <==> self.inner_spec().has_parse_error(),
    {
        self.inner.expression_err()
    }

    pub fn update_expression(&mut self)
        ensures
            final(self).points_seq() == old(self).points_seq(),
            final(self).mode_spec() == old(self).mode_spec(),
            final(self).inner_spec().expr_text() == old(self).inner_spec().expr_text(),
            old(self).wf() ==> final(self).wf(),
            old(self).inner_spec().needs_reparse() && old(self).inner_spec().expr_text().len() > 0
                ==> final(self).inner_spec().cache() == Some(
                (expr_parses(old(self).inner_spec().expr_text()), old(self).inner_spec().expr_text()),
            ),
    {
        self.inner.update_expression()
    }
}

impl Clone for EditablePositiveFunc {
    /// The copy keeps the points, mode, text, and cached parse status.
    fn clone(&self) -> (r: Self)
        ensures
            r.mode_spec() == self.mode_spec(),
            r.points_seq() == self.points_seq(),
            r.inner_spec().expr_text() == self.inner_spec().expr_text(),
            r.inner_spec().cache() == self.inner_spec().cache(),
            self.wf() ==> r.wf(),
    {
        EditablePositiveFunc { inner: self.inner.clone() }
    }
}

} // verus!
