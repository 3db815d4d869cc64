//! The plain persisted form of curves and entries, and the verified
//! conversions to and from it.  Writing this form out (as JSON in a
//! project archive) and reading it back is the caller's; restoring
//! validates every invariant and fails exactly on data that breaks one.

use crate::audio_entry::AudioEntry;
use crate::audio_entry::AudioFunctionMode;
use crate::audio_entry::AudioFunctions;
use crate::curve::points_in_coord;
use crate::curve::x_sorted;
use crate::editable_func::ClampPolicy;
use crate::editable_func::EditableFunc;
use crate::editable_func::EditableFuncMode;
use crate::editable_func::clamp_point;
use crate::editable_func::clamp_point_spec;
use crate::editable_func::points_in_region;
use crate::wrappers::EditablePositiveFunc;
use crate::wrappers::EditableZeroOneFunc;
use vstd::prelude::*;

verus! {

#[derive(Debug, Clone, Copy, PartialEq, Eq, Structural)]
pub enum SavedError {
    Empty,
    Unsorted,
    OutOfRange,
    OutOfRegion,
}

/// The persisted form of one curve.
pub struct SavedFunction {
    pub mode: EditableFuncMode,
    pub points: Vec<(i64, i64)>,
    pub expression: String,
}

/// What restoring a saved curve under a clamp policy yields: the first
/// broken invariant, or nothing when it is acceptable.
pub open spec fn fn_check(s: &SavedFunction, k: ClampPolicy) -> Option<SavedError> {
    if s.points@.len() == 0 {
        Some(SavedError::Empty)
    } else if !x_sorted(s.points@) {
        Some(SavedError::Unsorted)
    } else if !points_in_coord(s.points@) {
        Some(SavedError::OutOfRange)
    } else if !points_in_region(s.points@, k) {
        Some(SavedError::OutOfRegion)
    } else {
        None
    }
}

/// Validates a saved point list against a clamp policy, reporting the
/// first broken invariant as `fn_check` describes.
fn check_points(points: &Vec<(i64, i64)>, k: ClampPolicy) -> (r: Option<SavedError>)
    ensures
        match r {
            Some(e) => {
                &&& !(points@.len() >= 1 && x_sorted(points@) && points_in_coord(points@)
                    && points_in_region(points@, k))
                &&& (e == SavedError::Empty <==> points@.len() == 0)
                &&& (e == SavedError::Unsorted <==> points@.len() >= 1 && !x_sorted(points@))
                &&& (e == SavedError::OutOfRange <==> points@.len() >= 1 && x_sorted(points@)
                    && !points_in_coord(points@))
                &&& (e == SavedError::OutOfRegion <==> points@.len() >= 1 && x_sorted(points@)
                    && points_in_coord(points@) && !points_in_region(points@, k))
            },
            None => points@.len() >= 1 && x_sorted(points@) && points_in_coord(points@)
                && points_in_region(points@, k),
        },
{
    let n = points.len();
    if n == 0 {
        return Some(SavedError::Empty);
    }
    for i in 0..n - 1
        invariant
            n == points@.len(),
            n >= 1,
            forall|q: int| 0 <= q < i ==> (#[trigger] points@[q]).0 <= points@[q + 1].0,
    {
        if points[i].0 > points[i + 1].0 {
            return Some(SavedError::Unsorted);
        }
    }
    proof {
        lemma_adjacent_sorted(points@);
    }
    for i in 0..n
        invariant
            n == points@.len(),
            n >= 1,
            x_sorted(points@),
            forall|q: int| 0 <= q < i ==> crate::curve::point_in_coord(#[trigger] points@[q]),
    {
        let p = points[i];
        if p.0 < -crate::curve::COORD_LIMIT || p.0 > crate::curve::COORD_LIMIT || p.1
            < -crate::curve::COORD_LIMIT || p.1 > crate::curve::COORD_LIMIT {
            proof {
                assert(!crate::curve::point_in_coord(points@[i as int]));
                assert(!points_in_coord(points@));
            }
            return Some(SavedError::OutOfRange);
        }
    }
    for i in 0..n
        invariant
            n == points@.len(),
            n >= 1,
            x_sorted(points@),
            points_in_coord(points@),
            forall|q: int|
                0 <= q < i ==> clamp_point_spec(k, #[trigger] points@[q]) == points@[q],
    {
        let p = points[i];
        let q = clamp_point(p, k);
        if q.0 != p.0 || q.1 != p.1 {
            proof {
                assert(clamp_point_spec(k, points@[i as int]) != points@[i as int]);
                assert(!points_in_region(points@, k));
            }
            return Some(SavedError::OutOfRegion);
        }
    }
    None
}

/// Adjacent order on every neighbour pair gives the full order.
proof fn lemma_adjacent_sorted(s: Seq<(i64, i64)>)
    requires
        forall|q: int| 0 <= q < s.len() - 1 ==> (#[trigger] s[q]).0 <= s[q + 1].0,
    ensures
        x_sorted(s),
{
    assert forall|i: int, j: int| 0 <= i < j < s.len() implies (#[trigger] s[i]).0
        <= (#[trigger] s[j]).0 by {
        lemma_adjacent_chain(s, i, j);
    }
}

proof fn lemma_adjacent_chain(s: Seq<(i64, i64)>, i: int, j: int)
    requires
        forall|q: int| 0 <= q < s.len() - 1 ==> (#[trigger] s[q]).0 <= s[q + 1].0,
        0 <= i < j < s.len(),
    ensures
        s[i].0 <= s[j].0,
    decreases j - i,
{
    if j > i + 1 {
        lemma_adjacent_chain(s, i, j - 1);
    }
}

impl EditableFunc {
    /// The persisted form: the cached parse is dropped, as it is derived
    /// state.
    pub fn to_saved(&self) -> (r: SavedFunction)
        ensures
            r.mode == self.mode_spec(),
            r.points@ == self.points_seq(),
            r.expression@ == self.expr_text(),
    {
        let points = match self.points() {
            Some(v) => crate::editable_func::clone_points(v),
            None => Vec::new(),
        };
        SavedFunction { mode: *self.mode(), points, expression: self.expression_text().clone() }
    }

    /// Restores a curve, validating the point-list invariants; the parse
    /// cache starts empty, exactly as after reading a project file.
    pub fn from_saved(s: SavedFunction) -> (r: Result<Self, SavedError>)
        ensures
            r is Err <==> fn_check(&s, ClampPolicy::Plain) is Some,
            r matches Err(e) ==> Some(e) == fn_check(&s, ClampPolicy::Plain),
            r matches Ok(f) ==> {
                &&& f.wf()
                &&& f.points_seq() == s.points@
                &&& f.mode_spec() == s.mode
                &&& f.expr_text() == s.expression@
                &&& f.cache() is None
            },
    {
        if let Some(e) = check_points(&s.points, ClampPolicy::Plain) {
            return Err(e);
        }
        let mut f = EditableFunc::with_points(s.points);
        *f.mode_mut() = s.mode;
        *f.expression_mut() = s.expression;
        Ok(f)
    }
}

impl EditableZeroOneFunc {
    pub fn to_saved(&self) -> (r: SavedFunction)
        ensures
            r.mode == self.mode_spec(),
            r.points@ == self.points_seq(),
            r.expression@ == self.inner_spec().expr_text(),
    {
        self.inner_ref().to_saved()
    }

    /// Restores a volume curve: besides the point-list invariants, every
    /// point must already lie in the unit band.
    pub fn from_saved(s: SavedFunction) -> (r: Result<Self, SavedError>)
        ensures
            r is Err <==> fn_check(&s, ClampPolicy::ZeroOne) is Some,
            r matches Err(e) ==> Some(e) == fn_check(&s, ClampPolicy::ZeroOne),
            r matches Ok(f) ==> {
                &&& f.wf()
                &&& f.points_seq() == s.points@
                &&& f.mode_spec() == s.mode
                &&& f.inner_spec().expr_text() == s.expression@
            },
    {
        if let Some(e) = check_points(&s.points, ClampPolicy::ZeroOne) {
            return Err(e);
        }
        let mut f = EditableFunc::with_points(s.points);
        *f.mode_mut() = s.mode;
        *f.expression_mut() = s.expression;
        Ok(EditableZeroOneFunc::new(f))
    }
}

impl EditablePositiveFunc {
    pub fn to_saved(&self) -> (r: SavedFunction)
        ensures
            r.mode == self.mode_spec(),
            r.points@ == self.points_seq(),
            r.expression@ == self.inner_spec().expr_text(),
    {
        self.inner_ref().to_saved()
    }

    /// Restores a pitch curve: besides the point-list invariants, every
    /// point must already lie in the non-negative quadrant.
    pub fn from_saved(s: SavedFunction) -> (r: Result<Self, SavedError>)
        ensures
            r is Err <==> fn_check(&s, ClampPolicy::Positive) is Some,
            r matches Err(e) ==> Some(e) == fn_check(&s, ClampPolicy::Positive),
            r matches Ok(f) ==> {
                &&& f.wf()
                &&& f.points_seq() == s.points@
                &&& f.mode_spec() == s.mode
                &&& f.inner_spec().expr_text() == s.expression@
            },
    {
        if let Some(e) = check_points(&s.points, ClampPolicy::Positive) {
            return Err(e);
        }
        let mut f = EditableFunc::with_points(s.points);
        *f.mode_mut() = s.mode;
        *f.expression_mut() = s.expression;
        Ok(EditablePositiveFunc::new(f))
    }
}

/// The persisted form of a curve pair.
pub struct SavedFunctions {
    pub volume: SavedFunction,
    pub pitch: SavedFunction,
}

/// The error restoring a pair yields: the volume curve is checked first.
pub open spec fn pair_check(s: &SavedFunctions) -> Option<SavedError> {
    if fn_check(&s.volume, ClampPolicy::ZeroOne) is Some {
        fn_check(&s.volume, ClampPolicy::ZeroOne)
    } else {
        fn_check(&s.pitch, ClampPolicy::Positive)
    }
}

impl AudioFunctions {
    pub fn to_saved(&self) -> (r: SavedFunctions)
        ensures
            r.volume.mode == self.volume.mode_spec(),
            r.volume.points@ == self.volume.points_seq(),
            r.volume.expression@ == self.volume.inner_spec().expr_text(),
            r.pitch.mode == self.pitch.mode_spec(),
            r.pitch.points@ == self.pitch.points_seq(),
            r.pitch.expression@ == self.pitch.inner_spec().expr_text(),
    {
        SavedFunctions { volume: self.volume.to_saved(), pitch: self.pitch.to_saved() }
    }

    pub fn from_saved(s: SavedFunctions) -> (r: Result<Self, SavedError>)
        ensures
            r is Err <==> pair_check(&s) is Some,
            r matches Err(e) ==> Some(e) == pair_check(&s),
            r matches Ok(f) ==> {
                &&& f.wf()
                &&& f.volume.points_seq() == s.volume.points@
                &&& f.volume.mode_spec() == s.volume.mode
                &&& f.volume.inner_spec().expr_text() == s.volume.expression@
                &&& f.pitch.points_seq() == s.pitch.points@
                &&& f.pitch.mode_spec() == s.pitch.mode
                &&& f.pitch.inner_spec().expr_text() == s.pitch.expression@
            },
    {
        let volume = match EditableZeroOneFunc::from_saved(s.volume) {
            Ok(v) => v,
            Err(e) => {
                return Err(e);
            },
        };
        let pitch = match EditablePositiveFunc::from_saved(s.pitch) {
            Ok(v) => v,
            Err(e) => {
                return Err(e);
            },
        };
        Ok(AudioFunctions { volume, pitch })
    }
}

/// The persisted form of a clip's curve modes.
pub enum SavedMode {
    Common(SavedFunctions),
    Separate { accel: SavedFunctions, brake: Box<SavedFunctions> },
    AccelOnly(SavedFunctions),
    BrakeOnly(SavedFunctions),
}

/// The error restoring a saved mode yields: the acceleration pair of a
/// separate mode is checked first.
pub open spec fn mode_check(m: &SavedMode) -> Option<SavedError> {
    match *m {
        SavedMode::Common(f) => pair_check(&f),
        SavedMode::Separate { accel, brake } => if pair_check(&accel) is Some {
            pair_check(&accel)
        } else {
            pair_check(&brake)
        },
        SavedMode::AccelOnly(f) => pair_check(&f),
        SavedMode::BrakeOnly(f) => pair_check(&f),
    }
}

/// A restored curve pair carries exactly the saved points, modes, and
/// formula texts.
pub open spec fn pair_matches(s: SavedFunctions, f: AudioFunctions) -> bool {
    &&& f.volume.points_seq() == s.volume.points@
    &&& f.volume.mode_spec() == s.volume.mode
    &&& f.volume.inner_spec().expr_text() == s.volume.expression@
    &&& f.pitch.points_seq() == s.pitch.points@
    &&& f.pitch.mode_spec() == s.pitch.mode
    &&& f.pitch.inner_spec().expr_text() == s.pitch.expression@
}

impl AudioFunctionMode {
    pub fn to_saved(&self) -> (r: SavedMode)
        ensures
            mode_matches(r, *self),
    {
        match self {
            AudioFunctionMode::Common(f) => SavedMode::Common(f.to_saved()),
            AudioFunctionMode::Separate { accel, brake } => SavedMode::Separate {
                accel: accel.to_saved(),
                brake: Box::new(brake.to_saved()),
            },
            AudioFunctionMode::AccelOnly(f) => SavedMode::AccelOnly(f.to_saved()),
            AudioFunctionMode::BrakeOnly(f) => SavedMode::BrakeOnly(f.to_saved()),
        }
    }

    pub fn from_saved(s: SavedMode) -> (r: Result<Self, SavedError>)
        ensures
            r is Err <==> mode_check(&s) is Some,
            r matches Err(e) ==> Some(e) == mode_check(&s),
            r matches Ok(m) ==> m.wf() && mode_matches(s, m),
    {
        match s {
            SavedMode::Common(f) => match AudioFunctions::from_saved(f) {
                Ok(v) => Ok(AudioFunctionMode::Common(v)),
                Err(e) => Err(e),
            },
            SavedMode::Separate { accel, brake } => {
                let a = match AudioFunctions::from_saved(accel) {
                    Ok(v) => v,
                    Err(e) => {
                        return Err(e);
                    },
                };
                let b = match AudioFunctions::from_saved(*brake) {
                    Ok(v) => v,
                    Err(e) => {
                        return Err(e);
                    },
                };
                Ok(AudioFunctionMode::Separate { accel: a, brake: Box::new(b) })
            },
            SavedMode::AccelOnly(f) => match AudioFunctions::from_saved(f) {
                Ok(v) => Ok(AudioFunctionMode::AccelOnly(v)),
                Err(e) => Err(e),
            },
            SavedMode::BrakeOnly(f) => match AudioFunctions::from_saved(f) {
                Ok(v) => Ok(AudioFunctionMode::BrakeOnly(v)),
                Err(e) => Err(e),
            },
        }
    }
}

/// The persisted form of one clip entry; the runtime id and the source
/// path are derived on load and are not part of it.
pub struct SavedEntry {
    pub name: String,
    pub mode: SavedMode,
}

/// The saved mode carries exactly the curves the live mode holds (for the
/// driving states the mode covers).
pub open spec fn mode_matches(s: SavedMode, m: AudioFunctionMode) -> bool {
    match s {
        SavedMode::Common(f) => m is Common && (crate::audio_entry::accel_of(m) matches Some(a)
            && pair_matches(f, a)),
        SavedMode::Separate { accel, brake } => m is Separate && (crate::audio_entry::accel_of(m)
            matches Some(a) && pair_matches(accel, a)) && (crate::audio_entry::brake_of(m)
            matches Some(b) && pair_matches(*brake, b)),
        SavedMode::AccelOnly(f) => m is AccelOnly && (crate::audio_entry::accel_of(m)
            matches Some(a) && pair_matches(f, a)),
        SavedMode::BrakeOnly(f) => m is BrakeOnly && (crate::audio_entry::brake_of(m)
            matches Some(b) && pair_matches(f, b)),
    }
}

impl AudioEntry {
    pub fn to_saved(&self) -> (r: SavedEntry)
        ensures
            r.name@ == self.name_spec(),
            mode_matches(r.mode, self.mode_spec()),
    {
        SavedEntry { name: self.name().clone(), mode: self.mode().to_saved() }
    }

    pub fn from_saved(id: u32, s: SavedEntry) -> (r: Result<Self, SavedError>)
        ensures
            r is Err <==> mode_check(&s.mode) is Some,
            r matches Err(e) ==> Some(e) == mode_check(&s.mode),
            r matches Ok(entry) ==> {
                &&& entry.wf()
                &&& entry.id_spec() == id
                &&& entry.name_spec() == s.name@
                &&& entry.path_spec() is None
                &&& mode_matches(s.mode, entry.mode_spec())
            },
    {
        let mode = match AudioFunctionMode::from_saved(s.mode) {
            Ok(m) => m,
            Err(e) => {
                return Err(e);
            },
        };
        let mut entry = AudioEntry::new(id, s.name.as_str());
        *entry.mode_mut() = mode;
        Ok(entry)
    }
}

/// Law: a well-formed curve saves to a form that always restores, and a
/// curve restored from it evaluates identically at every position under
/// every clamp policy (and keeps the mode and the formula text, so the
/// formula re-parses to the same outcome).
pub proof fn lemma_save_restore_exact(
    f: &EditableFunc,
    s: &SavedFunction,
    g: &EditableFunc,
    k: ClampPolicy,
    x: int,
)
    requires
        f.wf(),
        s.mode == f.mode_spec(),
        s.points@ == f.points_seq(),
        s.expression@ == f.expr_text(),
        g.points_seq() == s.points@,
        g.mode_spec() == s.mode,
        g.expr_text() == s.expression@,
    ensures
        fn_check(s, ClampPolicy::Plain) is None,
        crate::editable_func::value_at_spec(g.points_seq(), k, x)
            == crate::editable_func::value_at_spec(f.points_seq(), k, x),
        g.mode_spec() == f.mode_spec(),
        g.expr_text() == f.expr_text(),
{
}

} // verus!
