//! One audio clip in a project: its id and display name, and its volume
//! and pitch curves, optionally split between acceleration and braking.

use crate::curve::UNIT;
use crate::editable_func::EditableFunc;
use crate::wrappers::EditablePositiveFunc;
use crate::wrappers::EditableZeroOneFunc;
use vstd::prelude::*;

verus! {

/// The volume and pitch curves of one clip (both functions of speed).
pub struct AudioFunctions {
    pub volume: EditableZeroOneFunc,
    pub pitch: EditablePositiveFunc,
}

impl AudioFunctions {
    pub open spec fn wf(&self) -> bool {
        &&& self.volume.wf()
        &&& self.pitch.wf()
    }
}

impl Default for AudioFunctions {
    /// A clip starts at half volume and unchanged pitch at 40 speed units.
    fn default() -> (r: Self)
        ensures
            r.wf(),
            r.volume.points_seq() == seq![((40 * UNIT) as i64, 500000i64)],
            r.pitch.points_seq() == seq![((40 * UNIT) as i64, UNIT)],
    {
        let volume = EditableZeroOneFunc::new(EditableFunc::with_points(vec![(40 * UNIT, 500000i64)]));
        let pitch = EditablePositiveFunc::new(EditableFunc::with_points(vec![(40 * UNIT, UNIT)]));
        AudioFunctions { volume, pitch }
    }
}

impl Clone for AudioFunctions {
    fn clone(&self) -> (r: Self)
        ensures
            r.volume.points_seq() == self.volume.points_seq(),
            r.volume.mode_spec() == self.volume.mode_spec(),
            r.pitch.points_seq() == self.pitch.points_seq(),
            r.pitch.mode_spec() == self.pitch.mode_spec(),
            self.wf() ==> r.wf(),
    {
        AudioFunctions { volume: self.volume.clone(), pitch: self.pitch.clone() }
    }
}

#[derive(Debug, Clone, Copy, PartialEq, Eq, Hash, Structural)]
pub enum SoundType {
    Accel,
    Brake,
}

/// How a clip's curves apply to the two driving states: one shared pair,
/// a separate pair each, or a pair for only one of them.
pub enum AudioFunctionMode {
    Common(AudioFunctions),
    Separate { accel: AudioFunctions, brake: Box<AudioFunctions> },
    AccelOnly(AudioFunctions),
    BrakeOnly(AudioFunctions),
}

/// The curve pair this mode uses while accelerating, if any.
pub open spec fn accel_of(m: AudioFunctionMode) -> Option<AudioFunctions> {
    match m {
        AudioFunctionMode::Separate { accel, .. } => Some(accel),
        AudioFunctionMode::AccelOnly(f) => Some(f),
        AudioFunctionMode::Common(f) => Some(f),
        AudioFunctionMode::BrakeOnly(_) => None,
    }
}

/// The curve pair this mode uses while braking, if any.
pub open spec fn brake_of(m: AudioFunctionMode) -> Option<AudioFunctions> {
    match m {
        AudioFunctionMode::Separate { brake, .. } => Some(*brake),
        AudioFunctionMode::BrakeOnly(f) => Some(f),
        AudioFunctionMode::Common(f) => Some(f),
        AudioFunctionMode::AccelOnly(_) => None,
    }
}

/// The curve pair a mode uses for a driving state.
pub open spec fn funcs_of(m: AudioFunctionMode, t: SoundType) -> Option<AudioFunctions> {
    match t {
        SoundType::Accel => accel_of(m),
        SoundType::Brake => brake_of(m),
    }
}

impl AudioFunctionMode {
    pub open spec fn wf(&self) -> bool {
        match *self {
            AudioFunctionMode::Common(f) => f.wf(),
            AudioFunctionMode::Separate { accel, brake } => accel.wf() && brake.wf(),
            AudioFunctionMode::AccelOnly(f) => f.wf(),
            AudioFunctionMode::BrakeOnly(f) => f.wf(),
        }
    }

    pub fn is_common(&self) -> (r: bool)
        ensures
            r == (*self is Common),
    {
        matches!(self, AudioFunctionMode::Common(_))
    }

    pub fn is_separate(&self) -> (r: bool)
        ensures
            r == (*self is Separate),
    {
        matches!(self, AudioFunctionMode::Separate { .. })
    }

    pub fn is_accel_only(&self) -> (r: bool)
        ensures
            r == (*self is AccelOnly),
    {
        matches!(self, AudioFunctionMode::AccelOnly(_))
    }

    pub fn is_brake_only(&self) -> (r: bool)
        ensures
            r == (*self is BrakeOnly),
    {
        matches!(self, AudioFunctionMode::BrakeOnly(_))
    }

    pub fn accel(&self) -> (r: Option<&AudioFunctions>)
        ensures
            match r {
                Some(f) => accel_of(*self) == Some(*f),
                None => accel_of(*self) is None,
            },
    {
        match self {
            AudioFunctionMode::Separate { accel, .. } => Some(accel),
            AudioFunctionMode::AccelOnly(funcs) => Some(funcs),
            AudioFunctionMode::Common(funcs) => Some(funcs),
            AudioFunctionMode::BrakeOnly(_) => None,
        }
    }

    pub fn brake(&self) -> (r: Option<&AudioFunctions>)
        ensures
            match r {
                Some(f) => brake_of(*self) == Some(*f),
                None => brake_of(*self) is None,
            },
    {
        match self {
            AudioFunctionMode::Separate { brake, .. } => Some(brake),
            AudioFunctionMode::BrakeOnly(funcs) => Some(funcs),
            AudioFunctionMode::Common(funcs) => Some(funcs),
            AudioFunctionMode::AccelOnly(_) => None,
        }
    }

    pub fn get_by_type(&self, audio_type: SoundType) -> (r: Option<&AudioFunctions>)
        ensures
            match r {
                Some(f) => funcs_of(*self, audio_type) == Some(*f),
                None => funcs_of(*self, audio_type) is None,
            },
    {
        match audio_type {
            SoundType::Accel => self.accel(),
            SoundType::Brake => self.brake(),
        }
    }

    /// The text shown for this mode.
    pub fn label_text(&self) -> (r: &'static str)
        ensures
            *self is Common ==> r@ == "Common"@,
            *self is Separate ==> r@ == "Separate"@,
            *self is AccelOnly ==> r@ == "Accel Only"@,
            *self is BrakeOnly ==> r@ == "Brake Only"@,
    {
        match self {
            AudioFunctionMode::Common(_) => "Common",
            AudioFunctionMode::Separate { .. } => "Separate",
            AudioFunctionMode::AccelOnly(_) => "Accel Only",
            AudioFunctionMode::BrakeOnly(_) => "Brake Only",
        }
    }

    /// Collapses to one shared pair, keeping the acceleration pair where
    /// two existed.
    pub fn to_common(&self) -> (r: Self)
        ensures
            r is Common,
            funcs_pair_eq(accel_of(r), if *self is BrakeOnly {
                brake_of(*self)
            } else {
                accel_of(*self)
            }),
            self.wf() ==> r.wf(),
    {
        match self {
            AudioFunctionMode::Separate { accel, .. } => AudioFunctionMode::Common(accel.clone()),
            AudioFunctionMode::AccelOnly(funcs) => AudioFunctionMode::Common(funcs.clone()),
            AudioFunctionMode::BrakeOnly(funcs) => AudioFunctionMode::Common(funcs.clone()),
            AudioFunctionMode::Common(funcs) => AudioFunctionMode::Common(funcs.clone()),
        }
    }

    /// Splits into separate pairs, copying the one pair to both sides
    /// where only one existed.
    pub fn to_separate(&self) -> (r: Self)
        ensures
            r is Separate,
            funcs_pair_eq(accel_of(r), if *self is BrakeOnly {
                brake_of(*self)
            } else {
                accel_of(*self)
            }),
            funcs_pair_eq(brake_of(r), if *self is Separate || *self is BrakeOnly {
                brake_of(*self)
            } else {
                accel_of(*self)
            }),
            self.wf() ==> r.wf(),
    {
        match self {
            AudioFunctionMode::Separate { accel, brake } => AudioFunctionMode::Separate {
                accel: accel.clone(),
                brake: Box::new((**brake).clone()),
            },
            AudioFunctionMode::AccelOnly(funcs) => AudioFunctionMode::Separate {
                accel: funcs.clone(),
                brake: Box::new(funcs.clone()),
            },
            AudioFunctionMode::Common(funcs) => AudioFunctionMode::Separate {
                accel: funcs.clone(),
                brake: Box::new(funcs.clone()),
            },
            AudioFunctionMode::BrakeOnly(funcs) => AudioFunctionMode::Separate {
                accel: funcs.clone(),
                brake: Box::new(funcs.clone()),
            },
        }
    }

    /// Keeps only an acceleration pair.
    pub fn to_accel_only(&self) -> (r: Self)
        ensures
            r is AccelOnly,
            funcs_pair_eq(accel_of(r), if *self is BrakeOnly {
                brake_of(*self)
            } else {
                accel_of(*self)
            }),
            self.wf() ==> r.wf(),
    {
        match self {
            AudioFunctionMode::Separate { accel, .. } => AudioFunctionMode::AccelOnly(
                accel.clone(),
            ),
            AudioFunctionMode::AccelOnly(funcs) => AudioFunctionMode::AccelOnly(funcs.clone()),
            AudioFunctionMode::BrakeOnly(funcs) => AudioFunctionMode::AccelOnly(funcs.clone()),
            AudioFunctionMode::Common(funcs) => AudioFunctionMode::AccelOnly(funcs.clone()),
        }
    }

    /// Keeps only a braking pair.
    pub fn to_brake_only(&self) -> (r: Self)
        ensures
            r is BrakeOnly,
            funcs_pair_eq(brake_of(r), if *self is Separate || *self is BrakeOnly {
                brake_of(*self)
            } else {
                accel_of(*self)
            }),
            self.wf() ==> r.wf(),
    {
        match self {
            AudioFunctionMode::Separate { brake, .. } => AudioFunctionMode::BrakeOnly(
                (**brake).clone(),
            ),
            AudioFunctionMode::AccelOnly(funcs) => AudioFunctionMode::BrakeOnly(funcs.clone()),
            AudioFunctionMode::Common(funcs) => AudioFunctionMode::BrakeOnly(funcs.clone()),
            AudioFunctionMode::BrakeOnly(funcs) => AudioFunctionMode::BrakeOnly(funcs.clone()),
        }
    }
}

impl AudioFunctionMode {
    pub fn accel_mut(&mut self) -> (r: Option<&mut AudioFunctions>)
        ensures
            match r {
                Some(f) => {
                    &&& accel_of(*old(self)) == Some(*f)
                    &&& accel_of(*final(self)) == Some(*final(f))
                    &&& brake_of(*final(self)) == if *old(self) is Common {
                        Some(*final(f))
                    } else {
                        brake_of(*old(self))
                    }
                    &&& *final(self) is Common == *old(self) is Common
                    &&& *final(self) is Separate == *old(self) is Separate
                    &&& *final(self) is AccelOnly == *old(self) is AccelOnly
                    &&& *final(self) is BrakeOnly == *old(self) is BrakeOnly
                },
                None => *final(self) == *old(self) && accel_of(*old(self)) is None,
            },
    {
        match self {
            AudioFunctionMode::Separate { accel, .. } => Some(accel),
            AudioFunctionMode::AccelOnly(funcs) => Some(funcs),
            AudioFunctionMode::Common(funcs) => Some(funcs),
            AudioFunctionMode::BrakeOnly(_) => None,
        }
    }

    pub fn brake_mut(&mut self) -> (r: Option<&mut AudioFunctions>)
        ensures
            match r {
                Some(f) => {
                    &&& brake_of(*old(self)) == Some(*f)
                    &&& brake_of(*final(self)) == Some(*final(f))
                    &&& accel_of(*final(self)) == if *old(self) is Common {
                        Some(*final(f))
                    } else {
                        accel_of(*old(self))
                    }
                    &&& *final(self) is Common == *old(self) is Common
                    &&& *final(self) is Separate == *old(self) is Separate
                    &&& *final(self) is AccelOnly == *old(self) is AccelOnly
                    &&& *final(self) is BrakeOnly == *old(self) is BrakeOnly
                },
                None => *final(self) == *old(self) && brake_of(*old(self)) is None,
            },
    {
        match self {
            AudioFunctionMode::Separate { brake, .. } => Some(brake),
            AudioFunctionMode::BrakeOnly(funcs) => Some(funcs),
            AudioFunctionMode::Common(funcs) => Some(funcs),
            AudioFunctionMode::AccelOnly(_) => None,
        }
    }

    pub fn get_by_type_mut(&mut self, audio_type: SoundType) -> (r: Option<&mut AudioFunctions>)
        ensures
            match r {
                Some(f) => funcs_of(*old(self), audio_type) == Some(*f) && funcs_of(
                    *final(self),
                    audio_type,
                ) == Some(*final(f)),
                None => *final(self) == *old(self) && funcs_of(*old(self), audio_type) is None,
            },
    {
        match audio_type {
            SoundType::Accel => self.accel_mut(),
            SoundType::Brake => self.brake_mut(),
        }
    }
}

/// Two optional curve pairs hold the same curves (points, modes, text).
pub open spec fn funcs_pair_eq(a: Option<AudioFunctions>, b: Option<AudioFunctions>) -> bool {
    match (a, b) {
        (Some(x), Some(y)) => {
            &&& x.volume.points_seq() == y.volume.points_seq()
            &&& x.volume.mode_spec() == y.volume.mode_spec()
            &&& x.pitch.points_seq() == y.pitch.points_seq()
            &&& x.pitch.mode_spec() == y.pitch.mode_spec()
        },
        (None, None) => true,
        _ => false,
    }
}

#[derive(Debug, Clone, Copy, PartialEq, Eq, Structural)]
pub enum AudioEntryError {
    NoName,
}

/// Relies on str::chars: the characters of the text, in order.
#[verifier::external_body]
fn chars_of(s: &str) -> (r: Vec<char>)
    ensures
        r@ == s@,
{
    s.chars().collect()
}

/// Relies on String's FromIterator over char: the collected string holds
/// exactly the given characters, in order.
#[verifier::external_body]
fn string_from_chars(v: &Vec<char>) -> (r: String)
    ensures
        r@ == v@,
{
    v.iter().collect()
}

/// Index just past the last path separator in `s[..upto]`, or 0.
pub open spec fn after_last_sep(s: Seq<char>, upto: int) -> int
    decreases upto,
{
    if upto <= 0 {
        0
    } else if s[upto - 1] == '/' || s[upto - 1] == '\\' {
        upto
    } else {
        after_last_sep(s, upto - 1)
    }
}

/// Index of the last dot in `s[..upto]`, or -1.
pub open spec fn last_dot(s: Seq<char>, upto: int) -> int
    decreases upto,
{
    if upto <= 0 {
        -1
    } else if s[upto - 1] == '.' {
        upto - 1
    } else {
        last_dot(s, upto - 1)
    }
}

proof fn lemma_last_dot_bounds(s: Seq<char>, upto: int)
    requires
        upto >= 0,
    ensures
        -1 <= last_dot(s, upto) < upto || (upto == 0 && last_dot(s, upto) == -1),
        last_dot(s, upto) < upto,
        -1 <= last_dot(s, upto),
    decreases upto,
{
    if upto > 0 && !(s[upto - 1] == '.') {
        lemma_last_dot_bounds(s, upto - 1);
    }
}

/// The file stem of a path: the final component (after the last `/` or
/// `\`) with its extension (from its last dot, unless that dot leads the
/// component or lies before it) cut off.
pub open spec fn file_stem(s: Seq<char>) -> Seq<char> {
    let start = after_last_sep(s, s.len() as int);
    let d = last_dot(s, s.len() as int);
    let end = if d > start {
        d
    } else {
        s.len() as int
    };
    s.subrange(start, end)
}

/// One named clip with an id and its curve modes; the name is the file
/// stem when the entry came from a path.
pub struct AudioEntry {
    id: u32,
    path: Option<String>,
    name: String,
    mode: AudioFunctionMode,
}

impl AudioEntry {
    pub closed spec fn id_spec(&self) -> u32 {
        self.id
    }

    pub closed spec fn path_spec(&self) -> Option<Seq<char>> {
        match self.path {
            Some(p) => Some(p@),
            None => None,
        }
    }

    pub closed spec fn name_spec(&self) -> Seq<char> {
        self.name@
    }

    pub closed spec fn mode_spec(&self) -> AudioFunctionMode {
        self.mode
    }

    pub open spec fn wf(&self) -> bool {
        self.mode_spec().wf()
    }

    pub fn new(id: u32, name: &str) -> (r: Self)
        ensures
            r.wf(),
            r.id_spec() == id,
            r.path_spec() is None,
            r.name_spec() == name@,
            r.mode_spec() is Common,
    {
        AudioEntry {
            id,
            path: None,
            name: name.to_owned(),
            mode: AudioFunctionMode::Common(AudioFunctions::default()),
        }
    }

    /// Builds an entry named after the path's file stem; a path with an
    /// empty stem is refused.
    pub fn with_path(id: u32, path: String) -> (r: Result<Self, AudioEntryError>)
        ensures
            r is Ok <==> file_stem(path@).len() > 0,
            r matches Ok(e) ==> {
                &&& e.wf()
                &&& e.id_spec() == id
                &&& e.path_spec() == Some(path@)
                &&& e.name_spec() == file_stem(path@)
                &&& e.mode_spec() is Common
            },
            r matches Err(e) ==> e == AudioEntryError::NoName,
    {
        let cs = chars_of(path.as_str());
        let ghost s = path@;
        let n = cs.len();
        let mut start: usize = 0;
        let mut dot: Option<usize> = None;
        for i in 0..n
            invariant
                n == s.len(),
                cs@ == s,
                start == after_last_sep(s, i as int),
                0 <= start <= i,
                match dot {
                    Some(d) => d as int == last_dot(s, i as int),
                    None => last_dot(s, i as int) == -1,
                },
        {
            if cs[i] == '/' || cs[i] == '\\' {
                start = i + 1;
            }
            if cs[i] == '.' {
                dot = Some(i);
            }
        }
        proof {
            lemma_last_dot_bounds(s, n as int);
        }
        let end: usize = match dot {
            Some(d) => if d > start {
                d
            } else {
                n
            },
            None => n,
        };
        if start >= end {
            return Err(AudioEntryError::NoName);
        }
        let mut stem: Vec<char> = Vec::new();
        for i in start..end
            invariant
                n == s.len(),
                cs@ == s,
                start <= end <= n,
                stem@.len() == i - start,
                forall|q: int| 0 <= q < i - start ==> (#[trigger] stem@[q]) == s[start + q],
        {
            stem.push(cs[i]);
        }
        proof {
            assert(stem@ =~= s.subrange(start as int, end as int));
        }
        let name = string_from_chars(&stem);
        Ok(
            AudioEntry {
                id,
                path: Some(path),
                name,
                mode: AudioFunctionMode::Common(AudioFunctions::default()),
            },
        )
    }

    pub fn id(&self) -> (r: &u32)
        ensures
            *r == self.id_spec(),
    {
        &self.id
    }

    /// Rebinds the entry to a new registry id.
    pub(crate) fn set_id(&mut self, id: u32)
        ensures
            final(self).id_spec() == id,
            final(self).path_spec() == old(self).path_spec(),
            final(self).name_spec() == old(self).name_spec(),
            final(self).mode_spec() == old(self).mode_spec(),
    {
        self.id = id;
    }

    pub fn path(&self) -> (r: &Option<String>)
        ensures
            match *r {
                Some(p) => self.path_spec() == Some(p@),
                None => self.path_spec() is None,
            },
    {
        &self.path
    }

    pub fn name(&self) -> (r: &String)
        ensures
            r@ == self.name_spec(),
    {
        &self.name
    }

    pub fn mode(&self) -> (r: &AudioFunctionMode)
        ensures
            *r == self.mode_spec(),
    {
        &self.mode
    }

    pub fn mode_mut(&mut self) -> (r: &mut AudioFunctionMode)
        ensures
            *r == old(self).mode_spec(),
            final(self).mode_spec() == *final(r),
            final(self).id_spec() == old(self).id_spec(),
            final(self).path_spec() == old(self).path_spec(),
            final(self).name_spec() == old(self).name_spec(),
    {
        &mut self.mode
    }

    pub fn funcs_by_type(&self, sound_type: SoundType) -> (r: Option<&AudioFunctions>)
        ensures
            match r {
                Some(f) => funcs_of(self.mode_spec(), sound_type) == Some(*f),
                None => funcs_of(self.mode_spec(), sound_type) is None,
            },
    {
        self.mode.get_by_type(sound_type)
    }

    pub fn funcs_by_type_mut(&mut self, sound_type: SoundType) -> (r: Option<&mut AudioFunctions>)
        ensures
            final(self).id_spec() == old(self).id_spec(),
            final(self).path_spec() == old(self).path_spec(),
            final(self).name_spec() == old(self).name_spec(),
            match r {
                Some(f) => funcs_of(old(self).mode_spec(), sound_type) == Some(*f) && funcs_of(
                    final(self).mode_spec(),
                    sound_type,
                ) == Some(*final(f)),
                None => *final(self) == *old(self) && funcs_of(old(self).mode_spec(), sound_type)
                    is None,
            },
    {
        self.mode.get_by_type_mut(sound_type)
    }
}

} // verus!
