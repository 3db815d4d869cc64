//! The project: the ordered list of audio entries, the selection, and the
//! train performance model.

use crate::audio_entry::AudioEntry;
use crate::audio_entry::AudioEntryError;
use crate::train_performance::TrainPerformance;
use vstd::prelude::*;

verus! {

pub struct State {
    pub audio_entries: Vec<AudioEntry>,
    pub selection: Option<u32>,
    pub train_performance: TrainPerformance,
}

impl State {
    pub open spec fn wf(&self) -> bool {
        &&& forall|i: int|
            0 <= i < self.audio_entries@.len() ==> (#[trigger] self.audio_entries@[i]).wf()
        &&& self.train_performance.wf()
    }

    pub fn add_audio_entry(&mut self, id: u32, name: &str)
        requires
            old(self).wf(),
        ensures
            final(self).wf(),
            final(self).audio_entries@.len() == old(self).audio_entries@.len() + 1,
            forall|i: int|
                0 <= i < old(self).audio_entries@.len() ==> (#[trigger] final(self).audio_entries@[i]) == old(self).audio_entries@[i],
            ({
                let e = final(self).audio_entries@.last();
                &&& e.id_spec() == id
                &&& e.name_spec() == name@
                &&& e.path_spec() is None
            }),
            final(self).selection == old(self).selection,
            final(self).train_performance == old(self).train_performance,
    {
        self.audio_entries.push(AudioEntry::new(id, name));
    }

    pub fn add_audio_entry_with_path(&mut self, id: u32, path: String) -> (r: Result<
        (),
        AudioEntryError,
    >)
        requires
            old(self).wf(),
        ensures
            final(self).wf(),
            r is Ok <==> crate::audio_entry::file_stem(path@).len() > 0,
            r is Ok ==> {
                &&& final(self).audio_entries@.len() == old(self).audio_entries@.len() + 1
                &&& forall|i: int|
                    0 <= i < old(self).audio_entries@.len() ==> (#[trigger] final(self).audio_entries@[i]) == old(self).audio_entries@[i]
                &&& final(self).audio_entries@.last().id_spec() == id
                &&& final(self).audio_entries@.last().path_spec() == Some(path@)
                &&& final(self).audio_entries@.last().name_spec()
                    == crate::audio_entry::file_stem(path@)
            },
            r is Err ==> *final(self) == *old(self),
            final(self).selection == old(self).selection,
            final(self).train_performance == old(self).train_performance,
    {
        match AudioEntry::with_path(id, path) {
            Ok(entry) => {
                self.audio_entries.push(entry);
                Ok(())
            },
            Err(e) => Err(e),
        }
    }

    /// Takes the entry at `from_idx` out and re-inserts it at `to_idx`
    /// (capped at the end of the shortened list).
    pub fn move_audio_entry(&mut self, from_idx: usize, to_idx: usize)
        requires
            old(self).wf(),
            from_idx < old(self).audio_entries@.len(),
        ensures
            final(self).wf(),
            ({
                let s = old(self).audio_entries@;
                let item = s[from_idx as int];
                let rest = s.remove(from_idx as int);
                let at = if to_idx <= rest.len() {
                    to_idx as int
                } else {
                    rest.len() as int
                };
                final(self).audio_entries@ == rest.insert(at, item)
            }),
            final(self).selection == old(self).selection,
            final(self).train_performance == old(self).train_performance,
    {
        let item = self.remove_audio_entry(from_idx);
        let len = self.audio_entries.len();
        let at = if to_idx <= len {
            to_idx
        } else {
            len
        };
        self.audio_entries.insert(at, item);
        proof {
            let s = old(self).audio_entries@;
            let rest = s.remove(from_idx as int);
            assert forall|i: int| 0 <= i < self.audio_entries@.len() implies (#[trigger] self
                .audio_entries@[i]).wf() by {
                if i < at {
                    assert(self.audio_entries@[i] == rest[i]);
                } else if i > at {
                    assert(self.audio_entries@[i] == rest[i - 1]);
                }
            }
        }
    }

    pub fn remove_audio_entry(&mut self, index: usize) -> (r: AudioEntry)
        requires
            old(self).wf(),
            index < old(self).audio_entries@.len(),
        ensures
            final(self).wf(),
            r == old(self).audio_entries@[index as int],
            final(self).audio_entries@ == old(self).audio_entries@.remove(index as int),
            final(self).selection == old(self).selection,
            final(self).train_performance == old(self).train_performance,
    {
        let r = self.audio_entries.remove(index);
        proof {
            let s = old(self).audio_entries@;
            assert forall|i: int| 0 <= i < self.audio_entries@.len() implies (#[trigger] self
                .audio_entries@[i]).wf() by {
                if i < index as int {
                    assert(self.audio_entries@[i] == s[i]);
                } else {
                    assert(self.audio_entries@[i] == s[i + 1]);
                }
            }
        }
        r
    }

    pub fn clear_audio_entries(&mut self)
        requires
            old(self).wf(),
        ensures
            final(self).wf(),
            final(self).audio_entries@.len() == 0,
            final(self).selection == old(self).selection,
            final(self).train_performance == old(self).train_performance,
    {
        self.audio_entries.clear();
    }
}

impl Default for State {
    fn default() -> (r: Self)
        ensures
            r.wf(),
            r.audio_entries@.len() == 0,
            r.selection is None,
    {
        State {
            audio_entries: Vec::new(),
            selection: None,
            train_performance: TrainPerformance::default(),
        }
    }
}

} // verus!
