//! The registry of loaded audio files: the raw bytes of each clip keyed by
//! the entry id, and the id counter.  Reading files, decoding, and the
//! audio device live with the caller; the bookkeeping that keeps the
//! registry and the project state in step is specified here.

use crate::audio_entry::AudioEntry;
use crate::audio_entry::AudioEntryError;
use crate::project_state::State;
use std::collections::HashMap;
use vstd::prelude::*;

verus! {

broadcast use vstd::std_specs::hash::group_hash_axioms;

pub struct FileRegistory {
    raw_data: HashMap<u32, Vec<u8>>,
    next_id: u32,
}

impl FileRegistory {
    pub closed spec fn raw_map(&self) -> Map<u32, Vec<u8>> {
        self.raw_data@
    }

    pub closed spec fn next_spec(&self) -> u32 {
        self.next_id
    }

    /// Registers one loaded file under a fresh id and adds the matching
    /// entry (named after the path's file stem) to the state; a path with
    /// an empty stem is refused and changes nothing.
    pub fn add_file(&mut self, path: String, raw: Vec<u8>, state: &mut State) -> (r: Result<
        u32,
        AudioEntryError,
    >)
        requires
            old(state).wf(),
            old(self).next_spec() < u32::MAX,
        ensures
            final(state).wf(),
            r is Ok <==> crate::audio_entry::file_stem(path@).len() > 0,
            r matches Ok(id) ==> {
                &&& id == old(self).next_spec()
                &&& final(self).next_spec() == old(self).next_spec() + 1
                &&& final(self).raw_map() == old(self).raw_map().insert(id, raw)
                &&& final(state).audio_entries@.len() == old(state).audio_entries@.len() + 1
                &&& forall|i: int|
                    0 <= i < old(state).audio_entries@.len() ==> (#[trigger] final(state).audio_entries@[i]) == old(state).audio_entries@[i]
                &&& final(state).audio_entries@.last().id_spec() == id
                &&& final(state).audio_entries@.last().path_spec() == Some(path@)
                &&& final(state).audio_entries@.last().name_spec()
                    == crate::audio_entry::file_stem(path@)
            },
            r is Err ==> *final(self) == *old(self) && *final(state) == *old(state),
    {
        let id = self.next_id;
        match state.add_audio_entry_with_path(id, path) {
            Ok(()) => {
                self.next_id = id + 1;
                self.raw_data.insert(id, raw);
                Ok(id)
            },
            Err(e) => Err(e),
        }
    }

    /// Drops a clip: its bytes leave the registry and every entry bound to
    /// the id leaves the state.
    pub fn remove_file(&mut self, id: u32, state: &mut State)
        requires
            old(state).wf(),
        ensures
            final(state).wf(),
            final(self).raw_map() == old(self).raw_map().remove(id),
            final(self).next_spec() == old(self).next_spec(),
            final(state).audio_entries@ == old(state).audio_entries@.filter(
                |e: AudioEntry| e.id_spec() != id,
            ),
            final(state).selection == old(state).selection,
            final(state).train_performance == old(state).train_performance,
    {
        self.raw_data.remove(&id);
        let ghost s = state.audio_entries@;
        let mut kept: Vec<AudioEntry> = Vec::new();
        let n = state.audio_entries.len();
        for i in 0..n
            invariant
                n == s.len(),
                state.audio_entries@ == s.subrange(i as int, n as int),
                state.selection == old(state).selection,
                state.train_performance == old(state).train_performance,
                forall|j: int| 0 <= j < s.len() ==> (#[trigger] s[j]).wf(),
                kept@ == s.subrange(0, i as int).filter(|e: AudioEntry| e.id_spec() != id),
                forall|j: int| 0 <= j < kept@.len() ==> (#[trigger] kept@[j]).wf(),
        {
            let ghost prefix = s.subrange(0, i as int);
            let e = state.audio_entries.remove(0);
            proof {
                assert(s.subrange(i as int, n as int)[0] == s[i as int]);
                assert(s.subrange(i as int, n as int).remove(0) =~= s.subrange(
                    i + 1,
                    n as int,
                ));
                assert(prefix.push(s[i as int]) =~= s.subrange(0, i + 1));
                assert(s.subrange(0, i + 1).drop_last() =~= prefix);
                reveal_with_fuel(Seq::filter, 2);
            }
            if *e.id() != id {
                kept.push(e);
            }
        }
        proof {
            assert(s.subrange(0, n as int) =~= s);
        }
        state.audio_entries = kept;
    }

    /// Empties the registry and the state together.
    pub fn clear(&mut self, state: &mut State)
        requires
            old(state).wf(),
        ensures
            final(state).wf(),
            final(self).raw_map() == Map::<u32, Vec<u8>>::empty(),
            final(self).next_spec() == old(self).next_spec(),
            final(state).audio_entries@.len() == 0,
            final(state).selection == old(state).selection,
            final(state).train_performance == old(state).train_performance,
    {
        self.raw_data.clear();
        state.clear_audio_entries();
    }

    /// Gives every entry a fresh id, in order.
    pub fn assign_ids(&mut self, state: &mut State)
        requires
            old(state).wf(),
            old(self).next_spec() + old(state).audio_entries@.len() <= u32::MAX,
        ensures
            final(state).wf(),
            final(self).raw_map() == old(self).raw_map(),
            final(self).next_spec() == old(self).next_spec() + old(state).audio_entries@.len(),
            final(state).audio_entries@.len() == old(state).audio_entries@.len(),
            forall|i: int|
                0 <= i < old(state).audio_entries@.len() ==> {
                    let e = #[trigger] final(state).audio_entries@[i];
                    let o = old(state).audio_entries@[i];
                    &&& e.id_spec() == old(self).next_spec() + i
                    &&& e.name_spec() == o.name_spec()
                    &&& e.path_spec() == o.path_spec()
                    &&& e.mode_spec() == o.mode_spec()
                },
            final(state).selection == old(state).selection,
            final(state).train_performance == old(state).train_performance,
    {
        let n = state.audio_entries.len();
        let ghost s = old(state).audio_entries@;
        let base = self.next_id;
        for i in 0..n
            invariant
                n == s.len(),
                base == old(self).next_spec(),
                base + n <= u32::MAX,
                self.next_id == base,
                self.raw_data@ == old(self).raw_map(),
                state.audio_entries@.len() == n,
                state.selection == old(state).selection,
                state.train_performance == old(state).train_performance,
                forall|j: int|
                    i <= j < n ==> (#[trigger] state.audio_entries@[j]) == s[j],
                forall|j: int|
                    0 <= j < i ==> {
                        let e = #[trigger] state.audio_entries@[j];
                        &&& e.id_spec() == base + j
                        &&& e.name_spec() == s[j].name_spec()
                        &&& e.path_spec() == s[j].path_spec()
                        &&& e.mode_spec() == s[j].mode_spec()
                        &&& e.wf()
                    },
                forall|j: int| 0 <= j < s.len() ==> (#[trigger] s[j]).wf(),
        {
            let mut entry = state.audio_entries.remove(i);
            entry.set_id(base + i as u32);
            let ghost before = state.audio_entries@;
            state.audio_entries.insert(i, entry);
            proof {
                assert(state.audio_entries@ =~= before.insert(i as int, entry));
            }
        }
        self.next_id = base + n as u32;
    }

    /// The stored bytes of a clip, when the id is registered.
    pub fn raw_data_by_id(&self, id: u32) -> (r: Option<&Vec<u8>>)
        ensures
            match r {
                Some(v) => self.raw_map().contains_key(id) && *v == self.raw_map()[id],
                None => !self.raw_map().contains_key(id),
            },
    {
        self.raw_data.get(&id)
    }
}

impl Default for FileRegistory {
    fn default() -> (r: Self)
        ensures
            r.raw_map() == Map::<u32, Vec<u8>>::empty(),
            r.next_spec() == 0,
    {
        FileRegistory { raw_data: HashMap::new(), next_id: 0 }
    }
}

} // verus!
