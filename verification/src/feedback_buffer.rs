//! A buffer that collects the mappings whose feedback is due and hands them out in batches.

use std::time::Instant;
use vstd::prelude::*;
use crate::clock::as_nanos;
use crate::clock::elapsed;
use crate::clock::now;

verus! {

/// The time during which mappings are collected before they are handed out: 10
/// milliseconds, in nanoseconds.
pub const BUFFER_DURATION: u128 = 10_000_000;

/// The two compartments that mappings live in.
#[derive(Copy, Clone, Debug, PartialEq, Eq, Hash, Structural)]
pub enum MappingCompartment {
    ControllerMappings,
    MainMappings,
}

/// The identity of a mapping.
#[derive(Copy, Clone, Debug, PartialEq, Eq, Hash, Structural)]
pub struct MappingId {
    pub uuid: u128,
}

/// Collects qualified mapping ids. No id is held twice.
#[derive(Debug)]
pub struct FeedbackBuffer {
    last_buffer_start: Instant,
    buffered_mapping_ids: Vec<(MappingCompartment, MappingId)>,
}

impl FeedbackBuffer {
    /// No id is held twice.
    pub closed spec fn wf(&self) -> bool {
        self.buffered_mapping_ids@.no_duplicates()
    }

    /// The moment at which the buffer started to collect.
    pub closed spec fn started(&self) -> Instant {
        self.last_buffer_start
    }

    /// The ids that are held.
    pub closed spec fn ids(&self) -> Set<(MappingCompartment, MappingId)> {
        self.buffered_mapping_ids@.to_set()
    }

    /// Creates an empty buffer.
    pub fn new() -> (buffer: Self)
        ensures
            buffer.wf(),
            buffer.ids() == Set::<(MappingCompartment, MappingId)>::empty(),
    {
        let buffer = Self { last_buffer_start: now(), buffered_mapping_ids: Vec::new() };
        assert(buffer.buffered_mapping_ids@.to_set() =~= Set::<
            (MappingCompartment, MappingId),
        >::empty());
        buffer
    }

    /// Forgets all ids and starts to collect anew.
    pub fn reset_all(&mut self)
        ensures
            final(self).wf(),
            final(self).ids() == Set::<(MappingCompartment, MappingId)>::empty(),
    {
        self.buffered_mapping_ids = Vec::new();
        self.last_buffer_start = now();
        assert(self.buffered_mapping_ids@.to_set() =~= Set::<
            (MappingCompartment, MappingId),
        >::empty());
    }

    /// Forgets the ids of one compartment and starts to collect anew.
    pub fn reset_all_in_compartment(&mut self, compartment: MappingCompartment)
        requires
            old(self).wf(),
        ensures
            final(self).wf(),
            final(self).ids() == old(self).ids().filter(
                |id: (MappingCompartment, MappingId)| id.0 != compartment,
            ),
    {
        let mut kept: Vec<(MappingCompartment, MappingId)> = Vec::new();
        let mut i: usize = 0;
        while i < self.buffered_mapping_ids.len()
            invariant
                i <= self.buffered_mapping_ids@.len(),
                self.buffered_mapping_ids@ == old(self).buffered_mapping_ids@,
                self.buffered_mapping_ids@.no_duplicates(),
                kept@.no_duplicates(),
                forall|id: (MappingCompartment, MappingId)|
                    kept@.contains(id) <==> (id.0 != compartment && exists|j: int|
                        0 <= j < i && self.buffered_mapping_ids@[j] == id),
            decreases self.buffered_mapping_ids@.len() - i,
        {
            let id = self.buffered_mapping_ids[i];
            let ghost before = kept@;
            if id.0 != compartment {
                kept.push(id);
                proof {
                    assert forall|a: int, b: int|
                        0 <= a < kept@.len() && 0 <= b < kept@.len() && a != b implies kept@[a]
                        != kept@[b] by {
                        if a == before.len() {
                            assert(before.contains(kept@[b]));
                        } else if b == before.len() {
                            assert(before.contains(kept@[a]));
                        }
                    }
                }
            }
            proof {
                assert forall|other: (MappingCompartment, MappingId)|
                    kept@.contains(other) <==> (other.0 != compartment && exists|j: int|
                        0 <= j < i + 1 && self.buffered_mapping_ids@[j] == other) by {
                    if kept@.contains(other) {
                        let k = choose|k: int| 0 <= k < kept@.len() && kept@[k] == other;
                        if k < before.len() {
                            assert(before.contains(other));
                        } else {
                            assert(self.buffered_mapping_ids@[i as int] == other);
                        }
                    }
                    if other.0 != compartment && exists|j: int|
                        0 <= j < i + 1 && self.buffered_mapping_ids@[j] == other {
                        let j = choose|j: int|
                            0 <= j < i + 1 && self.buffered_mapping_ids@[j] == other;
                        if j < i {
                            assert(before.contains(other));
                            let k = choose|k: int| 0 <= k < before.len() && before[k] == other;
                            assert(kept@[k] == other);
                        } else {
                            assert(kept@[kept@.len() - 1] == other);
                        }
                    }
                }
            }
            i = i + 1;
        }
        proof {
            let filtered = old(self).ids().filter(
                |id: (MappingCompartment, MappingId)| id.0 != compartment,
            );
            assert forall|id: (MappingCompartment, MappingId)|
                kept@.to_set().contains(id) <==> filtered.contains(id) by {
                if filtered.contains(id) {
                    assert(old(self).buffered_mapping_ids@.contains(id));
                }
            }
            assert(kept@.to_set() =~= filtered);
        }
        self.buffered_mapping_ids = kept;
        self.last_buffer_start = now();
    }

    /// Returns the number of ids that are held.
    pub fn len(&self) -> (count: usize)
        requires
            self.wf(),
        ensures
            self.ids().finite(),
            count == self.ids().len(),
    {
        proof {
            self.buffered_mapping_ids@.unique_seq_to_set();
            vstd::seq_lib::seq_to_set_is_finite(self.buffered_mapping_ids@);
        }
        self.buffered_mapping_ids.len()
    }

    /// Adds the id of a mapping, unless it is held already. The buffer goes on collecting:
    /// the moment at which it started stays.
    pub fn buffer_feedback_for_mapping(
        &mut self,
        compartment: MappingCompartment,
        mapping_id: MappingId,
    )
        requires
            old(self).wf(),
        ensures
            final(self).wf(),
            final(self).ids() == old(self).ids().insert((compartment, mapping_id)),
            final(self).started() == old(self).started(),
    {
        let mut i: usize = 0;
        while i < self.buffered_mapping_ids.len()
            invariant
                i <= self.buffered_mapping_ids@.len(),
                self.buffered_mapping_ids@ == old(self).buffered_mapping_ids@,
                self.buffered_mapping_ids@.no_duplicates(),
                forall|j: int|
                    0 <= j < i ==> self.buffered_mapping_ids@[j] != (compartment, mapping_id),
            decreases self.buffered_mapping_ids@.len() - i,
        {
            let id = self.buffered_mapping_ids[i];
            if id.0 == compartment && id.1.uuid == mapping_id.uuid {
                proof {
                    assert(self.buffered_mapping_ids@[i as int] == (compartment, mapping_id));
                    assert(self.buffered_mapping_ids@.contains((compartment, mapping_id)));
                    assert(self.ids() =~= old(self).ids().insert((compartment, mapping_id)));
                }
                return ;
            }
            i = i + 1;
        }
        proof {
            self.buffered_mapping_ids@.lemma_push_to_set_commute((compartment, mapping_id));
        }
        self.buffered_mapping_ids.push((compartment, mapping_id));
    }

    /// Hands out the ids that were collected, if the buffer has collected for longer than
    /// the buffer duration, and starts to collect anew. Otherwise the buffer stays as it
    /// is, and so does the moment at which it started to collect.
    pub fn poll(&mut self) -> (batch: Option<Vec<(MappingCompartment, MappingId)>>)
        requires
            old(self).wf(),
        ensures
            final(self).wf(),
            batch.is_none() ==> final(self).ids() == old(self).ids() && final(self).started()
                == old(self).started(),
            batch matches Some(ids) ==> ids@.no_duplicates() && ids@.to_set() == old(self).ids()
                && final(self).ids() == Set::<(MappingCompartment, MappingId)>::empty(),
    {
        let elapsed = elapsed(&self.last_buffer_start);
        self.poll_after(as_nanos(&elapsed))
    }

    /// Hands out the ids that were collected, if `elapsed` nanoseconds are longer than the
    /// buffer duration, and starts to collect anew. Otherwise the buffer stays as it is, and
    /// so does the moment at which it started to collect.
    pub fn poll_after(&mut self, elapsed: u128) -> (batch: Option<
        Vec<(MappingCompartment, MappingId)>,
    >)
        requires
            old(self).wf(),
        ensures
            final(self).wf(),
            batch.is_some() <==> elapsed > BUFFER_DURATION,
            batch.is_none() ==> final(self).ids() == old(self).ids() && final(self).started()
                == old(self).started(),
            batch matches Some(ids) ==> ids@.no_duplicates() && ids@.to_set() == old(self).ids()
                && final(self).ids() == Set::<(MappingCompartment, MappingId)>::empty(),
    {
        if elapsed <= BUFFER_DURATION {
            return None;
        }
        self.last_buffer_start = now();
        let mut old_ids: Vec<(MappingCompartment, MappingId)> = Vec::new();
        std::mem::swap(&mut self.buffered_mapping_ids, &mut old_ids);
        assert(self.buffered_mapping_ids@.to_set() =~= Set::<
            (MappingCompartment, MappingId),
        >::empty());
        Some(old_ids)
    }
}

impl Default for FeedbackBuffer {
    fn default() -> (buffer: Self)
        ensures
            buffer.wf(),
            buffer.ids() == Set::<(MappingCompartment, MappingId)>::empty(),
    {
        FeedbackBuffer::new()
    }
}

} // verus!
