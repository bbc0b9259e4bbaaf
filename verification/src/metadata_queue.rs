//! The metadata mirror of the path queue: an ordered sequence of track
//! records kept index-aligned with the pending playback order, plus the
//! record currently shown as playing. The head of the sequence is always the
//! current track; there is no separate cursor to fall out of step.

use crate::metadata::{FileMetadata, MetaView};
use vstd::prelude::*;

verus! {

/// Ordered track records, head first, with the current display record.
pub struct MetadataQueue {
    pub current: FileMetadata,
    pub queue: Vec<FileMetadata>,
}

impl MetadataQueue {
    /// The records in queue order, as mathematical values.
    pub open spec fn metas(self) -> Seq<MetaView> {
        self.queue@.map_values(|m: FileMetadata| m@)
    }

    /// An empty queue showing the empty record.
    pub fn new() -> (q: MetadataQueue)
        ensures
            q.metas() == Seq::<MetaView>::empty(),
            q.current@ == MetaView::empty(),
    {
        let q = MetadataQueue { current: FileMetadata::new(), queue: Vec::new() };
        proof {
            assert(q.metas() =~= Seq::<MetaView>::empty());
        }
        q
    }

    /// Makes `data` the current record: discards the prior sequence first
    /// when `clear` is set, inserts `data` at the head, and shows it.
    pub fn update_current(&mut self, data: &FileMetadata, clear: bool)
        ensures
            final(self).current@ == data@,
            final(self).metas() == if clear {
                seq![data@]
            } else {
                seq![data@] + old(self).metas()
            },
    {
        if clear {
            self.queue.clear();
        }
        self.queue.insert(0, data.clone());
        self.current = data.clone();
        proof {
            if clear {
                assert(final(self).metas() =~= seq![data@]);
            } else {
                assert(final(self).metas() =~= seq![data@] + old(self).metas());
            }
        }
    }

    /// Appends the record for a queued track to the tail; the current record
    /// is untouched.
    pub fn queue_metadata(&mut self, data: &FileMetadata)
        ensures
            final(self).current == old(self).current,
            final(self).metas() == old(self).metas().push(data@),
    {
        self.queue.push(data.clone());
        proof {
            assert(final(self).metas() =~= old(self).metas().push(data@));
        }
    }

    /// Removes the head record. When a new head exists it becomes current and
    /// is returned; when the sequence empties, the current record resets to
    /// the empty record and nothing is returned.
    pub fn pop_next(&mut self) -> (r: Option<FileMetadata>)
        ensures
            final(self).metas() == if old(self).metas().len() > 0 {
                old(self).metas().skip(1)
            } else {
                Seq::<MetaView>::empty()
            },
            match r {
                Some(m) => {
                    &&& old(self).metas().len() >= 2
                    &&& m@ == old(self).metas()[1]
                    &&& final(self).current@ == old(self).metas()[1]
                },
                None => {
                    &&& old(self).metas().len() <= 1
                    &&& final(self).current@ == MetaView::empty()
                },
            },
    {
        if !self.queue.is_empty() {
            self.queue.remove(0);
        }
        let r = if self.queue.len() > 0 {
            let next = self.queue[0].clone();
            self.current = next.clone();
            Some(next)
        } else {
            self.current = FileMetadata::new();
            None
        };
        proof {
            if old(self).metas().len() > 0 {
                assert(final(self).metas() =~= old(self).metas().skip(1));
            } else {
                assert(final(self).metas() =~= Seq::<MetaView>::empty());
            }
        }
        r
    }

    /// The display name of every queued record, in queue order.
    pub fn list_items(&self) -> (names: Vec<String>)
        ensures
            names@.len() == self.metas().len(),
            forall|i: int|
                0 <= i < names@.len() ==> (#[trigger] names@[i])@ == self.metas()[i].display_name(),
    {
        let mut names: Vec<String> = Vec::new();
        let mut k: usize = 0;
        while k < self.queue.len()
            invariant
                k <= self.queue.len(),
                names@.len() == k,
                forall|i: int|
                    0 <= i < k ==> (#[trigger] names@[i])@ == self.metas()[i].display_name(),
            decreases self.queue.len() - k,
        {
            let name = self.queue[k].display_title();
            names.push(name);
            k = k + 1;
        }
        names
    }
}

} // verus!
