//! The continuation journal: the applied mutations an observer of a state
//! transfer reads after its checkpoint, in order, within a slot and byte
//! budget.
//!
//! Each applied output chunk or resize is one record with the next sequence
//! number. Records are kept only while some observer is registered. When a
//! new record does not fit the free slots and bytes, the oldest records are
//! evicted until it does; their reservations return to the budget, and the
//! journal's replayable start moves past them. If the record does not fit even
//! with nothing left, it is dropped and the start moves past it. An event out
//! of order invalidates the journal.
use std::collections::VecDeque;
use vstd::prelude::*;

verus! {

/// What an applied mutation is charged: an output chunk by its bytes, a
/// resize by nothing but its slot.
#[derive(Debug, Clone, Copy, PartialEq, Eq, Structural)]
pub enum RecordCharge {
    Output { bytes: u64 },
    Resize { generation: u64 },
}

/// One retained mutation: its sequence number and its byte charge.
#[derive(Debug, Clone, Copy, PartialEq, Eq, Structural)]
pub struct Record {
    pub sequence: u64,
    pub bytes: u64,
}

/// The journal as plain values.
pub struct JournalView {
    /// Whether mutations are still being recorded.
    pub accepting: bool,
    /// Whether an out-of-order event broke the continuation.
    pub invalidated: bool,
    /// Registered observers.
    pub observers: u64,
    /// Sequence number of the next event.
    pub next: u64,
    /// First sequence number an observer can still read.
    pub start: u64,
    /// Processed output offset of the last applied output.
    pub processed: u64,
    /// Generation of the last applied resize.
    pub generation: u64,
    /// Retained records, oldest first.
    pub records: Seq<Record>,
}

/// The ordered continuation of one projection.
pub struct Journal {
    accepting: bool,
    invalidated: bool,
    observers: u64,
    next: u64,
    start: u64,
    processed: u64,
    generation: u64,
    records: VecDeque<Record>,
}

impl View for Journal {
    type V = JournalView;

    closed spec fn view(&self) -> JournalView {
        JournalView {
            accepting: self.accepting,
            invalidated: self.invalidated,
            observers: self.observers,
            next: self.next,
            start: self.start,
            processed: self.processed,
            generation: self.generation,
            records: self.records@,
        }
    }
}

/// The sequence numbers of some records, in order.
pub open spec fn sequences(records: Seq<Record>) -> Seq<u64> {
    records.map_values(|record: Record| record.sequence)
}

/// A free amount, capped at `u64::MAX`: the budgets are checked against
/// charges of at most that size, so a capped amount decides the same way.
pub open spec fn cap(amount: int) -> int {
    if amount > u64::MAX {
        u64::MAX as int
    } else {
        amount
    }
}

/// Place `record` behind `records` with `slots` and `bytes` free: evict the
/// oldest records, returning their reservations, until one slot and the
/// record's bytes fit. Returns the records kept (with `record` last when it
/// fit) and the sequence numbers evicted, oldest first. If nothing is left
/// and it still does not fit, the record is not kept.
pub open spec fn place(records: Seq<Record>, slots: int, bytes: int, record: Record) -> (
    Seq<Record>,
    Seq<u64>,
)
    decreases records.len(),
{
    if 1 <= slots && record.bytes <= bytes {
        (records.push(record), Seq::empty())
    } else if records.len() == 0 {
        (Seq::empty(), Seq::empty())
    } else {
        let (kept, evicted) = place(
            records.drop_first(),
            cap(slots + 1),
            cap(bytes + records[0].bytes),
            record,
        );
        (kept, seq![records[0].sequence] + evicted)
    }
}

/// Whether an event is in order: output needs a processed offset that does
/// not go back, a resize needs a newer generation, and sequence numbers must
/// not run out.
pub open spec fn in_order(view: JournalView, charge: RecordCharge, processed: Option<u64>) -> bool {
    &&& view.next < u64::MAX
    &&& match charge {
        RecordCharge::Output { .. } => processed matches Some(offset) && view.processed <= offset,
        RecordCharge::Resize { generation } => view.generation < generation,
    }
}

/// The journal after appending one applied mutation, and the sequence
/// numbers it dropped.
///
/// A journal that no longer accepts events is unchanged. An event out of
/// order invalidates the journal and drops every record. Otherwise the event
/// takes the next sequence number; with no observer nothing is kept and the
/// start moves past it; with observers it is placed as `place` says, and the
/// start moves past every evicted record, or past the event itself if it did
/// not fit.
pub open spec fn append_spec(
    view: JournalView,
    charge: RecordCharge,
    processed: Option<u64>,
    slots_free: u64,
    bytes_free: u64,
) -> (JournalView, Seq<u64>) {
    if !view.accepting {
        (view, Seq::empty())
    } else if !in_order(view, charge, processed) {
        (
            JournalView { accepting: false, invalidated: true, records: Seq::empty(), ..view },
            sequences(view.records),
        )
    } else {
        let sequence = view.next;
        let after = (view.next + 1) as u64;
        let advanced = match charge {
            RecordCharge::Output { .. } => JournalView {
                next: after,
                processed: processed->Some_0,
                ..view
            },
            RecordCharge::Resize { generation } => JournalView { next: after, generation, ..view },
        };
        if view.observers == 0 {
            (JournalView { start: after, ..advanced }, Seq::empty())
        } else {
            let bytes = match charge {
                RecordCharge::Output { bytes } => bytes,
                RecordCharge::Resize { .. } => 0,
            };
            let record = Record { sequence, bytes };
            let (kept, evicted) = place(view.records, slots_free as int, bytes_free as int, record);
            let stored = kept.len() > 0 && kept.last() == record;
            let start = if !stored {
                after
            } else if evicted.len() > 0 {
                (evicted.last() + 1) as u64
            } else {
                view.start
            };
            (JournalView { records: kept, start, ..advanced }, evicted)
        }
    }
}

/// Every retained record has a sequence number below `next`.
pub open spec fn sequences_below(records: Seq<Record>, next: u64) -> bool {
    forall|i: int| 0 <= i < records.len() ==> #[trigger] records[i].sequence < next
}

/// `records` hold exactly the sequence numbers from `start` up to `next`,
/// in order, with no gap.
pub open spec fn contiguous(records: Seq<Record>, start: u64, next: u64) -> bool {
    &&& start <= next
    &&& records.len() == next - start
    &&& forall|i: int| 0 <= i < records.len() ==> #[trigger] records[i].sequence == start + i
}

/// The journal's invariant: while it accepts events its records are exactly
/// the mutations from its start to its end; once it stops, and while nobody
/// observes, it retains nothing.
pub open spec fn journal_wf(view: JournalView) -> bool {
    &&& view.accepting ==> contiguous(view.records, view.start, view.next)
    &&& !view.accepting ==> view.records.len() == 0
    &&& view.observers == 0 ==> view.records.len() == 0
}

impl Journal {
    /// The journal's invariant.
    pub open spec fn wf(&self) -> bool {
        journal_wf(self@)
    }

    /// An empty journal accepting events from sequence zero.
    pub fn new() -> (journal: Self)
        ensures
            journal.wf(),
            journal@ == (JournalView {
                accepting: true,
                invalidated: false,
                observers: 0,
                next: 0,
                start: 0,
                processed: 0,
                generation: 0,
                records: Seq::empty(),
            }),
    {
        Journal {
            accepting: true,
            invalidated: false,
            observers: 0,
            next: 0,
            start: 0,
            processed: 0,
            generation: 0,
            records: VecDeque::new(),
        }
    }

    /// Register an observer, which reads from the current end.
    pub fn open(&mut self) -> (start: Option<u64>)
        requires
            old(self).wf(),
        ensures
            final(self).wf(),
            !old(self)@.accepting || old(self)@.observers == u64::MAX ==> {
                &&& start is None
                &&& final(self)@ == old(self)@
            },
            old(self)@.accepting && old(self)@.observers < u64::MAX ==> {
                &&& start == Some(old(self)@.next)
                &&& final(self)@ == (JournalView {
                    observers: (old(self)@.observers + 1) as u64,
                    ..old(self)@
                })
            },
    {
        if !self.accepting || self.observers == u64::MAX {
            return None;
        }
        self.observers = self.observers + 1;
        Some(self.next)
    }

    /// Deregister an observer. When the last one leaves, every record is
    /// dropped and the start moves to the end.
    pub fn remove(&mut self)
        requires
            old(self).wf(),
        ensures
            final(self).wf(),
            old(self)@.observers <= 1 ==> final(self)@ == (JournalView {
                observers: 0,
                records: Seq::empty(),
                start: old(self)@.next,
                ..old(self)@
            }),
            old(self)@.observers > 1 ==> final(self)@ == (JournalView {
                observers: (old(self)@.observers - 1) as u64,
                ..old(self)@
            }),
    {
        if self.observers <= 1 {
            self.observers = 0;
            self.records = VecDeque::new();
            self.start = self.next;
        } else {
            self.observers = self.observers - 1;
        }
    }

    /// Stop recording and drop every record.
    pub fn close(&mut self)
        requires
            old(self).wf(),
        ensures
            final(self).wf(),
            final(self)@ == (JournalView { accepting: false, records: Seq::empty(), ..old(self)@ }),
    {
        self.accepting = false;
        self.records = VecDeque::new();
    }

    /// Retained records, oldest first.
    pub fn records(&self) -> (records: Vec<Record>)
        ensures
            records@ == self@.records,
    {
        let mut records: Vec<Record> = Vec::new();
        let mut i: usize = 0;
        while i < self.records.len()
            invariant
                i <= self.records@.len(),
                records@ == self.records@.take(i as int),
            decreases self.records@.len() - i,
        {
            records.push(self.records[i]);
            i += 1;
            assert(records@ =~= self.records@.take(i as int));
        }
        assert(self.records@.take(i as int) =~= self.records@);
        records
    }

    /// Append one applied mutation, as `append_spec` says, and return the
    /// sequence numbers of the records it dropped, oldest first.
    pub fn append(
        &mut self,
        charge: RecordCharge,
        processed: Option<u64>,
        slots_free: u64,
        bytes_free: u64,
    ) -> (evicted: Vec<u64>)
        requires
            old(self).wf(),
        ensures
            final(self).wf(),
            (final(self)@, evicted@) == append_spec(
                old(self)@,
                charge,
                processed,
                slots_free,
                bytes_free,
            ),
    {
        let mut evicted: Vec<u64> = Vec::new();
        if !self.accepting {
            return evicted;
        }
        let ordered = self.next < u64::MAX && match charge {
            RecordCharge::Output { .. } => match processed {
                Some(offset) => self.processed <= offset,
                None => false,
            },
            RecordCharge::Resize { generation } => self.generation < generation,
        };
        if !ordered {
            let ghost dropped = self.records@;
            while self.records.len() > 0
                invariant
                    evicted@ + sequences(self.records@)
                        == sequences(dropped),
                    self.accepting == old(self).accepting,
                    self.invalidated == old(self).invalidated,
                    self.observers == old(self).observers,
                    self.next == old(self).next,
                    self.start == old(self).start,
                    self.processed == old(self).processed,
                    self.generation == old(self).generation,
                decreases self.records@.len(),
            {
                let ghost before = self.records@;
                if let Some(record) = self.records.pop_front() {
                    evicted.push(record.sequence);
                    proof {
                        assert(sequences(before) =~= seq![
                            record.sequence,
                        ] + sequences(self.records@));
                    }
                }
            }
            assert(self.records@ =~= Seq::<Record>::empty());
            assert(sequences(self.records@) =~= Seq::<u64>::empty());
            assert(evicted@ =~= sequences(dropped));
            self.accepting = false;
            self.invalidated = true;
            return evicted;
        }
        let sequence = self.next;
        let after = self.next + 1;
        self.next = after;
        let bytes = match charge {
            RecordCharge::Output { bytes } => {
                self.processed = match processed {
                    Some(offset) => offset,
                    None => self.processed,
                };
                bytes
            },
            RecordCharge::Resize { generation } => {
                self.generation = generation;
                0
            },
        };
        if self.observers == 0 {
            self.start = after;
            return evicted;
        }
        let record = Record { sequence, bytes };
        let ghost initial = self.records@;
        assert(sequences_below(initial, sequence)) by {
            assert forall|i: int| 0 <= i < initial.len() implies #[trigger] initial[i].sequence
                < sequence by {
                assert(initial[i].sequence == old(self)@.start + i);
            }
        }
        let ghost target = place(initial, slots_free as int, bytes_free as int, record);
        let ghost fields = (self.accepting, self.invalidated, self.observers, self.next, self.start,
            self.processed, self.generation);
        let mut slots: u64 = slots_free;
        let mut room: u64 = bytes_free;
        loop
            invariant_except_break
                target == ({
                    let (kept, rest) = place(self.records@, slots as int, room as int, record);
                    (kept, evicted@ + rest)
                }),
                sequences_below(self.records@, sequence),
                record == (Record { sequence, bytes }),
                fields == (self.accepting, self.invalidated, self.observers, self.next, self.start,
                    self.processed, self.generation),
                evicted@.len() > 0 ==> evicted@.last() < sequence,
            ensures
                self.records@ == target.0,
                evicted@ == target.1,
                fields == (self.accepting, self.invalidated, self.observers, self.next, self.start,
                    self.processed, self.generation),
                evicted@.len() > 0 ==> evicted@.last() < sequence,
            decreases self.records@.len(),
        {
            let ghost current = self.records@;
            if slots >= 1 && bytes <= room {
                assert(place(current, slots as int, room as int, record) == (current.push(record),
                    Seq::<u64>::empty()));
                self.records.push_back(record);
                assert(evicted@ + Seq::<u64>::empty() =~= evicted@);
                break;
            }
            match self.records.pop_front() {
                None => {
                    assert(place(current, slots as int, room as int, record) == (Seq::<Record>::empty(),
                        Seq::<u64>::empty()));
                    assert(evicted@ + Seq::<u64>::empty() =~= evicted@);
                    break;
                },
                Some(oldest) => {
                    assert(oldest == current[0]);
                    assert(current.drop_first() =~= self.records@);
                    let ghost before = evicted@;
                    evicted.push(oldest.sequence);
                    slots = slots.saturating_add(1);
                    room = room.saturating_add(oldest.bytes);
                    proof {
                        let (k2, e2) = place(self.records@, slots as int, room as int, record);
                        assert(before + (seq![oldest.sequence] + e2) =~= evicted@ + e2);
                        assert(current[0].sequence < sequence);
                        assert forall|i: int| 0 <= i < self.records@.len() implies #[trigger] self.records@[i].sequence < sequence by {
                            assert(self.records@[i] == current[i + 1]);
                        }
                    }
                },
            }
        }
        let stored = self.records.len() > 0 && self.records[self.records.len() - 1] == record;
        if !stored {
            self.start = after;
        } else if evicted.len() > 0 {
            self.start = evicted[evicted.len() - 1] + 1;
        }
        proof {
            lemma_place_contiguous(
                initial,
                old(self)@.start,
                old(self)@.next,
                slots_free as int,
                bytes_free as int,
                record,
            );
        }
        evicted
    }
}

/// Placing the next record behind contiguous records leaves contiguous
/// records: the survivors and the new record, from the first survivor (or
/// from past the new record, when it was dropped).
pub proof fn lemma_place_contiguous(
    records: Seq<Record>,
    start: u64,
    next: u64,
    slots: int,
    bytes: int,
    record: Record,
)
    requires
        contiguous(records, start, next),
        record.sequence == next,
        next < u64::MAX,
    ensures
        ({
            let (kept, evicted) = place(records, slots, bytes, record);
            let stored = kept.len() > 0 && kept.last() == record;
            let new_start = if !stored {
                (next + 1) as u64
            } else if evicted.len() > 0 {
                (evicted.last() + 1) as u64
            } else {
                start
            };
            contiguous(kept, new_start, (next + 1) as u64)
        }),
{
    eviction_is_oldest_first(records, slots, bytes, record);
    let (kept, evicted) = place(records, slots, bytes, record);
    let n = evicted.len() as int;
    if kept.len() > 0 {
        assert(kept == records.skip(n).push(record));
        if n > 0 {
            assert(evicted.last() == sequences(records.take(n))[n - 1]);
            assert(sequences(records.take(n))[n - 1] == records[n - 1].sequence);
        }
        assert forall|i: int| 0 <= i < kept.len() implies #[trigger] kept[i].sequence == (start + n) + i by {
            if i < records.len() - n {
                assert(kept[i] == records[n + i]);
            }
        }
    }
}

/// Eviction is oldest first: whatever `place` evicts is a prefix of the
/// retained records, and whatever it keeps of them is the rest, in order.
pub proof fn eviction_is_oldest_first(records: Seq<Record>, slots: int, bytes: int, record: Record)
    ensures
        ({
            let (kept, evicted) = place(records, slots, bytes, record);
            let n = evicted.len() as int;
            &&& n <= records.len()
            &&& evicted == sequences(records.take(n))
            &&& (kept == records.skip(n).push(record) || (kept.len() == 0 && n == records.len()))
        }),
    decreases records.len(),
{
    let (kept, evicted) = place(records, slots, bytes, record);
    if 1 <= slots && record.bytes <= bytes {
        assert(records.skip(0) =~= records);
        assert(sequences(records.take(0)) =~= Seq::<u64>::empty());
    } else if records.len() == 0 {
        assert(sequences(records.take(0)) =~= Seq::<u64>::empty());
    } else {
        let rest = records.drop_first();
        eviction_is_oldest_first(rest, cap(slots + 1), cap(bytes + records[0].bytes), record);
        let (k2, e2) = place(rest, cap(slots + 1), cap(bytes + records[0].bytes), record);
        let m = e2.len() as int;
        assert(sequences(records.take(m + 1)) =~= seq![records[0].sequence]
            + sequences(rest.take(m)));
        assert(records.skip(m + 1) =~= rest.skip(m));
    }
}

/// What reading the journal at a cursor gives.
#[derive(Debug, Clone, Copy, PartialEq, Eq, Structural)]
pub enum JournalRead {
    /// The mutation at the cursor.
    Event(Record),
    /// Nothing yet: the cursor is at the end of a journal still recording.
    Pending,
    /// The cursor is at the end of a journal that stopped recording.
    End,
    /// The mutation at the cursor is gone; request a fresh transfer. `oldest`
    /// is the first one still readable.
    Resync { oldest: u64 },
    /// Nobody observes this journal.
    Closed,
    /// The cursor is beyond the end: it belongs to no state of this journal.
    Unknown,
}

/// Reading at `cursor` for an observer that started at `start`: with no
/// observer the read is `Closed`; a cursor beyond the end is `Unknown`; an
/// invalidated journal asks to resync from its end; a cursor before the
/// observer's start asks to resync from that start, and one before the
/// journal's start (evicted) from the journal's start; at the end the read is
/// `Pending` while recording and `End` afterwards; otherwise it is the
/// mutation at the cursor.
pub open spec fn read_spec(view: JournalView, start: u64, cursor: u64) -> JournalRead {
    if view.observers == 0 {
        JournalRead::Closed
    } else if cursor > view.next {
        JournalRead::Unknown
    } else if view.invalidated {
        JournalRead::Resync { oldest: view.next }
    } else if cursor < start {
        JournalRead::Resync { oldest: start }
    } else if cursor == view.next {
        if view.accepting {
            JournalRead::Pending
        } else {
            JournalRead::End
        }
    } else if cursor < view.start || !view.accepting {
        JournalRead::Resync { oldest: view.start }
    } else {
        JournalRead::Event(view.records[cursor - view.start])
    }
}

impl Journal {
    /// Read at `cursor` for an observer that started at `start`, without
    /// advancing anything. See `read_spec`.
    pub fn read(&self, start: u64, cursor: u64) -> (read: JournalRead)
        requires
            self.wf(),
        ensures
            read == read_spec(self@, start, cursor),
    {
        if self.observers == 0 {
            return JournalRead::Closed;
        }
        if cursor > self.next {
            return JournalRead::Unknown;
        }
        if self.invalidated {
            return JournalRead::Resync { oldest: self.next };
        }
        if cursor < start {
            return JournalRead::Resync { oldest: start };
        }
        if cursor == self.next {
            return if self.accepting {
                JournalRead::Pending
            } else {
                JournalRead::End
            };
        }
        if cursor < self.start || !self.accepting {
            return JournalRead::Resync { oldest: self.start };
        }
        JournalRead::Event(self.records[(cursor - self.start) as usize])
    }
}

/// An observer reads every mutation after its start, in order, or is told to
/// resync: in a recording journal, each cursor from the observer's start up to
/// the end reads the mutation with exactly that sequence number, unless it was
/// evicted, in which case the read asks to resync from the first mutation
/// still held; and the end reads `Pending`.
pub proof fn observers_read_every_mutation_in_order(view: JournalView, start: u64, cursor: u64)
    requires
        journal_wf(view),
        view.accepting,
        !view.invalidated,
        view.observers > 0,
        start <= cursor <= view.next,
    ensures
        cursor == view.next ==> read_spec(view, start, cursor) == JournalRead::Pending,
        cursor < view.next && view.start <= cursor ==> (read_spec(view, start, cursor) matches JournalRead::Event(record)
            && record.sequence == cursor),
        cursor < view.start ==> read_spec(view, start, cursor) == (JournalRead::Resync {
            oldest: view.start,
        }),
{
    if cursor < view.next && view.start <= cursor {
        assert(view.records[cursor - view.start].sequence == view.start + (cursor - view.start));
    }
}

} // verus!
