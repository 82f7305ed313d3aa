//! The ledger of storage a runtime can no longer prove it released.
//!
//! A source whose deletion retries ran out, or whose commit outcome was never
//! confirmed, keeps its byte reservation and identity slot charged for the
//! runtime's whole life. The ledger only ever grows: nothing in it is released
//! before the runtime ends.
use vstd::prelude::*;

verus! {

/// The total of a sequence of byte charges.
pub open spec fn total(charges: Seq<usize>) -> nat
    decreases charges.len(),
{
    if charges.len() == 0 {
        0
    } else {
        total(charges.drop_last()) + charges.last() as nat
    }
}

/// Charges of unreclaimed sources, in the order they were given up on.
pub struct UnreclaimedLedger {
    charges: Vec<usize>,
}

impl View for UnreclaimedLedger {
    type V = Seq<usize>;

    closed spec fn view(&self) -> Seq<usize> {
        self.charges@
    }
}

/// Appending charges adds their total.
pub proof fn total_of_concat(before: Seq<usize>, added: Seq<usize>)
    ensures
        total(before + added) == total(before) + total(added),
    decreases added.len(),
{
    if added.len() > 0 {
        total_of_concat(before, added.drop_last());
        assert((before + added).drop_last() =~= before + added.drop_last());
    } else {
        assert(before + added =~= before);
    }
}

impl UnreclaimedLedger {
    /// An empty ledger.
    pub fn new() -> (ledger: Self)
        ensures
            ledger@ == Seq::<usize>::empty(),
    {
        UnreclaimedLedger { charges: Vec::new() }
    }

    /// Keep one more source's byte charge for the runtime's life.
    pub fn record(&mut self, bytes: usize)
        ensures
            final(self)@ == old(self)@.push(bytes),
    {
        self.charges.push(bytes);
    }

    /// Keep every given charge, in order, after those already held.
    pub fn absorb(&mut self, charges: Vec<usize>)
        ensures
            final(self)@ == old(self)@ + charges@,
    {
        let mut charges = charges;
        self.charges.append(&mut charges);
    }

    /// Sources whose reservations remain charged.
    pub fn unreclaimed_sources(&self) -> (count: usize)
        ensures
            count == self@.len(),
    {
        self.charges.len()
    }

    /// The byte reservations retained for unreclaimed sources. Their total is
    /// bounded by the storage budget they were charged against.
    pub fn unreclaimed_reserved_bytes(&self) -> (bytes: usize)
        requires
            total(self@) <= usize::MAX,
        ensures
            bytes == total(self@),
    {
        let mut sum: usize = 0;
        let mut i: usize = 0;
        while i < self.charges.len()
            invariant
                i <= self.charges@.len(),
                sum == total(self.charges@.take(i as int)),
                total(self.charges@) <= usize::MAX,
            decreases self.charges@.len() - i,
        {
            proof {
                assert(self.charges@.take(i + 1).drop_last() =~= self.charges@.take(i as int));
                total_of_concat(self.charges@.take(i + 1), self.charges@.skip(i + 1));
                assert(self.charges@.take(i + 1) + self.charges@.skip(i + 1) =~= self.charges@);
            }
            sum = sum + self.charges[i];
            i += 1;
        }
        assert(self.charges@.take(i as int) =~= self.charges@);
        sum
    }
}

/// The ledger only grows: after recording or absorbing, every charge held
/// before is still held, in place, and the retained total has not decreased.
pub proof fn ledger_only_grows(before: Seq<usize>, added: Seq<usize>)
    ensures
        (before + added).take(before.len() as int) == before,
        total(before + added) >= total(before),
{
    total_of_concat(before, added);
    assert((before + added).take(before.len() as int) =~= before);
}

} // verus!
