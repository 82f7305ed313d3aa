//! Lock-order tracking for the projection's three lock tiers.
//!
//! The projection's locks form three tiers acquired downward and never upward:
//! the native workspace, then the admission queue, then leaves. The tracker
//! records the tiers a thread holds and every nesting it has seen, so the
//! documented nestings can be shown to occur as well as never to invert.
use vstd::prelude::*;

verus! {

/// Where a lock sits in the documented order. Lower is acquired first.
#[derive(Debug, Clone, Copy, PartialEq, Eq, Structural)]
pub enum Tier {
    /// The native workspace: exclusive ownership of the engine.
    Workspace,
    /// The admission queue: accepted work and domain policy.
    Admission,
    /// Leaves: nothing may be acquired while one of these is held.
    Leaf,
}

impl Tier {
    /// Position in the order.
    pub open spec fn spec_rank(self) -> int {
        match self {
            Tier::Workspace => 1,
            Tier::Admission => 2,
            Tier::Leaf => 3,
        }
    }

    /// Position in the order.
    pub fn rank(&self) -> (rank: u8)
        ensures
            rank == self.spec_rank(),
    {
        match self {
            Tier::Workspace => 1,
            Tier::Admission => 2,
            Tier::Leaf => 3,
        }
    }
}

/// Held tiers are strictly deeper from outermost to innermost.
pub open spec fn strictly_descending(held: Seq<Tier>) -> bool {
    forall|i: int, j: int| 0 <= i < j < held.len() ==> held[i].spec_rank() < held[j].spec_rank()
}

/// Whether `tier` may be acquired while `held` is held: nothing is held, or it
/// is strictly deeper than the innermost held tier.
pub open spec fn may_enter_spec(held: Seq<Tier>, tier: Tier) -> bool {
    held.len() == 0 || held.last().spec_rank() < tier.spec_rank()
}

/// Released when the lock it describes is released, through `TierTracker::exit`.
pub struct TierGuard {
    tier: Tier,
}

impl TierGuard {
    /// The tier this guard registered.
    pub closed spec fn spec_tier(&self) -> Tier {
        self.tier
    }
}

/// One thread's held tiers and the (outer, inner) nestings it has observed.
pub struct TierTracker {
    held: Vec<Tier>,
    nestings: Vec<(Tier, Tier)>,
}

impl TierTracker {
    /// Tiers currently held, outermost first.
    pub closed spec fn spec_held(&self) -> Seq<Tier> {
        self.held@
    }

    /// Nestings observed since the last reset, in order.
    pub closed spec fn spec_nestings(&self) -> Seq<(Tier, Tier)> {
        self.nestings@
    }

    /// The documented order holds of every held stack.
    pub open spec fn wf(&self) -> bool {
        strictly_descending(self.spec_held())
    }

    /// Nothing held and nothing observed.
    pub fn new() -> (tracker: Self)
        ensures
            tracker.spec_held() == Seq::<Tier>::empty(),
            tracker.spec_nestings() == Seq::<(Tier, Tier)>::empty(),
            tracker.wf(),
    {
        TierTracker { held: Vec::new(), nestings: Vec::new() }
    }

    /// Whether acquiring `tier` now keeps the documented order.
    pub fn may_enter(&self, tier: Tier) -> (allowed: bool)
        ensures
            allowed == may_enter_spec(self.spec_held(), tier),
    {
        match self.held.last() {
            Some(deepest) => deepest.rank() < tier.rank(),
            None => true,
        }
    }

    /// Register that this thread is about to acquire a lock at `tier`, recording
    /// the nesting under the innermost held tier if there is one.
    pub fn enter(&mut self, tier: Tier) -> (guard: TierGuard)
        requires
            old(self).wf(),
            may_enter_spec(old(self).spec_held(), tier),
        ensures
            final(self).wf(),
            guard.spec_tier() == tier,
            final(self).spec_held() == old(self).spec_held().push(tier),
            final(self).spec_nestings() == if old(self).spec_held().len() == 0 {
                old(self).spec_nestings()
            } else {
                old(self).spec_nestings().push((old(self).spec_held().last(), tier))
            },
    {
        match self.held.last() {
            Some(deepest) => {
                let outer = *deepest;
                self.nestings.push((outer, tier));
            },
            None => {},
        }
        self.held.push(tier);
        TierGuard { tier }
    }

    /// The lock registered by `guard` is released: the innermost registration ends.
    pub fn exit(&mut self, guard: TierGuard)
        requires
            old(self).wf(),
            old(self).spec_held().len() > 0,
        ensures
            final(self).wf(),
            final(self).spec_held() == old(self).spec_held().drop_last(),
            final(self).spec_nestings() == old(self).spec_nestings(),
    {
        self.held.pop();
    }

    /// Every (outer, inner) pair observed since the last reset.
    pub fn observed_nestings(&self) -> (nestings: Vec<(Tier, Tier)>)
        ensures
            nestings@ == self.spec_nestings(),
    {
        let mut copy: Vec<(Tier, Tier)> = Vec::new();
        let mut index: usize = 0;
        while index < self.nestings.len()
            invariant
                index <= self.nestings@.len(),
                copy@ == self.nestings@.take(index as int),
            decreases self.nestings@.len() - index,
        {
            copy.push(self.nestings[index]);
            proof {
                assert(copy@ =~= self.nestings@.take(index + 1));
            }
            index += 1;
        }
        assert(self.nestings@.take(self.nestings@.len() as int) =~= self.nestings@);
        copy
    }

    /// Forget observed nestings, so one test's evidence is not another's.
    pub fn reset(&mut self)
        ensures
            final(self).spec_nestings() == Seq::<(Tier, Tier)>::empty(),
            final(self).spec_held() == old(self).spec_held(),
    {
        self.nestings.clear();
    }

    /// Whether no tracked lock is held.
    pub fn holds_none(&self) -> (none: bool)
        ensures
            none == (self.spec_held().len() == 0),
    {
        self.held.len() == 0
    }
}

/// Every nesting the tracker records goes downward: its inner tier is strictly
/// deeper than its outer one.
pub proof fn recorded_nestings_go_downward(held: Seq<Tier>, tier: Tier)
    requires
        strictly_descending(held),
        may_enter_spec(held, tier),
        held.len() > 0,
    ensures
        held.last().spec_rank() < tier.spec_rank(),
        strictly_descending(held.push(tier)),
{
}

/// Nothing can be acquired while a leaf is held.
pub proof fn leaves_are_terminal(held: Seq<Tier>, tier: Tier)
    requires
        held.len() > 0,
        held.last() == Tier::Leaf,
    ensures
        !may_enter_spec(held, tier),
{
}

} // verus!
