use vstd::prelude::*;

use crate::state::Proposal;

verus! {

/// Whether a stored slot carries the given proposal id.
pub open spec fn slot_matches(slot: (u64, Proposal), id: u64) -> bool {
    slot.0 == id
}

/// The proposal ids registered under `app_id`, in insertion order, read off
/// an append-only sequence of (app id, proposal id) pairs.
pub open spec fn app_proposals_of(entries: Seq<(u64, u64)>, app_id: u64) -> Seq<u64>
    decreases entries.len(),
{
    if entries.len() == 0 {
        Seq::empty()
    } else {
        let rest = app_proposals_of(entries.drop_last(), app_id);
        if entries.last().0 == app_id {
            rest.push(entries.last().1)
        } else {
            rest
        }
    }
}

/// The persistence surface the governance core operates against: monotonic
/// id generation, proposals keyed by id, and an append-only secondary index
/// from owning application id to proposal ids.
pub struct ProposalStore {
    pub proposal_count: u64,
    pub proposals: Vec<(u64, Proposal)>,
    pub proposals_by_app: Vec<(u64, u64)>,
}

/// With unique ids, the id found at index `i` pins down `proposal_at`.
pub proof fn lemma_store_at(store: ProposalStore, id: u64, i: int)
    requires
        store.wf(),
        0 <= i < store.proposals@.len(),
        store.proposals@[i].0 == id,
    ensures
        store.contains_proposal(id),
        store.proposal_at(id) == store.proposals@[i].1,
{
    assert(slot_matches(store.proposals@[i], id));
    let k = choose|k: int|
        0 <= k < store.proposals@.len() && slot_matches(#[trigger] store.proposals@[k], id);
    if k != i {
        assert(store.proposals@[k].0 == id && store.proposals@[i].0 == id);
        assert(false);
    }
}

impl ProposalStore {
    /// Some slot carries this id.
    pub open spec fn contains_proposal(self, id: u64) -> bool {
        exists|i: int|
            0 <= i < self.proposals@.len() && slot_matches(#[trigger] self.proposals@[i], id)
    }

    /// The proposal stored under this id (meaningful when one is stored).
    pub open spec fn proposal_at(self, id: u64) -> Proposal {
        let i = choose|i: int|
            0 <= i < self.proposals@.len() && slot_matches(#[trigger] self.proposals@[i], id);
        self.proposals@[i].1
    }

    /// The proposal ids registered under `app_id`, oldest first.
    pub open spec fn app_proposals(self, app_id: u64) -> Seq<u64> {
        app_proposals_of(self.proposals_by_app@, app_id)
    }

    /// Each proposal id occupies at most one slot.
    pub open spec fn wf(self) -> bool {
        forall|i: int, j: int|
            #![trigger self.proposals@[i], self.proposals@[j]]
            0 <= i < j < self.proposals@.len() ==> self.proposals@[i].0 != self.proposals@[j].0
    }

    /// An empty store; the first generated id will be 1.
    pub fn new() -> (r: ProposalStore)
        ensures
            r.proposal_count == 0,
            r.proposals@.len() == 0,
            r.proposals_by_app@.len() == 0,
            r.wf(),
    {
        ProposalStore { proposal_count: 0, proposals: Vec::new(), proposals_by_app: Vec::new() }
    }

    /// Stores `proposal` under `id`, replacing any previous value there;
    /// every other id keeps its value.
    pub fn save(&mut self, id: u64, proposal: Proposal)
        requires
            old(self).wf(),
        ensures
            final(self).wf(),
            final(self).contains_proposal(id),
            final(self).proposal_at(id) == proposal,
            forall|other: u64|
                other != id ==> #[trigger] final(self).contains_proposal(other) == old(
                    self,
                ).contains_proposal(other),
            forall|other: u64|
                other != id && old(self).contains_proposal(other)
                    ==> #[trigger] final(self).proposal_at(other) == old(self).proposal_at(other),
            final(self).proposal_count == old(self).proposal_count,
            final(self).proposals_by_app == old(self).proposals_by_app,
    {
        let n = self.proposals.len();
        let mut i: usize = 0;
        while i < n
            invariant
                *self == *old(self),
                old(self).wf(),
                n == self.proposals@.len(),
                i <= n,
                forall|j: int| 0 <= j < i ==> self.proposals@[j].0 != id,
            decreases n - i,
        {
            if self.proposals[i].0 == id {
                self.proposals[i] = (id, proposal);
                proof {
                    let old_seq = old(self).proposals@;
                    let new_seq = self.proposals@;
                    assert(new_seq == old_seq.update(i as int, (id, proposal)));
                    assert forall|a: int, b: int|
                        #![trigger new_seq[a], new_seq[b]]
                        0 <= a < b < new_seq.len() implies new_seq[a].0 != new_seq[b].0 by {
                        assert(old_seq[a].0 != old_seq[b].0);
                    }
                    lemma_store_at(*self, id, i as int);
                    assert forall|other: u64|
                        other != id implies #[trigger] self.contains_proposal(other) == old(
                        self,
                    ).contains_proposal(other) by {
                        if old(self).contains_proposal(other) {
                            let j = choose|j: int|
                                0 <= j < old_seq.len() && slot_matches(
                                    #[trigger] old_seq[j],
                                    other,
                                );
                            assert(slot_matches(new_seq[j], other));
                        }
                        if self.contains_proposal(other) {
                            let j = choose|j: int|
                                0 <= j < new_seq.len() && slot_matches(
                                    #[trigger] new_seq[j],
                                    other,
                                );
                            assert(slot_matches(old_seq[j], other));
                        }
                    }
                    assert forall|other: u64|
                        other != id && old(self).contains_proposal(other)
                            implies #[trigger] self.proposal_at(other) == old(self).proposal_at(
                        other,
                    ) by {
                        let j = choose|j: int|
                            0 <= j < old_seq.len() && slot_matches(#[trigger] old_seq[j], other);
                        lemma_store_at(*old(self), other, j);
                        lemma_store_at(*self, other, j);
                    }
                }
                return ;
            }
            i = i + 1;
        }
        self.proposals.push((id, proposal));
        proof {
            let old_seq = old(self).proposals@;
            let new_seq = self.proposals@;
            assert(new_seq == old_seq.push((id, proposal)));
            assert forall|a: int, b: int|
                #![trigger new_seq[a], new_seq[b]]
                0 <= a < b < new_seq.len() implies new_seq[a].0 != new_seq[b].0 by {
                if b < old_seq.len() {
                    assert(old_seq[a].0 != old_seq[b].0);
                } else {
                    assert(old_seq[a].0 != id);
                }
            }
            lemma_store_at(*self, id, old_seq.len() as int);
            assert forall|other: u64|
                other != id implies #[trigger] self.contains_proposal(other) == old(
                self,
            ).contains_proposal(other) by {
                if old(self).contains_proposal(other) {
                    let j = choose|j: int|
                        0 <= j < old_seq.len() && slot_matches(#[trigger] old_seq[j], other);
                    assert(slot_matches(new_seq[j], other));
                }
                if self.contains_proposal(other) {
                    let j = choose|j: int|
                        0 <= j < new_seq.len() && slot_matches(#[trigger] new_seq[j], other);
                    assert(j < old_seq.len());
                    assert(slot_matches(old_seq[j], other));
                }
            }
            assert forall|other: u64|
                other != id && old(self).contains_proposal(other) implies #[trigger] self
                .proposal_at(other) == old(self).proposal_at(other) by {
                let j = choose|j: int|
                    0 <= j < old_seq.len() && slot_matches(#[trigger] old_seq[j], other);
                lemma_store_at(*old(self), other, j);
                lemma_store_at(*self, other, j);
            }
        }
    }

    /// Looks the proposal up by id; `None` exactly when no slot carries it.
    pub fn load(&self, id: u64) -> (r: Option<&Proposal>)
        requires
            self.wf(),
        ensures
            match r {
                Some(p) => self.contains_proposal(id) && *p == self.proposal_at(id),
                None => !self.contains_proposal(id),
            },
    {
        let n = self.proposals.len();
        let mut i: usize = 0;
        while i < n
            invariant
                self.wf(),
                n == self.proposals@.len(),
                i <= n,
                forall|j: int| 0 <= j < i ==> self.proposals@[j].0 != id,
            decreases n - i,
        {
            if self.proposals[i].0 == id {
                proof {
                    lemma_store_at(*self, id, i as int);
                }
                return Some(&self.proposals[i].1);
            }
            i = i + 1;
        }
        None
    }

    /// Appends `proposal_id` to the ids registered under `app_id`; the
    /// index is append-only, so every other application's list is unchanged.
    pub fn register_proposal(&mut self, app_id: u64, proposal_id: u64)
        requires
            old(self).wf(),
        ensures
            final(self).wf(),
            final(self).proposals_by_app@ == old(self).proposals_by_app@.push(
                (app_id, proposal_id),
            ),
            final(self).app_proposals(app_id) == old(self).app_proposals(app_id).push(proposal_id),
            forall|other: u64|
                other != app_id ==> #[trigger] final(self).app_proposals(other) == old(
                    self,
                ).app_proposals(other),
            final(self).proposal_count == old(self).proposal_count,
            final(self).proposals == old(self).proposals,
    {
        self.proposals_by_app.push((app_id, proposal_id));
        proof {
            let s2 = self.proposals_by_app@;
            assert(s2.drop_last() =~= old(self).proposals_by_app@);
            assert forall|other: u64|
                other != app_id implies #[trigger] self.app_proposals(other) == old(
                self,
            ).app_proposals(other) by {
                assert(s2.drop_last() =~= old(self).proposals_by_app@);
            }
        }
    }

    /// The proposal ids registered under `app_id`, oldest first.
    pub fn proposals_for_app(&self, app_id: u64) -> (r: Vec<u64>)
        ensures
            r@ == self.app_proposals(app_id),
    {
        let mut r: Vec<u64> = Vec::new();
        let n = self.proposals_by_app.len();
        let mut i: usize = 0;
        while i < n
            invariant
                n == self.proposals_by_app@.len(),
                i <= n,
                r@ == app_proposals_of(self.proposals_by_app@.take(i as int), app_id),
            decreases n - i,
        {
            let entry = self.proposals_by_app[i];
            proof {
                let s = self.proposals_by_app@;
                assert(s.take(i as int + 1).drop_last() =~= s.take(i as int));
                assert(s.take(i as int + 1).last() == s[i as int]);
            }
            if entry.0 == app_id {
                r.push(entry.1);
            }
            i = i + 1;
        }
        proof {
            assert(self.proposals_by_app@.take(n as int) =~= self.proposals_by_app@);
        }
        r
    }
}

/// Returns a fresh, strictly increasing 64-bit identifier and remembers it;
/// ids are never reused (there is no removal operation).
pub fn next_id(store: &mut ProposalStore) -> (id: u64)
    requires
        old(store).proposal_count < u64::MAX,
    ensures
        id == old(store).proposal_count + 1,
        *final(store) == (ProposalStore { proposal_count: id, ..*old(store) }),
{
    let id = store.proposal_count + 1;
    store.proposal_count = id;
    id
}

} // verus!
