//! The registry of live peers and the pass that brings it in line with a new
//! frame. The platform work (opening, updating and closing windows) is done
//! by the caller; the pass decides what is to be done, in order, and records
//! what was done.
use vstd::prelude::*;
use crate::outer_join::{Joined, outer_join, spec_outer_join, min_len, max_len};

verus! {

/// The identity of a live peer, stable across frames.
pub type PeerId = u64;

/// The positions `0..n` of a new sequence of `n` items.
pub open spec fn spec_positions(n: nat) -> Seq<usize> {
    Seq::new(n, |i: int| i as usize)
}

/// What the caller is to do for one aligned position.
#[derive(Clone, Copy, Debug, PartialEq, Eq, Structural)]
pub enum PeerOp {
    /// Push the data of new item `item` into `peer` and repaint it.
    Update { item: usize, peer: PeerId },
    /// Create a peer for new item `item`.
    Create { item: usize },
    /// Tear down `peer`.
    Destroy { peer: PeerId },
}

pub open spec fn spec_op(j: Joined<usize, PeerId>) -> PeerOp {
    match j {
        Joined::Both(item, peer) => PeerOp::Update { item, peer },
        Joined::Left(item) => PeerOp::Create { item },
        Joined::Right(peer) => PeerOp::Destroy { peer },
    }
}

/// The identities of the live peers, in the order of the items they stand for.
pub struct PeerRegistry {
    ids: Vec<PeerId>,
}

impl View for PeerRegistry {
    type V = Seq<PeerId>;

    closed spec fn view(&self) -> Seq<PeerId> {
        self.ids@
    }
}

impl PeerRegistry {
    /// A registry with no peer.
    pub fn new() -> (r: PeerRegistry)
        ensures
            r@ == Seq::<PeerId>::empty(),
    {
        PeerRegistry { ids: Vec::new() }
    }

    /// The identities, in order.
    pub fn ids(&self) -> (r: &Vec<PeerId>)
        ensures
            r@ == self@,
    {
        &self.ids
    }

    /// The number of live peers.
    pub fn len(&self) -> (r: usize)
        ensures
            r == self@.len(),
    {
        self.ids.len()
    }

    /// Starts a pass that aligns a new sequence of `new_len` items against
    /// the registered peers by position.
    pub fn begin_pass(self, new_len: usize) -> (r: Pass)
        ensures
            r.wf(),
            r.old_ids() == self@,
            r.new_len() == new_len,
            r.plan() == spec_outer_join(spec_positions(new_len as nat), self@),
            r.done() == 0,
            r.kept() == Seq::<PeerId>::empty(),
    {
        let mut positions: Vec<usize> = Vec::new();
        let mut i: usize = 0;
        while i < new_len
            invariant
                i <= new_len,
                positions@ == spec_positions(i as nat),
            decreases new_len - i,
        {
            positions.push(i);
            i = i + 1;
            assert(positions@ =~= spec_positions(i as nat));
        }
        let old_len: usize = self.ids.len();
        let plan = outer_join(&positions, &self.ids);
        assert(plan@.len() == max_len(new_len as int, old_len as int));
        Pass { old: self.ids, new_len, plan, done: 0, kept: Vec::new() }
    }
}

/// One reconciliation pass in progress: the plan, how much of it was carried
/// out, and the identities registered so far for the next frame.
pub struct Pass {
    old: Vec<PeerId>,
    new_len: usize,
    plan: Vec<Joined<usize, PeerId>>,
    done: usize,
    kept: Vec<PeerId>,
}

impl Pass {
    pub closed spec fn old_ids(self) -> Seq<PeerId> {
        self.old@
    }

    pub closed spec fn new_len(self) -> nat {
        self.new_len as nat
    }

    pub closed spec fn plan(self) -> Seq<Joined<usize, PeerId>> {
        self.plan@
    }

    pub closed spec fn done(self) -> nat {
        self.done as nat
    }

    pub closed spec fn kept(self) -> Seq<PeerId> {
        self.kept@
    }

    /// The plan is the alignment of the new positions against the old peers;
    /// every carried-out position of the new sequence has registered one
    /// identity, and each retained peer keeps its position.
    pub closed spec fn wf(self) -> bool {
        &&& self.plan@ == spec_outer_join(spec_positions(self.new_len as nat), self.old@)
        &&& self.done <= self.plan@.len() <= usize::MAX
        &&& self.kept@.len() == min_len(self.done as int, self.new_len as int)
        &&& forall|i: int|
            0 <= i < min_len(self.done as int, self.old@.len() as int) && i < self.new_len
                ==> #[trigger] self.kept@[i] == self.old@[i]
    }

    /// Whether every position of the plan was carried out.
    pub open spec fn is_complete(self) -> bool {
        self.done() == self.plan().len()
    }

    /// The next thing to do, or `None` once the plan is carried out.
    pub fn next_op(&self) -> (r: Option<PeerOp>)
        requires
            self.wf(),
        ensures
            self.is_complete() ==> r is None,
            !self.is_complete() ==> r == Some(spec_op(self.plan()[self.done() as int])),
    {
        if self.done < self.plan.len() {
            let op = match self.plan[self.done] {
                Joined::Both(item, peer) => PeerOp::Update { item, peer },
                Joined::Left(item) => PeerOp::Create { item },
                Joined::Right(peer) => PeerOp::Destroy { peer },
            };
            Some(op)
        } else {
            None
        }
    }

    /// Records that the peer of the current `Update` was updated; it stays
    /// registered for the next frame.
    pub fn updated(&mut self)
        requires
            old(self).wf(),
            !old(self).is_complete(),
            old(self).plan()[old(self).done() as int] is Both,
        ensures
            final(self).wf(),
            final(self).old_ids() == old(self).old_ids(),
            final(self).new_len() == old(self).new_len(),
            final(self).plan() == old(self).plan(),
            final(self).done() == old(self).done() + 1,
            final(self).kept() == old(self).kept().push(
                old(self).plan()[old(self).done() as int]->Both_1,
            ),
    {
        let ghost d = self.done as int;
        if let Joined::Both(_, peer) = self.plan[self.done] {
            self.kept.push(peer);
        }
        self.done = self.done + 1;
        assert(d < self.new_len);
    }

    /// Records that a peer with identity `id` was created for the current
    /// `Create`; it is registered for the next frame.
    pub fn created(&mut self, id: PeerId)
        requires
            old(self).wf(),
            !old(self).is_complete(),
            old(self).plan()[old(self).done() as int] is Left,
        ensures
            final(self).wf(),
            final(self).old_ids() == old(self).old_ids(),
            final(self).new_len() == old(self).new_len(),
            final(self).plan() == old(self).plan(),
            final(self).done() == old(self).done() + 1,
            final(self).kept() == old(self).kept().push(id),
    {
        let ghost d = self.done as int;
        self.kept.push(id);
        self.done = self.done + 1;
        assert(d < self.new_len);
    }

    /// Records that the peer of the current `Destroy` was torn down.
    pub fn destroyed(&mut self)
        requires
            old(self).wf(),
            !old(self).is_complete(),
            old(self).plan()[old(self).done() as int] is Right,
        ensures
            final(self).wf(),
            final(self).old_ids() == old(self).old_ids(),
            final(self).new_len() == old(self).new_len(),
            final(self).plan() == old(self).plan(),
            final(self).done() == old(self).done() + 1,
            final(self).kept() == old(self).kept(),
    {
        self.done = self.done + 1;
    }

    /// Ends a carried-out pass: the registry holds one peer per new item,
    /// the retained ones at their old positions.
    pub fn finish(self) -> (r: PeerRegistry)
        requires
            self.wf(),
            self.is_complete(),
        ensures
            r@ == self.kept(),
            r@.len() == self.new_len(),
            forall|i: int|
                0 <= i < min_len(self.new_len() as int, self.old_ids().len() as int)
                    ==> #[trigger] r@[i] == self.old_ids()[i],
    {
        PeerRegistry { ids: self.kept }
    }
}

/// A pass over an unchanged number of items, run against the registry that
/// the previous pass left (one peer per item), updates every peer in place:
/// the plan is all `Update`, in order, with nothing created or destroyed.
pub proof fn lemma_unchanged_pass_updates_all(ids: Seq<PeerId>, new_len: nat)
    requires
        ids.len() == new_len,
    ensures
        spec_outer_join(spec_positions(new_len), ids).len() == new_len,
        forall|i: int|
            0 <= i < new_len ==> #[trigger] spec_op(spec_outer_join(spec_positions(new_len), ids)[i])
                == (PeerOp::Update { item: i as usize, peer: ids[i] }),
{
    crate::outer_join::lemma_outer_join_same_length(spec_positions(new_len), ids);
}

} // verus!
