use vstd::prelude::*;
use crate::application::effects::{answers, Effect, EffectView, Outcome, UseCaseRun};
use crate::application::error::{clone_result, ApplicationError, RepositoryError};
use crate::application::events::AppEvent;
use crate::domain::peer::{Peer, PeerAddress};

verus! {

/// Adds a peer unless one with the same address is already known, and
/// announces it.
pub struct AddPeer {}

/// Where a run of `AddPeer` stands.
pub enum AddPeerStage {
    /// Asking the peer repository whether the address is known.
    LookingUp,
    /// Storing the new peer.
    Storing,
    /// Announcing `PeerAdded`.
    Announcing,
    Finished(Result<(), ApplicationError>),
}

pub struct AddPeerRun {
    address: PeerAddress,
    stage: AddPeerStage,
}

impl AddPeer {
    pub fn new() -> (r: Self) {
        AddPeer {  }
    }

    pub fn execute(&self, address: PeerAddress) -> (r: AddPeerRun)
        ensures
            r.address() == address,
            r.stage() == AddPeerStage::LookingUp,
    {
        AddPeerRun { address, stage: AddPeerStage::LookingUp }
    }
}

impl AddPeerRun {
    pub closed spec fn address(&self) -> PeerAddress {
        self.address
    }

    pub closed spec fn stage(&self) -> AddPeerStage {
        self.stage
    }

    /// The effect the run waits on in each stage.
    pub open spec fn pending_view(&self) -> EffectView {
        match self.stage() {
            AddPeerStage::LookingUp => EffectView::LookupPeer(self.address()),
            AddPeerStage::Storing => EffectView::StorePeer(Peer::spec_new(self.address())),
            AddPeerStage::Announcing => EffectView::Emit(AppEvent::PeerAdded(self.address())),
            AddPeerStage::Finished(r) => EffectView::Finish(r),
        }
    }

    /// The stage after `outcome`. A peer that the lookup found ends the run
    /// with `PeerAlreadyExists`; a failed lookup counts as not found; a
    /// failed store ends it with the repository's error. An outcome that does
    /// not answer the pending effect is ignored.
    pub open spec fn next_stage(stage: AddPeerStage, outcome: Outcome) -> AddPeerStage {
        match stage {
            AddPeerStage::LookingUp => match outcome {
                Outcome::PeerLookedUp(Ok(Some(_))) => AddPeerStage::Finished(
                    Err(ApplicationError::PeerAlreadyExists),
                ),
                Outcome::PeerLookedUp(_) => AddPeerStage::Storing,
                _ => stage,
            },
            AddPeerStage::Storing => match outcome {
                Outcome::PeerStored(Ok(())) => AddPeerStage::Announcing,
                Outcome::PeerStored(Err(e)) => AddPeerStage::Finished(
                    Err(ApplicationError::RepositoryError(e)),
                ),
                _ => stage,
            },
            AddPeerStage::Announcing => match outcome {
                Outcome::Emitted => AddPeerStage::Finished(Ok(())),
                _ => stage,
            },
            AddPeerStage::Finished(_) => stage,
        }
    }
}

/// An address that the lookup finds is refused: the run ends with
/// `PeerAlreadyExists` and stores and announces nothing.
pub proof fn add_peer_refuses_known_address(found: Peer)
    ensures
        AddPeerRun::next_stage(AddPeerStage::LookingUp, Outcome::PeerLookedUp(Ok(Some(found))))
            == AddPeerStage::Finished(Err(ApplicationError::PeerAlreadyExists)),
{
}

/// `PeerAdded` is announced only right after the peer was stored
/// successfully; a run that is finished stays finished.
pub proof fn add_peer_announces_only_after_store(stage: AddPeerStage, outcome: Outcome)
    ensures
        AddPeerRun::next_stage(stage, outcome) is Announcing && !(stage is Announcing) ==> stage
            is Storing && (outcome matches Outcome::PeerStored(Ok(_))),
        stage is Finished ==> AddPeerRun::next_stage(stage, outcome) == stage,
{
}

/// A run only asks about, stores and announces the address it was started
/// with: the lookup is of that address, the stored peer has it, and the
/// announcement names it. An address the lookup does not find (or cannot
/// look up) is stored, a successful store is announced, and the
/// announcement ends the run successfully.
pub proof fn add_peer_effects_name_the_address(run: AddPeerRun, looked_up: Result<Option<Peer>, RepositoryError>)
    ensures
        match run.pending_view() {
            EffectView::LookupPeer(a) => a == run.address(),
            EffectView::StorePeer(p) => p@ == run.address()@ && p.spec_address() == run.address(),
            EffectView::Emit(e) => e == AppEvent::PeerAdded(run.address()),
            EffectView::Finish(r) => run.stage() == AddPeerStage::Finished(r),
            _ => false,
        },
        !(looked_up matches Ok(Some(_))) ==> AddPeerRun::next_stage(
            AddPeerStage::LookingUp,
            Outcome::PeerLookedUp(looked_up),
        ) == AddPeerStage::Storing,
        AddPeerRun::next_stage(AddPeerStage::Storing, Outcome::PeerStored(Ok(())))
            == AddPeerStage::Announcing,
        AddPeerRun::next_stage(AddPeerStage::Announcing, Outcome::Emitted)
            == AddPeerStage::Finished(Ok(())),
{
    Peer::lemma_spec_new(run.address());
}

/// How far a run is from its end: the number of effects still to answer.
pub open spec fn add_peer_rank(stage: AddPeerStage) -> nat {
    match stage {
        AddPeerStage::LookingUp => 3,
        AddPeerStage::Storing => 2,
        AddPeerStage::Announcing => 1,
        AddPeerStage::Finished(_) => 0,
    }
}

/// A run whose pending effects are answered reaches `Finish`: each answer
/// lowers the rank, and rank 0 is the finished stage.
pub proof fn add_peer_reaches_finish(run: AddPeerRun, outcome: Outcome)
    requires
        answers(run.pending_view(), outcome),
    ensures
        add_peer_rank(AddPeerRun::next_stage(run.stage(), outcome)) < add_peer_rank(run.stage()),
        add_peer_rank(run.stage()) == 0 <==> run.stage() is Finished,
{
}

impl UseCaseRun for AddPeerRun {
    fn pending(&self) -> (r: Effect)
        ensures
            r@ == self.pending_view(),
    {
        match &self.stage {
            AddPeerStage::LookingUp => Effect::LookupPeer(self.address.clone()),
            AddPeerStage::Storing => Effect::StorePeer(Peer::new(self.address.clone())),
            AddPeerStage::Announcing => Effect::Emit(AppEvent::PeerAdded(self.address.clone())),
            AddPeerStage::Finished(r) => Effect::Finish(clone_result(r)),
        }
    }

    fn resume(&mut self, outcome: Outcome)
        ensures
            final(self).address() == old(self).address(),
            final(self).stage() == AddPeerRun::next_stage(old(self).stage(), outcome),
    {
        let mut stage = AddPeerStage::LookingUp;
        std::mem::swap(&mut stage, &mut self.stage);
        self.stage = match stage {
            AddPeerStage::LookingUp => match outcome {
                Outcome::PeerLookedUp(Ok(Some(_))) => AddPeerStage::Finished(
                    Err(ApplicationError::PeerAlreadyExists),
                ),
                Outcome::PeerLookedUp(_) => AddPeerStage::Storing,
                _ => AddPeerStage::LookingUp,
            },
            AddPeerStage::Storing => match outcome {
                Outcome::PeerStored(Ok(())) => AddPeerStage::Announcing,
                Outcome::PeerStored(Err(e)) => AddPeerStage::Finished(
                    Err(ApplicationError::RepositoryError(e)),
                ),
                _ => AddPeerStage::Storing,
            },
            AddPeerStage::Announcing => match outcome {
                Outcome::Emitted => AddPeerStage::Finished(Ok(())),
                _ => AddPeerStage::Announcing,
            },
            AddPeerStage::Finished(r) => AddPeerStage::Finished(r),
        };
    }
}

} // verus!
