use vstd::prelude::*;
use crate::application::effects::{answers, Effect, EffectView, Outcome, UseCaseRun};
use crate::application::error::{clone_result, ApplicationError, RepositoryError};
use crate::application::events::AppEvent;
use crate::application::use_cases::send_message::chat_to_extend;
use crate::domain::chat::{Chat, ChatView};
use crate::domain::message::{id_nibble, initial_status, ChatMessage, MessageContent, SentBy};
use crate::domain::peer::PeerAddress;

verus! {

/// Records a message that arrived from a peer and announces it. Repository
/// failures are ignored: the message is announced whatever happens to it.
pub struct ReceiveMessage {}

enum ReceiveStep {
    Loading,
    Storing(Chat),
    Announcing,
    Finished(Result<(), ApplicationError>),
}

/// Where a run of `ReceiveMessage` stands.
pub enum ReceiveMessageStage {
    Loading,
    Storing(ChatView),
    Announcing,
    Finished(Result<(), ApplicationError>),
}

/// A run of `ReceiveMessage` as a value.
pub struct ReceiveMessageState {
    pub from: PeerAddress,
    pub content: MessageContent,
    pub message: ChatMessage,
    pub stage: ReceiveMessageStage,
}

pub struct ReceiveMessageRun {
    from: PeerAddress,
    content: MessageContent,
    message: ChatMessage,
    step: ReceiveStep,
}

impl View for ReceiveMessageRun {
    type V = ReceiveMessageState;

    closed spec fn view(&self) -> ReceiveMessageState {
        ReceiveMessageState {
            from: self.from,
            content: self.content,
            message: self.message,
            stage: match self.step {
                ReceiveStep::Loading => ReceiveMessageStage::Loading,
                ReceiveStep::Storing(c) => ReceiveMessageStage::Storing(c@),
                ReceiveStep::Announcing => ReceiveMessageStage::Announcing,
                ReceiveStep::Finished(r) => ReceiveMessageStage::Finished(r),
            },
        }
    }
}

impl ReceiveMessage {
    pub fn new() -> (r: Self) {
        ReceiveMessage {  }
    }

    /// Starts recording `content`, received from `from`, as a new message of
    /// the peer.
    pub fn receive_message(&self, from: PeerAddress, content: MessageContent) -> (r:
        ReceiveMessageRun)
        ensures
            r@.from == from,
            r@.content == content,
            r@.message.spec_content() == content,
            r@.message.spec_sent_by() == SentBy::Peer,
            id_nibble(r@.message.spec_id(), 12) == 4,
            8 <= id_nibble(r@.message.spec_id(), 16) < 12,
            r@.message.spec_delivery_status() == initial_status(SentBy::Peer),
            r@.stage == ReceiveMessageStage::Loading,
    {
        let message = ChatMessage::create(SentBy::Peer, content.clone());
        ReceiveMessageRun { from, content, message, step: ReceiveStep::Loading }
    }
}

impl ReceiveMessageRun {
    pub open spec fn pending_view(s: ReceiveMessageState) -> EffectView {
        match s.stage {
            ReceiveMessageStage::Loading => EffectView::LoadChat(s.from),
            ReceiveMessageStage::Storing(c) => EffectView::StoreChat(c),
            ReceiveMessageStage::Announcing => EffectView::Emit(
                AppEvent::MessageReceived { peer: s.from, content: s.content },
            ),
            ReceiveMessageStage::Finished(r) => EffectView::Finish(r),
        }
    }

    /// The run after `outcome`. A chat that cannot be loaded counts as none;
    /// the result of storing is not looked at. An outcome that does not answer
    /// the pending effect is ignored.
    pub open spec fn next(s: ReceiveMessageState, outcome: Outcome) -> ReceiveMessageState {
        match s.stage {
            ReceiveMessageStage::Loading => match outcome {
                Outcome::ChatLoaded(r) => ReceiveMessageState {
                    stage: ReceiveMessageStage::Storing(
                        chat_to_extend(
                            s.from,
                            match r {
                                Ok(loaded) => loaded,
                                Err(_) => None,
                            },
                            s.message,
                        ),
                    ),
                    ..s
                },
                _ => s,
            },
            ReceiveMessageStage::Storing(_) => match outcome {
                Outcome::ChatStored(_) => ReceiveMessageState {
                    stage: ReceiveMessageStage::Announcing,
                    ..s
                },
                _ => s,
            },
            ReceiveMessageStage::Announcing => match outcome {
                Outcome::Emitted => ReceiveMessageState {
                    stage: ReceiveMessageStage::Finished(Ok(())),
                    ..s
                },
                _ => s,
            },
            ReceiveMessageStage::Finished(_) => s,
        }
    }
}

/// A received message is added to the stored history: when the chat with the
/// peer loads, the chat to store has that chat's peer and all its messages,
/// in order, followed by the received message; when there is none, or it
/// cannot be loaded, the chat to store is a chat with the sender holding only
/// the received message.
pub proof fn receive_message_appends_to_history(
    s: ReceiveMessageState,
    loaded: Result<Option<Chat>, RepositoryError>,
)
    requires
        s.stage is Loading,
    ensures
        ({
            let t = ReceiveMessageRun::next(s, Outcome::ChatLoaded(loaded)).stage;
            &&& t is Storing
            &&& match loaded {
                Ok(Some(c)) => {
                    let stored = t->Storing_0;
                    &&& stored.peer == c@.peer
                    &&& stored.messages.len() == c@.messages.len() + 1
                    &&& forall|i: int|
                        0 <= i < c@.messages.len() ==> #[trigger] stored.messages[i]
                            == c@.messages[i]
                    &&& stored.messages[c@.messages.len() as int] == s.message
                },
                _ => t->Storing_0.peer == s.from && t->Storing_0.messages.len() == 1
                    && t->Storing_0.messages[0] == s.message,
            }
        }),
{
}

/// A received message is announced whatever becomes of storing it, and the
/// chat to store ends with the message.
pub proof fn receive_message_always_announces(s: ReceiveMessageState, outcome: Outcome)
    ensures
        s.stage is Storing && (outcome matches Outcome::ChatStored(_))
            ==> ReceiveMessageRun::next(s, outcome).stage is Announcing,
        s.stage is Loading && (outcome matches Outcome::ChatLoaded(_)) ==> ({
            let t = ReceiveMessageRun::next(s, outcome).stage;
            &&& t is Storing
            &&& t->Storing_0.messages.len() > 0
            &&& t->Storing_0.messages.last() == s.message
        }),
{
}

/// A run is about its own sender and message throughout: it loads the chat
/// with the sender and announces the sender and the content; no step
/// changes the sender, the content or the message.
pub proof fn receive_message_effects_concern_its_sender(s: ReceiveMessageState, outcome: Outcome)
    ensures
        match ReceiveMessageRun::pending_view(s) {
            EffectView::LoadChat(p) => s.stage is Loading && p == s.from,
            EffectView::StoreChat(c) => s.stage == ReceiveMessageStage::Storing(c),
            EffectView::Emit(e) => s.stage is Announcing && e == AppEvent::MessageReceived {
                peer: s.from,
                content: s.content,
            },
            EffectView::Finish(r) => s.stage == ReceiveMessageStage::Finished(r),
            _ => false,
        },
        ReceiveMessageRun::next(s, outcome).from == s.from,
        ReceiveMessageRun::next(s, outcome).content == s.content,
        ReceiveMessageRun::next(s, outcome).message == s.message,
{
}

/// How far a run is from its end: the number of effects still to answer.
pub open spec fn receive_message_rank(stage: ReceiveMessageStage) -> nat {
    match stage {
        ReceiveMessageStage::Loading => 3,
        ReceiveMessageStage::Storing(_) => 2,
        ReceiveMessageStage::Announcing => 1,
        ReceiveMessageStage::Finished(_) => 0,
    }
}

/// A run whose pending effects are answered reaches `Finish`: each answer
/// lowers the rank, and rank 0 is the finished stage.
pub proof fn receive_message_reaches_finish(s: ReceiveMessageState, outcome: Outcome)
    requires
        answers(ReceiveMessageRun::pending_view(s), outcome),
    ensures
        receive_message_rank(ReceiveMessageRun::next(s, outcome).stage) < receive_message_rank(
            s.stage,
        ),
        receive_message_rank(s.stage) == 0 <==> s.stage is Finished,
{
}

impl UseCaseRun for ReceiveMessageRun {
    fn pending(&self) -> (r: Effect)
        ensures
            r@ == ReceiveMessageRun::pending_view(self@),
    {
        match &self.step {
            ReceiveStep::Loading => Effect::LoadChat(self.from.clone()),
            ReceiveStep::Storing(c) => Effect::StoreChat(c.clone()),
            ReceiveStep::Announcing => Effect::Emit(
                AppEvent::MessageReceived { peer: self.from.clone(), content: self.content.clone() },
            ),
            ReceiveStep::Finished(r) => Effect::Finish(clone_result(r)),
        }
    }

    fn resume(&mut self, outcome: Outcome)
        ensures
            final(self)@ == ReceiveMessageRun::next(old(self)@, outcome),
    {
        let mut step = ReceiveStep::Loading;
        std::mem::swap(&mut step, &mut self.step);
        match step {
            ReceiveStep::Loading => match outcome {
                Outcome::ChatLoaded(r) => {
                    let loaded = match r {
                        Ok(loaded) => loaded,
                        Err(_) => None,
                    };
                    let mut chat = match loaded {
                        Some(c) => c,
                        None => Chat::create(self.from.clone()),
                    };
                    chat.add_message(self.message.clone());
                    self.step = ReceiveStep::Storing(chat);
                },
                _ => {
                    self.step = ReceiveStep::Loading;
                },
            },
            ReceiveStep::Storing(c) => match outcome {
                Outcome::ChatStored(_) => {
                    self.step = ReceiveStep::Announcing;
                },
                _ => {
                    self.step = ReceiveStep::Storing(c);
                },
            },
            ReceiveStep::Announcing => match outcome {
                Outcome::Emitted => {
                    self.step = ReceiveStep::Finished(Ok(()));
                },
                _ => {
                    self.step = ReceiveStep::Announcing;
                },
            },
            ReceiveStep::Finished(r) => {
                self.step = ReceiveStep::Finished(r);
            },
        }
    }
}

} // verus!
