use vstd::prelude::*;
use crate::application::effects::{answers, Effect, EffectView, Outcome, UseCaseRun};
use crate::application::error::{clone_result, ApplicationError, ConnectionServiceError, RepositoryError};
use crate::application::events::AppEvent;
use crate::domain::chat::{Chat, ChatView};
use crate::domain::message::{id_nibble, initial_status, ChatMessage, DeliveryStatus, MessageContent, SentBy};
use crate::domain::peer::PeerId;

verus! {

/// Sends a text to a peer, records it in the chat (marked sent if the
/// delivery succeeded) and announces it.
pub struct SendMessage {}

enum SendStep {
    Delivering,
    Loading,
    Storing(Chat),
    Announcing,
    Finished(Result<(), ApplicationError>),
}

/// Where a run of `SendMessage` stands.
pub enum SendMessageStage {
    /// Handing the message to the network.
    Delivering,
    /// Loading the chat with the peer.
    Loading,
    /// Storing the chat with the message appended.
    Storing(ChatView),
    /// Announcing `MessageSent`.
    Announcing,
    Finished(Result<(), ApplicationError>),
}

/// A run of `SendMessage` as a value.
pub struct SendMessageState {
    pub peer: PeerId,
    pub content: MessageContent,
    pub message: ChatMessage,
    pub delivered: bool,
    pub stage: SendMessageStage,
}

pub struct SendMessageRun {
    peer: PeerId,
    content: MessageContent,
    message: ChatMessage,
    delivered: bool,
    step: SendStep,
}

impl View for SendMessageRun {
    type V = SendMessageState;

    closed spec fn view(&self) -> SendMessageState {
        SendMessageState {
            peer: self.peer,
            content: self.content,
            message: self.message,
            delivered: self.delivered,
            stage: match self.step {
                SendStep::Delivering => SendMessageStage::Delivering,
                SendStep::Loading => SendMessageStage::Loading,
                SendStep::Storing(c) => SendMessageStage::Storing(c@),
                SendStep::Announcing => SendMessageStage::Announcing,
                SendStep::Finished(r) => SendMessageStage::Finished(r),
            },
        }
    }
}

/// The chat that a message is appended to: the stored one, or a new one.
pub open spec fn chat_to_extend(peer: PeerId, loaded: Option<Chat>, message: ChatMessage) -> ChatView {
    match loaded {
        Some(c) => ChatView { peer: c.peer, messages: c.messages@.push(message) },
        None => ChatView { peer, messages: seq![message] },
    }
}

impl SendMessage {
    pub fn new() -> (r: Self) {
        SendMessage {  }
    }

    /// Starts sending `text` to `peer` as a new message of mine.
    pub fn execute(&self, peer: PeerId, text: String) -> (r: SendMessageRun)
        ensures
            r@.peer == peer,
            r@.content == MessageContent::Text(text),
            r@.message.spec_content() == MessageContent::Text(text),
            r@.message.spec_sent_by() == SentBy::Me,
            id_nibble(r@.message.spec_id(), 12) == 4,
            8 <= id_nibble(r@.message.spec_id(), 16) < 12,
            r@.message.spec_delivery_status() == initial_status(SentBy::Me),
            !r@.delivered,
            r@.stage == SendMessageStage::Delivering,
    {
        let content = MessageContent::Text(text);
        let message = ChatMessage::create(SentBy::Me, content.clone());
        SendMessageRun { peer, content, message, delivered: false, step: SendStep::Delivering }
    }
}

impl SendMessageRun {
    /// The effect the run waits on in each stage.
    pub open spec fn pending_view(s: SendMessageState) -> EffectView {
        match s.stage {
            SendMessageStage::Delivering => EffectView::Deliver(s.peer, s.message),
            SendMessageStage::Loading => EffectView::LoadChat(s.peer),
            SendMessageStage::Storing(c) => EffectView::StoreChat(c),
            SendMessageStage::Announcing => EffectView::Emit(
                AppEvent::MessageSent { peer: s.peer, content: s.content, delivered: s.delivered },
            ),
            SendMessageStage::Finished(r) => EffectView::Finish(r),
        }
    }

    /// The run after `outcome`. A successful delivery marks the message sent;
    /// either way the message is appended to the chat and stored; a failure
    /// to load or store the chat ends the run with the repository's error
    /// before anything is announced. An outcome that does not answer the
    /// pending effect is ignored.
    pub open spec fn next(s: SendMessageState, outcome: Outcome) -> SendMessageState {
        match s.stage {
            SendMessageStage::Delivering => match outcome {
                Outcome::Delivered(r) => SendMessageState {
                    message: if r is Ok { s.message.marked_sent() } else { s.message },
                    delivered: r is Ok,
                    stage: SendMessageStage::Loading,
                    ..s
                },
                _ => s,
            },
            SendMessageStage::Loading => match outcome {
                Outcome::ChatLoaded(Ok(loaded)) => SendMessageState {
                    stage: SendMessageStage::Storing(chat_to_extend(s.peer, loaded, s.message)),
                    ..s
                },
                Outcome::ChatLoaded(Err(e)) => SendMessageState {
                    stage: SendMessageStage::Finished(Err(ApplicationError::RepositoryError(e))),
                    ..s
                },
                _ => s,
            },
            SendMessageStage::Storing(_) => match outcome {
                Outcome::ChatStored(Ok(())) => SendMessageState {
                    stage: SendMessageStage::Announcing,
                    ..s
                },
                Outcome::ChatStored(Err(e)) => SendMessageState {
                    stage: SendMessageStage::Finished(Err(ApplicationError::RepositoryError(e))),
                    ..s
                },
                _ => s,
            },
            SendMessageStage::Announcing => match outcome {
                Outcome::Emitted => SendMessageState { stage: SendMessageStage::Finished(Ok(())), ..s },
                _ => s,
            },
            SendMessageStage::Finished(_) => s,
        }
    }
}

/// The message is recorded as sent exactly when its delivery succeeded, and
/// the announcement says the same; nothing else about the message changes.
pub proof fn send_message_records_delivery(s: SendMessageState, r: Result<(), ConnectionServiceError>)
    requires
        s.stage is Delivering,
        s.message.spec_delivery_status() == DeliveryStatus::NotSent,
    ensures
        ({
            let t = SendMessageRun::next(s, Outcome::Delivered(r));
            &&& (t.message.spec_delivery_status() == DeliveryStatus::Sent) == (r is Ok)
            &&& t.delivered == (r is Ok)
            &&& t.message.spec_id() == s.message.spec_id()
            &&& t.message.spec_content() == s.message.spec_content()
            &&& t.message.spec_sent_by() == s.message.spec_sent_by()
            &&& t.stage is Loading
        }),
{
    s.message.lemma_marked_sent();
}

/// `MessageSent` is announced only right after the chat holding the message
/// was stored successfully; the stored chat ends with the message.
pub proof fn send_message_announces_only_after_store(s: SendMessageState, outcome: Outcome)
    ensures
        SendMessageRun::next(s, outcome).stage is Announcing && !(s.stage is Announcing) ==> s.stage
            is Storing && (outcome matches Outcome::ChatStored(Ok(_))),
        SendMessageRun::next(s, outcome).stage is Storing && !(s.stage is Storing) ==> ({
            let c = SendMessageRun::next(s, outcome).stage->Storing_0;
            c.messages.len() > 0 && c.messages.last() == s.message
        }),
{
}

/// A sent message is added to the stored history: when the chat with the
/// peer loads, the chat to store has that chat's peer and all its messages,
/// in order, followed by the new message; when there is none, a chat with
/// the peer holding only the new message; a chat that cannot be loaded ends
/// the run with the repository's error.
pub proof fn send_message_appends_to_history(
    s: SendMessageState,
    loaded: Result<Option<Chat>, RepositoryError>,
)
    requires
        s.stage is Loading,
    ensures
        ({
            let t = SendMessageRun::next(s, Outcome::ChatLoaded(loaded)).stage;
            match loaded {
                Ok(Some(c)) => {
                    let stored = t->Storing_0;
                    &&& t is Storing
                    &&& stored.peer == c@.peer
                    &&& stored.messages.len() == c@.messages.len() + 1
                    &&& forall|i: int|
                        0 <= i < c@.messages.len() ==> #[trigger] stored.messages[i]
                            == c@.messages[i]
                    &&& stored.messages[c@.messages.len() as int] == s.message
                },
                Ok(None) => t is Storing && t->Storing_0.peer == s.peer
                    && t->Storing_0.messages.len() == 1 && t->Storing_0.messages[0] == s.message,
                Err(e) => t == SendMessageStage::Finished(Err(ApplicationError::RepositoryError(e))),
            }
        }),
{
}

/// A run is about its own peer and message throughout: it delivers the
/// message to the peer, loads the chat with the peer, and announces the
/// peer, the content and whether the delivery succeeded; no step changes
/// the peer or the content.
pub proof fn send_message_effects_concern_its_peer(s: SendMessageState, outcome: Outcome)
    ensures
        match SendMessageRun::pending_view(s) {
            EffectView::Deliver(p, m) => s.stage is Delivering && p == s.peer && m == s.message,
            EffectView::LoadChat(p) => s.stage is Loading && p == s.peer,
            EffectView::StoreChat(c) => s.stage == SendMessageStage::Storing(c),
            EffectView::Emit(e) => s.stage is Announcing && e == AppEvent::MessageSent {
                peer: s.peer,
                content: s.content,
                delivered: s.delivered,
            },
            EffectView::Finish(r) => s.stage == SendMessageStage::Finished(r),
            _ => false,
        },
        SendMessageRun::next(s, outcome).peer == s.peer,
        SendMessageRun::next(s, outcome).content == s.content,
{
}

/// How far a run is from its end: the number of effects still to answer.
pub open spec fn send_message_rank(stage: SendMessageStage) -> nat {
    match stage {
        SendMessageStage::Delivering => 4,
        SendMessageStage::Loading => 3,
        SendMessageStage::Storing(_) => 2,
        SendMessageStage::Announcing => 1,
        SendMessageStage::Finished(_) => 0,
    }
}

/// A run whose pending effects are answered reaches `Finish`: each answer
/// lowers the rank, and rank 0 is the finished stage.
pub proof fn send_message_reaches_finish(s: SendMessageState, outcome: Outcome)
    requires
        answers(SendMessageRun::pending_view(s), outcome),
    ensures
        send_message_rank(SendMessageRun::next(s, outcome).stage) < send_message_rank(s.stage),
        send_message_rank(s.stage) == 0 <==> s.stage is Finished,
{
}

impl UseCaseRun for SendMessageRun {
    fn pending(&self) -> (r: Effect)
        ensures
            r@ == SendMessageRun::pending_view(self@),
    {
        match &self.step {
            SendStep::Delivering => Effect::Deliver(self.peer.clone(), self.message.clone()),
            SendStep::Loading => Effect::LoadChat(self.peer.clone()),
            SendStep::Storing(c) => Effect::StoreChat(c.clone()),
            SendStep::Announcing => Effect::Emit(
                AppEvent::MessageSent {
                    peer: self.peer.clone(),
                    content: self.content.clone(),
                    delivered: self.delivered,
                },
            ),
            SendStep::Finished(r) => Effect::Finish(clone_result(r)),
        }
    }

    fn resume(&mut self, outcome: Outcome)
        ensures
            final(self)@ == SendMessageRun::next(old(self)@, outcome),
    {
        let mut step = SendStep::Loading;
        std::mem::swap(&mut step, &mut self.step);
        match step {
            SendStep::Delivering => match outcome {
                Outcome::Delivered(r) => {
                    if r.is_ok() {
                        self.message.mark_sent();
                    }
                    self.delivered = r.is_ok();
                    self.step = SendStep::Loading;
                },
                _ => {
                    self.step = SendStep::Delivering;
                },
            },
            SendStep::Loading => match outcome {
                Outcome::ChatLoaded(Ok(loaded)) => {
                    let mut chat = match loaded {
                        Some(c) => c,
                        None => Chat::create(self.peer.clone()),
                    };
                    chat.add_message(self.message.clone());
                    self.step = SendStep::Storing(chat);
                },
                Outcome::ChatLoaded(Err(e)) => {
                    self.step = SendStep::Finished(Err(ApplicationError::RepositoryError(e)));
                },
                _ => {
                    self.step = SendStep::Loading;
                },
            },
            SendStep::Storing(c) => match outcome {
                Outcome::ChatStored(Ok(())) => {
                    self.step = SendStep::Announcing;
                },
                Outcome::ChatStored(Err(e)) => {
                    self.step = SendStep::Finished(Err(ApplicationError::RepositoryError(e)));
                },
                _ => {
                    self.step = SendStep::Storing(c);
                },
            },
            SendStep::Announcing => match outcome {
                Outcome::Emitted => {
                    self.step = SendStep::Finished(Ok(()));
                },
                _ => {
                    self.step = SendStep::Announcing;
                },
            },
            SendStep::Finished(r) => {
                self.step = SendStep::Finished(r);
            },
        }
    }
}

} // verus!
