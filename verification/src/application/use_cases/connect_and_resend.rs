use vstd::prelude::*;
use crate::application::effects::{answers, Effect, EffectView, Outcome, UseCaseRun};
use crate::application::error::{clone_result, ApplicationError, ConnectionServiceError, RepositoryError};
use crate::application::events::AppEvent;
use crate::domain::chat::{Chat, ChatView};
use crate::domain::message::{ChatMessage, DeliveryStatus, SentBy};
use crate::domain::peer::PeerId;

verus! {

/// Connects to a peer and delivers every message of mine in the chat with it
/// that is not yet sent; if any got through, stores the chat and announces
/// `MessagesDelivered`.
pub struct ConnectAndResend {}

/// The index of the first message at or after `from` that waits to be
/// delivered, or the length of `messages` if there is none.
pub open spec fn first_pending(messages: Seq<ChatMessage>, from: int) -> int
    decreases messages.len() - from,
{
    if from < 0 || from >= messages.len() {
        messages.len() as int
    } else if messages[from].is_pending() {
        from
    } else {
        first_pending(messages, from + 1)
    }
}

/// `chat` with its `k`-th message marked sent.
pub open spec fn mark_at(chat: ChatView, k: int) -> ChatView {
    ChatView { peer: chat.peer, messages: chat.messages.update(k, chat.messages[k].marked_sent()) }
}

enum ResendStep {
    Connecting,
    Loading,
    Resending { chat: Chat, next: usize, any_sent: bool },
    Storing(Chat),
    Announcing,
    Finished(Result<(), ApplicationError>),
}

/// Where a run of `ConnectAndResend` stands.
pub enum ConnectAndResendStage {
    /// Connecting to the peer.
    Connecting,
    /// Loading the chat with the peer.
    Loading,
    /// Delivering message `next` of `chat`; `any_sent` tells whether an
    /// earlier delivery of this run succeeded.
    Resending { chat: ChatView, next: int, any_sent: bool },
    /// Storing the chat with the delivered messages marked sent.
    Storing(ChatView),
    /// Announcing `MessagesDelivered`.
    Announcing,
    Finished(Result<(), ApplicationError>),
}

/// A run of `ConnectAndResend` as a value; `loaded` is the message list as
/// the chat was loaded (empty before that).
pub struct ConnectAndResendState {
    pub peer: PeerId,
    pub loaded: Seq<ChatMessage>,
    pub stage: ConnectAndResendStage,
}

pub struct ConnectAndResendRun {
    peer: PeerId,
    loaded: Ghost<Seq<ChatMessage>>,
    step: ResendStep,
}

impl View for ConnectAndResendRun {
    type V = ConnectAndResendState;

    closed spec fn view(&self) -> ConnectAndResendState {
        ConnectAndResendState {
            peer: self.peer,
            loaded: self.loaded@,
            stage: match self.step {
                ResendStep::Connecting => ConnectAndResendStage::Connecting,
                ResendStep::Loading => ConnectAndResendStage::Loading,
                ResendStep::Resending { chat, next, any_sent } => ConnectAndResendStage::Resending {
                    chat: chat@,
                    next: next as int,
                    any_sent,
                },
                ResendStep::Storing(c) => ConnectAndResendStage::Storing(c@),
                ResendStep::Announcing => ConnectAndResendStage::Announcing,
                ResendStep::Finished(r) => ConnectAndResendStage::Finished(r),
            },
        }
    }
}

/// The stage after the messages before `from` are dealt with: deliver the
/// next waiting message, or else store the chat if a delivery succeeded, or
/// else finish.
pub open spec fn resend_from(chat: ChatView, from: int, any_sent: bool) -> ConnectAndResendStage {
    let i = first_pending(chat.messages, from);
    if i < chat.messages.len() {
        ConnectAndResendStage::Resending { chat, next: i, any_sent }
    } else if any_sent {
        ConnectAndResendStage::Storing(chat)
    } else {
        ConnectAndResendStage::Finished(Ok(()))
    }
}

impl ConnectAndResend {
    pub fn new() -> (r: Self) {
        ConnectAndResend {  }
    }

    pub fn execute(&self, peer: PeerId) -> (r: ConnectAndResendRun)
        ensures
            r@.peer == peer,
            r@.loaded == Seq::<ChatMessage>::empty(),
            r@.stage == ConnectAndResendStage::Connecting,
    {
        ConnectAndResendRun { peer, loaded: Ghost(Seq::empty()), step: ResendStep::Connecting }
    }
}

proof fn lemma_first_pending_bounds(messages: Seq<ChatMessage>, from: int)
    requires
        0 <= from,
    ensures
        from <= first_pending(messages, from) || first_pending(messages, from) == messages.len(),
        first_pending(messages, from) <= messages.len(),
        first_pending(messages, from) < messages.len() ==> messages[first_pending(
            messages,
            from,
        )].is_pending(),
        forall|k: int|
            from <= k < first_pending(messages, from) ==> !(#[trigger] messages[k]).is_pending(),
    decreases messages.len() - from,
{
    if from < messages.len() && !messages[from].is_pending() {
        lemma_first_pending_bounds(messages, from + 1);
    }
}

/// The first message at or after `from` that waits to be delivered.
fn find_pending(messages: &Vec<ChatMessage>, from: usize) -> (r: usize)
    ensures
        r == first_pending(messages@, from as int),
{
    let mut i = from;
    while i < messages.len() && !(*messages[i].sent_by() == SentBy::Me
        && *messages[i].delivery_status() == DeliveryStatus::NotSent)
        invariant
            from <= i,
            first_pending(messages@, from as int) == first_pending(messages@, i as int),
        decreases messages.len() - i,
    {
        i = i + 1;
    }
    if i > messages.len() {
        i = messages.len();
    }
    i
}

impl ConnectAndResendRun {
    #[verifier::type_invariant]
    closed spec fn well_formed(self) -> bool {
        match self.step {
            ResendStep::Resending { chat, next, any_sent } => next < chat.messages.len()
                && chat.messages@[next as int].is_pending(),
            _ => true,
        }
    }

    pub open spec fn pending_view(s: ConnectAndResendState) -> EffectView {
        match s.stage {
            ConnectAndResendStage::Connecting => EffectView::Connect(s.peer),
            ConnectAndResendStage::Loading => EffectView::LoadChat(s.peer),
            ConnectAndResendStage::Resending { chat, next, any_sent } => EffectView::Deliver(
                s.peer,
                chat.messages[next],
            ),
            ConnectAndResendStage::Storing(c) => EffectView::StoreChat(c),
            ConnectAndResendStage::Announcing => EffectView::Emit(
                AppEvent::MessagesDelivered { peer: s.peer },
            ),
            ConnectAndResendStage::Finished(r) => EffectView::Finish(r),
        }
    }

    /// The run after `outcome`. A failed connection ends the run with a
    /// network error, a failed load or store with the repository's error. A
    /// chat that is not stored yet is a new, empty one. Each message of mine
    /// that is not yet sent is delivered in turn, and marked sent if that
    /// succeeded; a failed delivery is skipped. An outcome that does not
    /// answer the pending effect is ignored.
    pub open spec fn next(s: ConnectAndResendState, outcome: Outcome) -> ConnectAndResendState {
        match s.stage {
            ConnectAndResendStage::Connecting => match outcome {
                Outcome::Connected(Ok(())) => ConnectAndResendState {
                    stage: ConnectAndResendStage::Loading,
                    ..s
                },
                Outcome::Connected(Err(e)) => ConnectAndResendState {
                    stage: ConnectAndResendStage::Finished(Err(ApplicationError::NetworkError(e))),
                    ..s
                },
                _ => s,
            },
            ConnectAndResendStage::Loading => match outcome {
                Outcome::ChatLoaded(Ok(loaded)) => {
                    let chat = match loaded {
                        Some(c) => c@,
                        None => ChatView { peer: s.peer, messages: Seq::empty() },
                    };
                    ConnectAndResendState {
                        peer: s.peer,
                        loaded: chat.messages,
                        stage: resend_from(chat, 0, false),
                    }
                },
                Outcome::ChatLoaded(Err(e)) => ConnectAndResendState {
                    stage: ConnectAndResendStage::Finished(
                        Err(ApplicationError::RepositoryError(e)),
                    ),
                    ..s
                },
                _ => s,
            },
            ConnectAndResendStage::Resending { chat, next, any_sent } => match outcome {
                Outcome::Delivered(r) => ConnectAndResendState {
                    stage: resend_from(
                        if r is Ok { mark_at(chat, next) } else { chat },
                        next + 1,
                        any_sent || r is Ok,
                    ),
                    ..s
                },
                _ => s,
            },
            ConnectAndResendStage::Storing(_) => match outcome {
                Outcome::ChatStored(Ok(())) => ConnectAndResendState {
                    stage: ConnectAndResendStage::Announcing,
                    ..s
                },
                Outcome::ChatStored(Err(e)) => ConnectAndResendState {
                    stage: ConnectAndResendStage::Finished(
                        Err(ApplicationError::RepositoryError(e)),
                    ),
                    ..s
                },
                _ => s,
            },
            ConnectAndResendStage::Announcing => match outcome {
                Outcome::Emitted => ConnectAndResendState {
                    stage: ConnectAndResendStage::Finished(Ok(())),
                    ..s
                },
                _ => s,
            },
            ConnectAndResendStage::Finished(_) => s,
        }
    }

    /// Moves on from message `from` of `chat`.
    fn resend_from(&mut self, chat: Chat, from: usize, any_sent: bool)
        requires
            from <= chat.messages.len(),
        ensures
            final(self).peer == old(self).peer,
            final(self).loaded == old(self).loaded,
            final(self)@.stage == resend_from(chat@, from as int, any_sent),
    {
        let i = find_pending(&chat.messages, from);
        proof {
            lemma_first_pending_bounds(chat.messages@, from as int);
        }
        if i < chat.messages.len() {
            self.step = ResendStep::Resending { chat, next: i, any_sent };
        } else if any_sent {
            self.step = ResendStep::Storing(chat);
        } else {
            self.step = ResendStep::Finished(Ok(()));
        }
    }
}

/// `now` is `loaded` with some of the messages before `upto` that waited to
/// be delivered marked sent, and nothing else changed.
pub open spec fn only_delivered_changed(loaded: Seq<ChatMessage>, now: Seq<ChatMessage>, upto: int) -> bool {
    &&& now.len() == loaded.len()
    &&& forall|k: int|
        0 <= k < now.len() ==> (#[trigger] now[k] == loaded[k] || (k < upto
            && loaded[k].is_pending() && now[k] == loaded[k].marked_sent()))
}

/// What holds of every run at every stage: the message being delivered waits
/// for delivery and is still as loaded; the chat differs from the loaded one
/// only in earlier waiting messages, now marked sent; `any_sent` holds only
/// if one did change; and a chat to store has at least one such change.
pub open spec fn resend_invariant(s: ConnectAndResendState) -> bool {
    match s.stage {
        ConnectAndResendStage::Resending { chat, next, any_sent } => {
            &&& 0 <= next < chat.messages.len()
            &&& chat.messages[next].is_pending()
            &&& chat.messages[next] == s.loaded[next]
            &&& only_delivered_changed(s.loaded, chat.messages, next)
            &&& any_sent ==> exists|k: int|
                0 <= k < next && #[trigger] chat.messages[k] != s.loaded[k]
        },
        ConnectAndResendStage::Storing(c) => {
            &&& only_delivered_changed(s.loaded, c.messages, c.messages.len() as int)
            &&& exists|k: int| 0 <= k < c.messages.len() && #[trigger] c.messages[k] != s.loaded[k]
        },
        _ => true,
    }
}

proof fn lemma_resend_from_invariant(
    peer: PeerId,
    loaded: Seq<ChatMessage>,
    chat: ChatView,
    from: int,
    any_sent: bool,
)
    requires
        0 <= from <= chat.messages.len(),
        only_delivered_changed(loaded, chat.messages, from),
        forall|k: int| from <= k < chat.messages.len() ==> #[trigger] chat.messages[k] == loaded[k],
        any_sent ==> exists|k: int| 0 <= k < from && #[trigger] chat.messages[k] != loaded[k],
    ensures
        resend_invariant(
            ConnectAndResendState { peer, loaded, stage: resend_from(chat, from, any_sent) },
        ),
{
    lemma_first_pending_bounds(chat.messages, from);
    let i = first_pending(chat.messages, from);
    if i < chat.messages.len() {
        assert(only_delivered_changed(loaded, chat.messages, i));
        if any_sent {
            let k = choose|k: int| 0 <= k < from && #[trigger] chat.messages[k] != loaded[k];
            assert(0 <= k < i && chat.messages[k] != loaded[k]);
        }
    } else if any_sent {
        let k = choose|k: int| 0 <= k < from && #[trigger] chat.messages[k] != loaded[k];
        assert(0 <= k < chat.messages.len() && chat.messages[k] != loaded[k]);
    }
}

/// Every step of a run keeps `resend_invariant`, and a new run satisfies it.
/// So a run only ever delivers messages of mine that wait for delivery, and
/// the chat it stores is the loaded one with some of those, and nothing
/// else, marked sent.
pub proof fn resend_keeps_invariant(s: ConnectAndResendState, outcome: Outcome)
    requires
        resend_invariant(s),
    ensures
        resend_invariant(ConnectAndResendRun::next(s, outcome)),
{
    match s.stage {
        ConnectAndResendStage::Loading => {
            if let Outcome::ChatLoaded(Ok(loaded)) = outcome {
                let chat = match loaded {
                    Some(c) => c@,
                    None => ChatView { peer: s.peer, messages: Seq::empty() },
                };
                lemma_resend_from_invariant(s.peer, chat.messages, chat, 0, false);
            }
        },
        ConnectAndResendStage::Resending { chat, next, any_sent } => {
            if let Outcome::Delivered(r) = outcome {
                let m = chat.messages[next];
                m.lemma_marked_sent();
                let chat2 = if r is Ok { mark_at(chat, next) } else { chat };
                assert(only_delivered_changed(s.loaded, chat2.messages, next + 1));
                if r is Ok {
                    assert(chat2.messages[next] != s.loaded[next]);
                } else if any_sent {
                    let k = choose|k: int| 0 <= k < next && #[trigger] chat.messages[k] != s.loaded[k];
                    assert(chat2.messages[k] != s.loaded[k]);
                }
                lemma_resend_from_invariant(s.peer, s.loaded, chat2, next + 1, any_sent || r is Ok);
            }
        },
        _ => {},
    }
}

/// No waiting message is passed over: after the chat is loaded, and after
/// each delivery, the run moves on to the first message still waiting, and
/// stores or finishes only when none is left.
pub proof fn resend_visits_every_waiting_message(s: ConnectAndResendState, outcome: Outcome)
    requires
        resend_invariant(s),
    ensures
        s.stage is Resending && (outcome matches Outcome::Delivered(_)) ==> ({
            let i = s.stage->next;
            let n = s.loaded.len() as int;
            match ConnectAndResendRun::next(s, outcome).stage {
                ConnectAndResendStage::Resending { next, .. } => i < next && forall|k: int|
                    i < k < next ==> !(#[trigger] s.loaded[k]).is_pending(),
                _ => forall|k: int| i < k < n ==> !(#[trigger] s.loaded[k]).is_pending(),
            }
        }),
        s.stage is Loading && (outcome matches Outcome::ChatLoaded(Ok(_))) ==> ({
            let t = ConnectAndResendRun::next(s, outcome);
            match t.stage {
                ConnectAndResendStage::Resending { next, .. } => forall|k: int|
                    0 <= k < next ==> !(#[trigger] t.loaded[k]).is_pending(),
                _ => forall|k: int|
                    0 <= k < t.loaded.len() ==> !(#[trigger] t.loaded[k]).is_pending(),
            }
        }),
{
    if let ConnectAndResendStage::Resending { chat, next, any_sent } = s.stage {
        if let Outcome::Delivered(r) = outcome {
            let chat2 = if r is Ok { mark_at(chat, next) } else { chat };
            lemma_first_pending_bounds(chat2.messages, next + 1);
            assert forall|k: int| next < k < chat2.messages.len() implies chat2.messages[k]
                == s.loaded[k] by {}
        }
    }
    if let ConnectAndResendStage::Loading = s.stage {
        if let Outcome::ChatLoaded(Ok(loaded)) = outcome {
            let chat = match loaded {
                Some(c) => c@,
                None => ChatView { peer: s.peer, messages: Seq::empty() },
            };
            lemma_first_pending_bounds(chat.messages, 0);
        }
    }
}

/// The deliveries a run asks for are of waiting messages of mine only.
pub proof fn resend_delivers_only_pending(s: ConnectAndResendState)
    requires
        resend_invariant(s),
    ensures
        ConnectAndResendRun::pending_view(s) matches EffectView::Deliver(_, m) ==> m.is_pending(),
{
}

/// `MessagesDelivered` is announced only right after the chat was stored
/// successfully, and a run stores the chat only after some delivery
/// succeeded.
pub proof fn resend_announces_only_after_store(s: ConnectAndResendState, outcome: Outcome)
    requires
        resend_invariant(s),
    ensures
        ConnectAndResendRun::next(s, outcome).stage is Announcing && !(s.stage is Announcing)
            ==> s.stage is Storing && (outcome matches Outcome::ChatStored(Ok(_))),
        ConnectAndResendRun::next(s, outcome).stage is Storing && !(s.stage is Storing) ==> (
        s.stage is Resending && (outcome matches Outcome::Delivered(r) && (r is Ok
            || s.stage->any_sent))),
{
    if let ConnectAndResendStage::Resending { chat, next, any_sent } = s.stage {
        if let Outcome::Delivered(r) = outcome {
            let chat2 = if r is Ok { mark_at(chat, next) } else { chat };
            lemma_first_pending_bounds(chat2.messages, next + 1);
        }
    }
    if let ConnectAndResendStage::Loading = s.stage {
        if let Outcome::ChatLoaded(Ok(loaded)) = outcome {
            let chat = match loaded {
                Some(c) => c@,
                None => ChatView { peer: s.peer, messages: Seq::empty() },
            };
            lemma_first_pending_bounds(chat.messages, 0);
        }
    }
}

/// The chat the run goes on with after the answer to a delivery: the one it
/// keeps resending from, or the one it stores.
pub open spec fn chat_after(stage: ConnectAndResendStage) -> Option<ChatView> {
    match stage {
        ConnectAndResendStage::Resending { chat, .. } => Some(chat),
        ConnectAndResendStage::Storing(c) => Some(c),
        _ => None,
    }
}

/// A delivered message is marked sent exactly when its delivery succeeded,
/// whatever earlier deliveries did: after the answer to a delivery, the
/// chat the run goes on with (there is one whenever the delivery worked)
/// has that message sent if the delivery worked and still waiting if it
/// failed, with its id, sender and text kept, and every other message as
/// it was.
pub proof fn resend_marks_sent_exactly_on_success(
    s: ConnectAndResendState,
    r: Result<(), ConnectionServiceError>,
)
    requires
        resend_invariant(s),
    ensures
        match s.stage {
            ConnectAndResendStage::Resending { chat, next, .. } => {
                let after = chat_after(ConnectAndResendRun::next(s, Outcome::Delivered(r)).stage);
                &&& r is Ok ==> after is Some
                &&& after matches Some(c) ==> {
                    let m = c.messages[next];
                    let was = chat.messages[next];
                    &&& c.peer == chat.peer
                    &&& c.messages.len() == chat.messages.len()
                    &&& m.spec_delivery_status() == (if r is Ok {
                        DeliveryStatus::Sent
                    } else {
                        DeliveryStatus::NotSent
                    })
                    &&& m.spec_id() == was.spec_id()
                    &&& m.spec_sent_by() == was.spec_sent_by()
                    &&& m.spec_content() == was.spec_content()
                    &&& forall|k: int|
                        0 <= k < chat.messages.len() && k != next ==> #[trigger] c.messages[k]
                            == chat.messages[k]
                }
            },
            _ => true,
        },
{
    if let ConnectAndResendStage::Resending { chat, next, any_sent } = s.stage {
        let m = chat.messages[next];
        m.lemma_marked_sent();
        let chat2 = if r is Ok { mark_at(chat, next) } else { chat };
        lemma_first_pending_bounds(chat2.messages, next + 1);
    }
}

/// A run is about its own peer throughout: it connects to the peer, loads
/// the chat with the peer, delivers to the peer the waiting message of
/// that chat it stands at (as it was loaded), and announces the peer. A
/// failed connection ends the run with a network error and a failed load
/// with the repository's error, before anything is delivered.
pub proof fn resend_effects_concern_its_peer(
    s: ConnectAndResendState,
    connected: Result<(), ConnectionServiceError>,
    loaded: Result<Option<Chat>, RepositoryError>,
    outcome: Outcome,
)
    requires
        resend_invariant(s),
    ensures
        match ConnectAndResendRun::pending_view(s) {
            EffectView::Connect(p) => s.stage is Connecting && p == s.peer,
            EffectView::LoadChat(p) => s.stage is Loading && p == s.peer,
            EffectView::Deliver(p, m) => {
                &&& s.stage is Resending
                &&& p == s.peer
                &&& 0 <= s.stage->next < s.loaded.len()
                &&& m == s.loaded[s.stage->next]
                &&& m.is_pending()
            },
            EffectView::StoreChat(c) => s.stage == ConnectAndResendStage::Storing(c),
            EffectView::Emit(e) => s.stage is Announcing && e == AppEvent::MessagesDelivered {
                peer: s.peer,
            },
            EffectView::Finish(r) => s.stage == ConnectAndResendStage::Finished(r),
            _ => false,
        },
        ConnectAndResendRun::next(s, outcome).peer == s.peer,
        s.stage is Connecting ==> ConnectAndResendRun::next(
            s,
            Outcome::Connected(connected),
        ).stage == match connected {
            Ok(()) => ConnectAndResendStage::Loading,
            Err(e) => ConnectAndResendStage::Finished(Err(ApplicationError::NetworkError(e))),
        },
        s.stage is Loading && loaded is Err ==> ConnectAndResendRun::next(
            s,
            Outcome::ChatLoaded(loaded),
        ).stage == ConnectAndResendStage::Finished(
            Err(ApplicationError::RepositoryError(loaded->Err_0)),
        ),
{
}

/// The stage part of how far a run is from its end.
pub open spec fn resend_rank(stage: ConnectAndResendStage) -> nat {
    match stage {
        ConnectAndResendStage::Connecting => 5,
        ConnectAndResendStage::Loading => 4,
        ConnectAndResendStage::Resending { .. } => 3,
        ConnectAndResendStage::Storing(_) => 2,
        ConnectAndResendStage::Announcing => 1,
        ConnectAndResendStage::Finished(_) => 0,
    }
}

/// While resending: how many messages from the one being delivered on are
/// left to look at.
pub open spec fn resend_remaining(stage: ConnectAndResendStage) -> nat {
    match stage {
        ConnectAndResendStage::Resending { chat, next, .. } => if 0 <= next < chat.messages.len() {
            (chat.messages.len() - next) as nat
        } else {
            0
        },
        _ => 0,
    }
}

/// A run whose pending effects are answered reaches `Finish`: each answer
/// lowers the stage rank, or keeps resending and lowers the number of
/// messages left to look at; rank 0 is the finished stage. (Every run keeps
/// `resend_invariant`, see `resend_keeps_invariant`.)
pub proof fn resend_reaches_finish(s: ConnectAndResendState, outcome: Outcome)
    requires
        resend_invariant(s),
        answers(ConnectAndResendRun::pending_view(s), outcome),
    ensures
        ({
            let t = ConnectAndResendRun::next(s, outcome).stage;
            ||| resend_rank(t) < resend_rank(s.stage)
            ||| resend_rank(t) == resend_rank(s.stage) && resend_remaining(t) < resend_remaining(
                s.stage,
            )
        }),
        resend_rank(s.stage) == 0 <==> s.stage is Finished,
{
    if let ConnectAndResendStage::Resending { chat, next, any_sent } = s.stage {
        if let Outcome::Delivered(r) = outcome {
            let chat2 = if r is Ok { mark_at(chat, next) } else { chat };
            assert(chat2.messages.len() == chat.messages.len());
            lemma_first_pending_bounds(chat2.messages, next + 1);
        }
    }
}

impl UseCaseRun for ConnectAndResendRun {
    fn pending(&self) -> (r: Effect)
        ensures
            r@ == ConnectAndResendRun::pending_view(self@),
    {
        proof {
            use_type_invariant(self);
        }
        match &self.step {
            ResendStep::Connecting => Effect::Connect(self.peer.clone()),
            ResendStep::Loading => Effect::LoadChat(self.peer.clone()),
            ResendStep::Resending { chat, next, any_sent } => Effect::Deliver(
                self.peer.clone(),
                chat.messages[*next].clone(),
            ),
            ResendStep::Storing(c) => Effect::StoreChat(c.clone()),
            ResendStep::Announcing => Effect::Emit(
                AppEvent::MessagesDelivered { peer: self.peer.clone() },
            ),
            ResendStep::Finished(r) => Effect::Finish(clone_result(r)),
        }
    }

    fn resume(&mut self, outcome: Outcome)
        ensures
            final(self)@ == ConnectAndResendRun::next(old(self)@, outcome),
    {
        proof {
            use_type_invariant(&*self);
        }
        let mut step = ResendStep::Connecting;
        std::mem::swap(&mut step, &mut self.step);
        match step {
            ResendStep::Connecting => match outcome {
                Outcome::Connected(Ok(())) => {
                    self.step = ResendStep::Loading;
                },
                Outcome::Connected(Err(e)) => {
                    self.step = ResendStep::Finished(Err(ApplicationError::NetworkError(e)));
                },
                _ => {
                    self.step = ResendStep::Connecting;
                },
            },
            ResendStep::Loading => match outcome {
                Outcome::ChatLoaded(Ok(loaded)) => {
                    let chat = match loaded {
                        Some(c) => c,
                        None => Chat::create(self.peer.clone()),
                    };
                    self.loaded = Ghost(chat.messages@);
                    self.resend_from(chat, 0, false);
                },
                Outcome::ChatLoaded(Err(e)) => {
                    self.step = ResendStep::Finished(Err(ApplicationError::RepositoryError(e)));
                },
                _ => {
                    self.step = ResendStep::Loading;
                },
            },
            ResendStep::Resending { chat, next, any_sent } => match outcome {
                Outcome::Delivered(r) => {
                    let mut chat = chat;
                    let ok = r.is_ok();
                    if ok {
                        let mut m = chat.messages[next].clone();
                        m.mark_sent();
                        chat.messages.set(next, m);
                    }
                    self.resend_from(chat, next + 1, any_sent || ok);
                },
                _ => {
                    self.step = ResendStep::Resending { chat, next, any_sent };
                },
            },
            ResendStep::Storing(c) => match outcome {
                Outcome::ChatStored(Ok(())) => {
                    self.step = ResendStep::Announcing;
                },
                Outcome::ChatStored(Err(e)) => {
                    self.step = ResendStep::Finished(Err(ApplicationError::RepositoryError(e)));
                },
                _ => {
                    self.step = ResendStep::Storing(c);
                },
            },
            ResendStep::Announcing => match outcome {
                Outcome::Emitted => {
                    self.step = ResendStep::Finished(Ok(()));
                },
                _ => {
                    self.step = ResendStep::Announcing;
                },
            },
            ResendStep::Finished(r) => {
                self.step = ResendStep::Finished(r);
            },
        }
    }
}

} // verus!
