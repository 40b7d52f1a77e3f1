//! The client session actor: one control stream of intents, consumed in
//! order, deciding what the driver does with the outbound connection; and the
//! message log that the inbound reader fills.
use crate::message::{ChatMessage, MessageModel};
use crate::wire::{decode_message, encode_message, frame_message, message_frame};
use vstd::prelude::*;

verus! {

/// What the user asks of the session.
pub enum ChatAction {
    Connect,
    SetUser(String),
    SendMessage(String),
}

/// What the control stream hands the session: a user intent, or the outcome
/// of opening the connection that a `Connect` asked for.
pub enum SessionEvent {
    Action(ChatAction),
    Opened,
    OpenFailed(String),
}

/// What the driver does after an event.
pub enum SessionEffect {
    /// Nothing to do.
    Idle,
    /// Open the outbound connection and report back `Opened` or `OpenFailed`.
    Open,
    /// Write this text frame on the open connection, without waiting on the
    /// outcome.
    Write(String),
    /// A send was asked for without a name or without a connection: log it.
    Warn,
}

pub enum EventModel {
    Connect,
    SetUser(Seq<char>),
    SendMessage(Seq<char>),
    Opened,
    OpenFailed(Seq<char>),
}

pub enum EffectModel {
    Idle,
    Open,
    Write(Seq<char>),
    Warn,
}

pub struct SessionModel {
    pub username: Option<Seq<char>>,
    pub connected: bool,
    pub last_error: Option<Seq<char>>,
}

impl View for SessionEvent {
    type V = EventModel;

    open spec fn view(&self) -> EventModel {
        match self {
            SessionEvent::Action(ChatAction::Connect) => EventModel::Connect,
            SessionEvent::Action(ChatAction::SetUser(n)) => EventModel::SetUser(n@),
            SessionEvent::Action(ChatAction::SendMessage(t)) => EventModel::SendMessage(t@),
            SessionEvent::Opened => EventModel::Opened,
            SessionEvent::OpenFailed(e) => EventModel::OpenFailed(e@),
        }
    }
}

impl View for SessionEffect {
    type V = EffectModel;

    open spec fn view(&self) -> EffectModel {
        match self {
            SessionEffect::Idle => EffectModel::Idle,
            SessionEffect::Open => EffectModel::Open,
            SessionEffect::Write(f) => EffectModel::Write(f@),
            SessionEffect::Warn => EffectModel::Warn,
        }
    }
}

/// A session that has seen no event.
pub open spec fn fresh_session() -> SessionModel {
    SessionModel { username: None, connected: false, last_error: None }
}

/// One event: the next state and what the driver does.
pub open spec fn step(s: SessionModel, e: EventModel) -> (SessionModel, EffectModel) {
    match e {
        EventModel::SetUser(n) => (SessionModel { username: Some(n), ..s }, EffectModel::Idle),
        EventModel::Connect => (s, EffectModel::Open),
        EventModel::Opened => (SessionModel { connected: true, ..s }, EffectModel::Idle),
        EventModel::OpenFailed(err) => (
            SessionModel { last_error: Some(err), ..s },
            EffectModel::Idle,
        ),
        EventModel::SendMessage(t) => match s.username {
            Some(u) => if s.connected {
                (s, EffectModel::Write(message_frame(u, t)))
            } else {
                (s, EffectModel::Warn)
            },
            None => (s, EffectModel::Warn),
        },
    }
}

/// The frames that an effect writes.
pub open spec fn written(eff: EffectModel) -> Seq<Seq<char>> {
    match eff {
        EffectModel::Write(f) => seq![f],
        _ => Seq::empty(),
    }
}

/// Events processed in order: the final state and the frames written.
pub open spec fn run(s: SessionModel, evs: Seq<EventModel>) -> (SessionModel, Seq<Seq<char>>)
    decreases evs.len(),
{
    if evs.len() == 0 {
        (s, Seq::empty())
    } else {
        let before = run(s, evs.drop_last());
        let last = step(before.0, evs.last());
        (last.0, before.1 + written(last.1))
    }
}

/// Name, then connect, then send, in that order on one stream: exactly one
/// frame is written, and it carries that name and that text.
pub proof fn lemma_identity_connect_send(s: SessionModel, name: Seq<char>, text: Seq<char>)
    ensures
        run(
            s,
            seq![
                EventModel::SetUser(name),
                EventModel::Connect,
                EventModel::Opened,
                EventModel::SendMessage(text),
            ],
        ).1 == seq![message_frame(name, text)],
{
    let e0 = EventModel::SetUser(name);
    let e1 = EventModel::Connect;
    let e2 = EventModel::Opened;
    let e3 = EventModel::SendMessage(text);
    let evs = seq![e0, e1, e2, e3];
    assert(evs.drop_last() =~= seq![e0, e1, e2]);
    assert(seq![e0, e1, e2].drop_last() =~= seq![e0, e1]);
    assert(seq![e0, e1].drop_last() =~= seq![e0]);
    assert(seq![e0].drop_last() =~= Seq::<EventModel>::empty());
    assert(run(s, Seq::<EventModel>::empty()).1 == Seq::<Seq<char>>::empty());
    let r0 = run(s, seq![e0]);
    assert(written(EffectModel::Idle) =~= Seq::<Seq<char>>::empty());
    assert(written(EffectModel::Open) =~= Seq::<Seq<char>>::empty());
    assert(r0.1 =~= Seq::<Seq<char>>::empty());
    let r1 = run(s, seq![e0, e1]);
    assert(r1.1 =~= Seq::<Seq<char>>::empty());
    let r2 = run(s, seq![e0, e1, e2]);
    assert(r2.1 =~= Seq::<Seq<char>>::empty());
    assert(r2.0.username == Some(name) && r2.0.connected);
    assert(run(s, evs).1 =~= seq![message_frame(name, text)]);
}

/// As long as no connection has opened, no event writes a frame and the
/// session stays unconnected.
pub proof fn lemma_no_frames_before_open(s: SessionModel, evs: Seq<EventModel>)
    requires
        !s.connected,
        forall|i: int| 0 <= i < evs.len() ==> !(#[trigger] evs[i] is Opened),
    ensures
        run(s, evs).1.len() == 0,
        !run(s, evs).0.connected,
    decreases evs.len(),
{
    if evs.len() > 0 {
        let front = evs.drop_last();
        assert forall|i: int| 0 <= i < front.len() implies !(#[trigger] front[i] is Opened) by {
            assert(front[i] == evs[i]);
        }
        assert(!(evs[evs.len() - 1] is Opened));
        lemma_no_frames_before_open(s, front);
    }
}

/// The name in force after these events: that of the last `SetUser`, or
/// `start` when there is none.
pub open spec fn latest_name(start: Option<Seq<char>>, evs: Seq<EventModel>) -> Option<Seq<char>>
    decreases evs.len(),
{
    if evs.len() == 0 {
        start
    } else {
        match evs.last() {
            EventModel::SetUser(n) => Some(n),
            _ => latest_name(start, evs.drop_last()),
        }
    }
}

/// Whether a connection opened among these events.
pub open spec fn has_opened(evs: Seq<EventModel>) -> bool {
    exists|i: int| 0 <= i < evs.len() && #[trigger] evs[i] is Opened
}

/// The frames a session owes for these events: one for each `SendMessage`,
/// in order, that comes when a connection has opened (before the events or
/// among the earlier ones) and a name is in force; it carries the name in
/// force and the text sent.
pub open spec fn owed_frames(s: SessionModel, evs: Seq<EventModel>) -> Seq<Seq<char>>
    decreases evs.len(),
{
    if evs.len() == 0 {
        Seq::empty()
    } else {
        let pre = evs.drop_last();
        match evs.last() {
            EventModel::SendMessage(t) => match latest_name(s.username, pre) {
                Some(u) => if s.connected || has_opened(pre) {
                    owed_frames(s, pre).push(message_frame(u, t))
                } else {
                    owed_frames(s, pre)
                },
                None => owed_frames(s, pre),
            },
            _ => owed_frames(s, pre),
        }
    }
}

/// Any events processed in order, from any state: the frames written are
/// exactly the frames owed, the name in force is that of the last `SetUser`,
/// and the session is connected exactly when it was or a connection opened.
pub proof fn lemma_events_in_order(s: SessionModel, evs: Seq<EventModel>)
    ensures
        run(s, evs).1 == owed_frames(s, evs),
        run(s, evs).0.username == latest_name(s.username, evs),
        run(s, evs).0.connected == (s.connected || has_opened(evs)),
    decreases evs.len(),
{
    if evs.len() > 0 {
        let pre = evs.drop_last();
        lemma_events_in_order(s, pre);
        assert(has_opened(evs) == (has_opened(pre) || evs.last() is Opened)) by {
            if has_opened(evs) && !(evs.last() is Opened) {
                let i = choose|i: int| 0 <= i < evs.len() && #[trigger] evs[i] is Opened;
                assert(pre[i] == evs[i]);
            }
            if has_opened(pre) {
                let i = choose|i: int| 0 <= i < pre.len() && #[trigger] pre[i] is Opened;
                assert(evs[i] == pre[i]);
            }
            if evs.last() is Opened {
                assert(evs[evs.len() - 1] is Opened);
            }
        }
        let before = run(s, pre);
        match evs.last() {
            EventModel::SendMessage(t) => {
                assert(written(step(before.0, evs.last()).1) =~= match latest_name(s.username, pre) {
                    Some(u) => if s.connected || has_opened(pre) {
                        seq![message_frame(u, t)]
                    } else {
                        Seq::empty()
                    },
                    None => Seq::empty(),
                });
            },
            _ => {
                assert(written(step(before.0, evs.last()).1) =~= Seq::<Seq<char>>::empty());
            },
        }
        assert(run(s, evs).1 =~= owed_frames(s, evs));
    }
}

/// Sending touches no local state and the control side holds no log: a sent
/// message is not echoed locally, and shows up in the log only when the relay
/// delivers it back as an inbound frame, as it does every other message.
pub proof fn lemma_send_has_no_local_echo(s: SessionModel, text: Seq<char>)
    ensures
        step(s, EventModel::SendMessage(text)).0 == s,
{
}

/// The control side of a session: the name to send under, whether the
/// outbound connection is open, and the last connection error.
pub struct ChatSession {
    username: Option<String>,
    connected: bool,
    last_error: Option<String>,
}

impl View for ChatSession {
    type V = SessionModel;

    closed spec fn view(&self) -> SessionModel {
        SessionModel {
            username: match self.username {
                Some(n) => Some(n@),
                None => None,
            },
            connected: self.connected,
            last_error: match self.last_error {
                Some(e) => Some(e@),
                None => None,
            },
        }
    }
}

impl ChatSession {
    pub fn new() -> (r: ChatSession)
        ensures
            r@ == fresh_session(),
    {
        ChatSession { username: None, connected: false, last_error: None }
    }

    /// Processes one event of the control stream.
    pub fn handle(&mut self, ev: SessionEvent) -> (eff: SessionEffect)
        ensures
            (final(self)@, eff@) == step(old(self)@, ev@),
    {
        match ev {
            SessionEvent::Action(ChatAction::SetUser(name)) => {
                self.username = Some(name);
                SessionEffect::Idle
            },
            SessionEvent::Action(ChatAction::Connect) => SessionEffect::Open,
            SessionEvent::Opened => {
                self.connected = true;
                SessionEffect::Idle
            },
            SessionEvent::OpenFailed(err) => {
                self.last_error = Some(err);
                SessionEffect::Idle
            },
            SessionEvent::Action(ChatAction::SendMessage(text)) => {
                match &self.username {
                    Some(user) => {
                        if self.connected {
                            let msg = ChatMessage::new(user.clone(), text);
                            SessionEffect::Write(encode_message(&msg))
                        } else {
                            SessionEffect::Warn
                        }
                    },
                    None => SessionEffect::Warn,
                }
            },
        }
    }

    pub fn username(&self) -> (r: Option<&String>)
        ensures
            r matches Some(n) ==> self@.username == Some(n@),
            r is None <==> self@.username is None,
    {
        self.username.as_ref()
    }

    pub fn is_connected(&self) -> (r: bool)
        ensures
            r == self@.connected,
    {
        self.connected
    }

    pub fn last_error(&self) -> (r: Option<&String>)
        ensures
            r matches Some(e) ==> self@.last_error == Some(e@),
            r is None <==> self@.last_error is None,
    {
        self.last_error.as_ref()
    }
}

/// The log after one inbound frame: the message it carries is appended;
/// a frame that carries none leaves the log as it was.
pub open spec fn absorb(log: Seq<MessageModel>, frame: Seq<char>) -> Seq<MessageModel> {
    match frame_message(frame) {
        Some(m) => log.push(m),
        None => log,
    }
}

/// The log after inbound frames, in the order they came.
pub open spec fn absorb_all(log: Seq<MessageModel>, frames: Seq<Seq<char>>) -> Seq<MessageModel>
    decreases frames.len(),
{
    if frames.len() == 0 {
        log
    } else {
        absorb(absorb_all(log, frames.drop_last()), frames.last())
    }
}

/// The log only grows: whatever frames come in, what was logged before stays
/// in place as a prefix.
pub proof fn lemma_log_only_grows(log: Seq<MessageModel>, frames: Seq<Seq<char>>)
    ensures
        absorb_all(log, frames).len() >= log.len(),
        absorb_all(log, frames).subrange(0, log.len() as int) == log,
    decreases frames.len(),
{
    if frames.len() > 0 {
        lemma_log_only_grows(log, frames.drop_last());
        let before = absorb_all(log, frames.drop_last());
        assert(absorb_all(log, frames).subrange(0, log.len() as int) =~= before.subrange(
            0,
            log.len() as int,
        ));
    }
}

/// The messages a session has received, in the order they came. The inbound
/// reader is its only writer; a message this session sends shows up here only
/// when it comes back from the relay.
pub struct MessageLog {
    messages: Vec<ChatMessage>,
}

impl View for MessageLog {
    type V = Seq<MessageModel>;

    closed spec fn view(&self) -> Seq<MessageModel> {
        self.messages@.map_values(|m: ChatMessage| m@)
    }
}

impl MessageLog {
    pub fn new() -> (r: MessageLog)
        ensures
            r@ == Seq::<MessageModel>::empty(),
    {
        let r = MessageLog { messages: Vec::new() };
        assert(r@ =~= Seq::<MessageModel>::empty());
        r
    }

    /// Takes one inbound text frame; returns whether it carried a message.
    pub fn receive(&mut self, frame: &str) -> (added: bool)
        ensures
            final(self)@ == absorb(old(self)@, frame@),
            added == frame_message(frame@) is Some,
    {
        match decode_message(frame) {
            Some(m) => {
                self.messages.push(m);
                assert(self@ =~= absorb(old(self)@, frame@));
                true
            },
            None => false,
        }
    }

    pub fn len(&self) -> (r: usize)
        ensures
            r == self@.len(),
    {
        self.messages.len()
    }

    /// The messages received so far, oldest first.
    pub fn messages(&self) -> (r: &Vec<ChatMessage>)
        ensures
            r@.map_values(|m: ChatMessage| m@) == self@,
    {
        &self.messages
    }
}

} // verus!
