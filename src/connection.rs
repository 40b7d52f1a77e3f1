//! The server side of one client connection: an inbound loop that publishes
//! what the client sends, and an outbound loop that writes what the hub
//! delivers. Whichever loop ends first ends the connection.
use crate::message::{ChatMessage, MessageModel};
use crate::wire::{decode_message, encode_message, frame_message, message_frame};
use vstd::prelude::*;

verus! {

/// A frame read from the client socket.
pub enum Inbound {
    Text(String),
    /// Binary, ping and pong frames.
    Other,
    Close,
    /// A read error, or the end of the stream.
    Failed,
}

/// What the inbound loop does with a frame.
pub enum InboundAction {
    Publish(ChatMessage),
    Ignore,
    Stop,
}

/// What the connection's hub subscription yields.
pub enum HubEvent {
    Message(ChatMessage),
    /// This subscriber fell behind and this many messages were dropped for it.
    Lagged(u64),
    Closed,
}

/// What the outbound loop does with a hub event.
pub enum OutboundAction {
    Write(String),
    /// Nothing to write; keep reading from the hub.
    Skip,
    Stop,
}

#[derive(PartialEq, Eq, Structural, Clone, Copy, Debug)]
pub enum Phase {
    Open,
    Closing,
    Closed,
}

pub enum InboundModel {
    Text(Seq<char>),
    Other,
    Close,
    Failed,
}

pub enum InboundActionModel {
    Publish(MessageModel),
    Ignore,
    Stop,
}

pub enum HubEventModel {
    Message(MessageModel),
    Lagged(u64),
    Closed,
}

pub enum OutboundActionModel {
    Write(Seq<char>),
    Skip,
    Stop,
}

impl View for Inbound {
    type V = InboundModel;

    open spec fn view(&self) -> InboundModel {
        match self {
            Inbound::Text(t) => InboundModel::Text(t@),
            Inbound::Other => InboundModel::Other,
            Inbound::Close => InboundModel::Close,
            Inbound::Failed => InboundModel::Failed,
        }
    }
}

impl View for InboundAction {
    type V = InboundActionModel;

    open spec fn view(&self) -> InboundActionModel {
        match self {
            InboundAction::Publish(m) => InboundActionModel::Publish(m@),
            InboundAction::Ignore => InboundActionModel::Ignore,
            InboundAction::Stop => InboundActionModel::Stop,
        }
    }
}

impl View for HubEvent {
    type V = HubEventModel;

    open spec fn view(&self) -> HubEventModel {
        match self {
            HubEvent::Message(m) => HubEventModel::Message(m@),
            HubEvent::Lagged(n) => HubEventModel::Lagged(*n),
            HubEvent::Closed => HubEventModel::Closed,
        }
    }
}

impl View for OutboundAction {
    type V = OutboundActionModel;

    open spec fn view(&self) -> OutboundActionModel {
        match self {
            OutboundAction::Write(f) => OutboundActionModel::Write(f@),
            OutboundAction::Skip => OutboundActionModel::Skip,
            OutboundAction::Stop => OutboundActionModel::Stop,
        }
    }
}

/// One inbound frame: the next phase and what the inbound loop does. Only an
/// open connection publishes; a close frame or a failed read starts closing;
/// a frame that is not a message is dropped and the connection stays open.
pub open spec fn inbound_step(p: Phase, f: InboundModel) -> (Phase, InboundActionModel) {
    if p != Phase::Open {
        (p, InboundActionModel::Stop)
    } else {
        match f {
            InboundModel::Text(t) => match frame_message(t) {
                Some(m) => (p, InboundActionModel::Publish(m)),
                None => (p, InboundActionModel::Ignore),
            },
            InboundModel::Other => (p, InboundActionModel::Ignore),
            InboundModel::Close => (Phase::Closing, InboundActionModel::Stop),
            InboundModel::Failed => (Phase::Closing, InboundActionModel::Stop),
        }
    }
}

/// One hub event: the next phase and what the outbound loop does. A lag is
/// reported and reading goes on; a closed hub starts closing.
pub open spec fn outbound_step(p: Phase, e: HubEventModel) -> (Phase, OutboundActionModel) {
    if p != Phase::Open {
        (p, OutboundActionModel::Stop)
    } else {
        match e {
            HubEventModel::Message(m) => (p, OutboundActionModel::Write(message_frame(m.user, m.text))),
            HubEventModel::Lagged(_) => (p, OutboundActionModel::Skip),
            HubEventModel::Closed => (Phase::Closing, OutboundActionModel::Stop),
        }
    }
}

/// Inbound frames in order, from a phase: the phase after them and the
/// messages published to the hub.
pub open spec fn inbound_run(p: Phase, frames: Seq<InboundModel>) -> (Phase, Seq<MessageModel>)
    decreases frames.len(),
{
    if frames.len() == 0 {
        (p, Seq::empty())
    } else {
        let before = inbound_run(p, frames.drop_last());
        let last = inbound_step(before.0, frames.last());
        match last.1 {
            InboundActionModel::Publish(m) => (last.0, before.1.push(m)),
            _ => (last.0, before.1),
        }
    }
}

/// Hub events in order, from a phase: the phase after them and the frames
/// written to the client.
pub open spec fn outbound_run(p: Phase, evs: Seq<HubEventModel>) -> (Phase, Seq<Seq<char>>)
    decreases evs.len(),
{
    if evs.len() == 0 {
        (p, Seq::empty())
    } else {
        let before = outbound_run(p, evs.drop_last());
        let last = outbound_step(before.0, evs.last());
        match last.1 {
            OutboundActionModel::Write(f) => (last.0, before.1.push(f)),
            _ => (last.0, before.1),
        }
    }
}

/// The frames of the messages among hub events, in order.
pub open spec fn delivered_frames(evs: Seq<HubEventModel>) -> Seq<Seq<char>>
    decreases evs.len(),
{
    if evs.len() == 0 {
        Seq::empty()
    } else {
        match evs.last() {
            HubEventModel::Message(m) => delivered_frames(evs.drop_last()).push(
                message_frame(m.user, m.text),
            ),
            _ => delivered_frames(evs.drop_last()),
        }
    }
}

proof fn lemma_inbound_run_append(p: Phase, a: Seq<InboundModel>, b: Seq<InboundModel>)
    ensures
        inbound_run(p, a + b).0 == inbound_run(inbound_run(p, a).0, b).0,
        inbound_run(p, a + b).1 == inbound_run(p, a).1 + inbound_run(inbound_run(p, a).0, b).1,
    decreases b.len(),
{
    if b.len() == 0 {
        assert(a + b =~= a);
        assert(inbound_run(p, a).1 + Seq::<MessageModel>::empty() =~= inbound_run(p, a).1);
    } else {
        assert((a + b).drop_last() =~= a + b.drop_last());
        assert((a + b).last() == b.last());
        lemma_inbound_run_append(p, a, b.drop_last());
        let q = inbound_run(p, a).0;
        let pre = inbound_run(p, a).1;
        let mid = inbound_run(q, b.drop_last()).1;
        assert forall|m: MessageModel| (pre + mid).push(m) =~= pre + mid.push(m) by {}
    }
}

/// A frame that carries no message is dropped without trace: the phase and
/// everything published before and after it are as if it had never come.
pub proof fn lemma_malformed_frame_isolated(
    p: Phase,
    before: Seq<InboundModel>,
    bad: Seq<char>,
    after: Seq<InboundModel>,
)
    requires
        frame_message(bad) is None,
    ensures
        inbound_run(p, before + seq![InboundModel::Text(bad)] + after) == inbound_run(
            p,
            before + after,
        ),
{
    let one = seq![InboundModel::Text(bad)];
    lemma_inbound_run_append(p, before + one, after);
    lemma_inbound_run_append(p, before, one);
    lemma_inbound_run_append(p, before, after);
    let q = inbound_run(p, before).0;
    assert(one.drop_last() =~= Seq::<InboundModel>::empty());
    assert(inbound_run(q, one.drop_last()) == (q, Seq::<MessageModel>::empty()));
    assert(one.last() == InboundModel::Text(bad));
    assert(inbound_run(q, one).0 == q);
    assert(inbound_run(q, one).1 =~= Seq::<MessageModel>::empty());
    assert(inbound_run(p, before).1 + inbound_run(q, one).1 =~= inbound_run(p, before).1);
}

/// While the hub stays open, an open connection writes exactly the frames of
/// the messages the hub delivers, in delivery order, and stays open: a lag is
/// passed over and what comes after it is still written.
pub proof fn lemma_outbound_forwards_in_order(evs: Seq<HubEventModel>)
    requires
        forall|i: int| 0 <= i < evs.len() ==> !(#[trigger] evs[i] is Closed),
    ensures
        outbound_run(Phase::Open, evs).0 == Phase::Open,
        outbound_run(Phase::Open, evs).1 == delivered_frames(evs),
    decreases evs.len(),
{
    if evs.len() > 0 {
        let front = evs.drop_last();
        assert forall|i: int| 0 <= i < front.len() implies !(#[trigger] front[i] is Closed) by {
            assert(front[i] == evs[i]);
        }
        assert(!(evs[evs.len() - 1] is Closed));
        lemma_outbound_forwards_in_order(front);
    }
}

/// The hub events that deliver these messages, one each, in order.
pub open spec fn deliveries(ms: Seq<MessageModel>) -> Seq<HubEventModel> {
    ms.map_values(|m: MessageModel| HubEventModel::Message(m))
}

/// The frames that carry these messages, in order.
pub open spec fn frames_of(ms: Seq<MessageModel>) -> Seq<Seq<char>> {
    ms.map_values(|m: MessageModel| message_frame(m.user, m.text))
}

proof fn lemma_delivered_frames_of_messages(ms: Seq<MessageModel>)
    ensures
        delivered_frames(deliveries(ms)) == frames_of(ms),
    decreases ms.len(),
{
    if ms.len() > 0 {
        assert(deliveries(ms).drop_last() =~= deliveries(ms.drop_last()));
        lemma_delivered_frames_of_messages(ms.drop_last());
        assert(frames_of(ms) =~= frames_of(ms.drop_last()).push(
            message_frame(ms.last().user, ms.last().text),
        ));
    }
}

/// Fan-out along the relay path: the messages one connection publishes are
/// those its client sent as well-formed frames; when the hub hands each
/// subscriber the published messages from the point it subscribed on, in
/// publish order, the subscriber's connection writes exactly their frames, in
/// that order, and stays open. The publisher's own connection is such a
/// subscriber too.
pub proof fn lemma_fan_out_in_publish_order(frames: Seq<InboundModel>, subscribed_at: int)
    requires
        0 <= subscribed_at <= inbound_run(Phase::Open, frames).1.len(),
    ensures
        ({
            let published = inbound_run(Phase::Open, frames).1;
            let seen = deliveries(published.subrange(subscribed_at, published.len() as int));
            outbound_run(Phase::Open, seen).1 == frames_of(
                published.subrange(subscribed_at, published.len() as int),
            ) && outbound_run(Phase::Open, seen).0 == Phase::Open
        }),
{
    let published = inbound_run(Phase::Open, frames).1;
    let later = published.subrange(subscribed_at, published.len() as int);
    let seen = deliveries(later);
    assert forall|i: int| 0 <= i < seen.len() implies !(#[trigger] seen[i] is Closed) by {}
    lemma_outbound_forwards_in_order(seen);
    lemma_delivered_frames_of_messages(later);
}

/// Every subscriber gets a message at the same place: with the hub log in
/// publish order, a connection that subscribed at or before position `k`
/// (the publishing connection among them, as it subscribes before it reads)
/// writes one frame per message from its subscription on, and its frame at
/// `k - subscribed_at` is the frame of the message at `k`.
pub proof fn lemma_message_reaches_every_subscriber(
    log: Seq<MessageModel>,
    subscribed_at: int,
    k: int,
)
    requires
        0 <= subscribed_at <= k < log.len(),
    ensures
        ({
            let out = outbound_run(Phase::Open, deliveries(log.subrange(subscribed_at, log.len() as int))).1;
            out.len() == log.len() - subscribed_at && out[k - subscribed_at] == message_frame(
                log[k].user,
                log[k].text,
            )
        }),
{
    let later = log.subrange(subscribed_at, log.len() as int);
    let seen = deliveries(later);
    assert forall|i: int| 0 <= i < seen.len() implies !(#[trigger] seen[i] is Closed) by {}
    lemma_outbound_forwards_in_order(seen);
    lemma_delivered_frames_of_messages(later);
    assert(later[k - subscribed_at] == log[k]);
}

/// The state of one connection's handler.
pub struct Connection {
    phase: Phase,
}

impl Connection {
    pub fn new() -> (r: Connection)
        ensures
            r.phase() == Phase::Open,
    {
        Connection { phase: Phase::Open }
    }

    pub closed spec fn phase(&self) -> Phase {
        self.phase
    }

    pub fn current_phase(&self) -> (r: Phase)
        ensures
            r == self.phase(),
    {
        self.phase
    }

    /// Decides on one frame read from the client.
    pub fn on_inbound(&mut self, frame: Inbound) -> (act: InboundAction)
        ensures
            (final(self).phase(), act@) == inbound_step(old(self).phase(), frame@),
    {
        if self.phase != Phase::Open {
            return InboundAction::Stop;
        }
        match frame {
            Inbound::Text(t) => match decode_message(t.as_str()) {
                Some(m) => InboundAction::Publish(m),
                None => InboundAction::Ignore,
            },
            Inbound::Other => InboundAction::Ignore,
            Inbound::Close | Inbound::Failed => {
                self.phase = Phase::Closing;
                InboundAction::Stop
            },
        }
    }

    /// Decides on one event of the connection's hub subscription.
    pub fn on_hub_event(&mut self, ev: HubEvent) -> (act: OutboundAction)
        ensures
            (final(self).phase(), act@) == outbound_step(old(self).phase(), ev@),
    {
        if self.phase != Phase::Open {
            return OutboundAction::Stop;
        }
        match ev {
            HubEvent::Message(m) => OutboundAction::Write(encode_message(&m)),
            HubEvent::Lagged(_) => OutboundAction::Skip,
            HubEvent::Closed => {
                self.phase = Phase::Closing;
                OutboundAction::Stop
            },
        }
    }

    /// A write to the client failed: the connection starts closing.
    pub fn on_write_failed(&mut self)
        ensures
            final(self).phase() == (if old(self).phase() == Phase::Open {
                Phase::Closing
            } else {
                old(self).phase()
            }),
    {
        if self.phase == Phase::Open {
            self.phase = Phase::Closing;
        }
    }

    /// Both loops are done with: the connection is closed.
    pub fn close(&mut self)
        ensures
            final(self).phase() == Phase::Closed,
    {
        self.phase = Phase::Closed;
    }
}

} // verus!
