//! One connection: its identity, what it follows, and what it does with
//! each frame that arrives and each announcement that a signal makes.
//!
//! The functions here decide; they neither wait nor send. The caller reads
//! a frame from the transport, asks [`Session::serve`] (on the server) or
//! [`Session::follow`] (on a client) what to do, and carries the answer out.
//! For each announcement on an endpoint that the session follows it asks
//! [`Session::forward`] or [`Session::forward_local`] whether the frame goes
//! on the wire.

use vstd::prelude::*;
use serde_json::Value;
use crate::error::Error;
use crate::json::{json_content, patched};
use crate::messages::{
    BiDirectionalMessage, ChannelFrame, ChannelMessage, Frame, Messages, ServerSignalMessage,
    SignalFrame, SignalUpdate, UpdateView,
};
use crate::signal::{update_frame, Applied, Event, EventView, Seed};
use crate::ws_signals::{RegistryView, WsSignals};

verus! {

/// `nanoid::format` with the crate's default random source and its URL-safe
/// alphabet of 64 characters: a fresh random token. Believed of it: the
/// token has `size` characters. Nothing is claimed of which ones.
#[verifier::external_body]
fn mint_token(size: usize) -> (token: String)
    ensures
        token@.len() == size,
{
    nanoid::format(nanoid::rngs::default, &nanoid::alphabet::SAFE, size)
}

/// What the caller has to do after a frame has been handled.
#[derive(Debug)]
pub enum Action {
    /// Nothing: the frame is not meant for this side, or names nothing that
    /// is registered.
    Ignore,
    /// Put `reply` on the outbound queue, then forward every announcement
    /// of the endpoint `name` through [`Session::forward`].
    Establish { reply: Messages, name: String },
    /// The signal `name` was seeded: store the value of `seed.reseed` in
    /// the typed cell and hand `seed` and what became of the cell to
    /// [`WsSignals::settle_seed`]. Where `forward` is set, forward the
    /// endpoint's announcements through [`Session::forward_local`] from now
    /// on.
    Seeded { name: String, seed: Seed, forward: bool },
    /// Forward the announcements of the channel `name` through
    /// [`Session::forward_local`] from now on.
    Forward { name: String },
    /// The patch was applied to the signal `name`: store the value of
    /// `applied.reseed` in the typed cell, hand `applied` and what became
    /// of the cell to [`WsSignals::settle`], and announce the event that it
    /// gives, if it gives one.
    Applied { name: String, applied: Applied },
    /// The signal `name` did not take the update, and nothing changed: the
    /// patch does not apply (`UpdateSignalFailed`), or a client tried to
    /// write a signal that only the server may write
    /// (`NotAvailableOnSignal`).
    Rejected { name: String, error: Error },
    /// Hand `message` to the handler of the channel `name`.
    Deliver { name: String, message: Value },
}

/// What an [`Action`] says.
pub enum ActionView {
    Ignore,
    Establish { reply: Frame, name: Seq<char> },
    Seeded { name: Seq<char>, reseed: Seq<char>, previous: Seq<char>, forward: bool },
    Forward { name: Seq<char> },
    Applied { name: Seq<char>, reseed: Option<Seq<char>>, event: EventView, previous: Seq<char> },
    Rejected { name: Seq<char>, error: Error },
    Deliver { name: Seq<char>, message: Seq<char> },
}

/// An optional JSON value, by content.
pub open spec fn content_view(value: Option<Value>) -> Option<Seq<char>> {
    match value {
        Some(value) => Some(json_content(value)),
        None => None,
    }
}

impl View for Action {
    type V = ActionView;

    open spec fn view(&self) -> ActionView {
        match self {
            Action::Ignore => ActionView::Ignore,
            Action::Establish { reply, name } => ActionView::Establish {
                reply: reply@,
                name: name@,
            },
            Action::Seeded { name, seed, forward } => ActionView::Seeded {
                name: name@,
                reseed: json_content(seed.reseed),
                previous: json_content(seed.previous),
                forward: *forward,
            },
            Action::Forward { name } => ActionView::Forward { name: name@ },
            Action::Applied { name, applied } => ActionView::Applied {
                name: name@,
                reseed: content_view(applied.reseed),
                event: applied.event@,
                previous: json_content(applied.previous),
            },
            Action::Rejected { name, error } => ActionView::Rejected {
                name: name@,
                error: *error,
            },
            Action::Deliver { name, message } => ActionView::Deliver {
                name: name@,
                message: json_content(*message),
            },
        }
    }
}

impl ActionView {
    /// The endpoint that the action makes the session follow, if any.
    pub open spec fn endpoint(self) -> Option<Seq<char>> {
        match self {
            ActionView::Establish { reply, name } => Some(name),
            ActionView::Seeded { name, reseed, previous, forward } => if forward {
                Some(name)
            } else {
                None
            },
            ActionView::Forward { name } => Some(name),
            _ => None,
        }
    }
}

/// What becomes of an update that the connection `origin` sent for a
/// signal: ignored where the name is bound to no signal; rejected where the
/// sender is a client (`writable` is set) and the signal is the server's to
/// write, or where the patch does not apply; applied and announced under
/// `origin` otherwise.
pub open spec fn update_action(
    registry: RegistryView,
    update: UpdateView,
    origin: Seq<char>,
    writable: bool,
) -> ActionView {
    if !registry.has_signal(update.name) {
        ActionView::Ignore
    } else if registry.refuses(update.name, writable) {
        ActionView::Rejected { name: update.name, error: Error::NotAvailableOnSignal }
    } else {
        let signal = registry.signal(update.name);
        match patched(signal.shadow, update.patch) {
            Some(after) => ActionView::Applied {
                name: update.name,
                reseed: Some(after),
                event: EventView {
                    origin: Some(origin),
                    frame: update_frame(signal.kind, signal.name, update.patch),
                },
                previous: signal.shadow,
            },
            None => ActionView::Rejected { name: update.name, error: Error::UpdateSignalFailed },
        }
    }
}

/// The registry after such an update.
pub open spec fn registry_updated(registry: RegistryView, update: UpdateView, writable: bool)
    -> RegistryView {
    if registry.refuses(update.name, writable) {
        registry
    } else {
        registry.after_update(update.name, update.patch)
    }
}

/// What becomes of a message for a channel: delivered where the name is
/// bound to a channel with a handler, ignored otherwise.
pub open spec fn message_action(registry: RegistryView, name: Seq<char>, message: Seq<char>)
    -> ActionView {
    if registry.has_channel(name) && registry.channel(name).has_callback {
        ActionView::Deliver { name, message }
    } else {
        ActionView::Ignore
    }
}

/// What the server does with a frame from the connection `id`.
pub open spec fn served(registry: RegistryView, id: Seq<char>, frame: Frame) -> ActionView {
    match frame {
        Frame::ServerSignal(SignalFrame::Establish(name)) => if registry.has_signal(name) {
            ActionView::Establish {
                reply: Frame::ServerSignal(
                    SignalFrame::EstablishResponse(name, registry.signal(name).shadow),
                ),
                name,
            }
        } else {
            ActionView::Ignore
        },
        Frame::BiDirectional(SignalFrame::Establish(name)) => if registry.has_signal(name) {
            ActionView::Establish {
                reply: Frame::BiDirectional(
                    SignalFrame::EstablishResponse(name, registry.signal(name).shadow),
                ),
                name,
            }
        } else {
            ActionView::Ignore
        },
        Frame::BiDirectional(SignalFrame::Update(update)) => update_action(
            registry,
            update,
            id,
            true,
        ),
        Frame::Channel(ChannelFrame::Establish(name)) => if registry.has_channel(name) {
            ActionView::Establish {
                reply: Frame::Channel(ChannelFrame::EstablishResponse(name)),
                name,
            }
        } else {
            ActionView::Ignore
        },
        Frame::Channel(ChannelFrame::Message(name, message)) => message_action(
            registry,
            name,
            message,
        ),
        _ => ActionView::Ignore,
    }
}

/// The server's registry after a frame has been handled: only an update of
/// a bidirectional signal touches it.
pub open spec fn registry_served(registry: RegistryView, frame: Frame) -> RegistryView {
    match frame {
        Frame::BiDirectional(SignalFrame::Update(update)) => registry_updated(
            registry,
            update,
            true,
        ),
        _ => registry,
    }
}

/// What a client does with a frame from the server. `id` is the token under
/// which the client records what the server wrote.
pub open spec fn followed(registry: RegistryView, id: Seq<char>, frame: Frame) -> ActionView {
    match frame {
        Frame::ServerSignal(SignalFrame::EstablishResponse(name, value)) => if registry.has_signal(
            name,
        ) {
            ActionView::Seeded {
                name,
                reseed: value,
                previous: registry.signal(name).shadow,
                forward: false,
            }
        } else {
            ActionView::Ignore
        },
        Frame::BiDirectional(SignalFrame::EstablishResponse(name, value)) => if registry.has_signal(
            name,
        ) {
            ActionView::Seeded {
                name,
                reseed: value,
                previous: registry.signal(name).shadow,
                forward: true,
            }
        } else {
            ActionView::Ignore
        },
        Frame::ServerSignal(SignalFrame::Update(update)) => update_action(
            registry,
            update,
            id,
            false,
        ),
        Frame::BiDirectional(SignalFrame::Update(update)) => update_action(
            registry,
            update,
            id,
            false,
        ),
        Frame::Channel(ChannelFrame::EstablishResponse(name)) => if registry.has_channel(name) {
            ActionView::Forward { name }
        } else {
            ActionView::Ignore
        },
        Frame::Channel(ChannelFrame::Message(name, message)) => message_action(
            registry,
            name,
            message,
        ),
        _ => ActionView::Ignore,
    }
}

/// A client's registry after a frame has been handled.
pub open spec fn registry_followed(registry: RegistryView, frame: Frame) -> RegistryView {
    match frame {
        Frame::ServerSignal(SignalFrame::EstablishResponse(name, value)) => registry.after_seed(
            name,
            value,
        ),
        Frame::BiDirectional(SignalFrame::EstablishResponse(name, value)) => registry.after_seed(
            name,
            value,
        ),
        Frame::ServerSignal(SignalFrame::Update(update)) => registry_updated(
            registry,
            update,
            false,
        ),
        Frame::BiDirectional(SignalFrame::Update(update)) => registry_updated(
            registry,
            update,
            false,
        ),
        _ => registry,
    }
}

/// The frame that the connection `id` puts on the wire for an announcement:
/// none for one that its own inbound frame caused.
pub open spec fn forwarded(id: Seq<char>, event: EventView) -> Option<Frame> {
    if event.origin == Some(id) {
        None
    } else {
        Some(event.frame)
    }
}

/// The frames that the connection `id` puts on the wire for a run of
/// announcements, in their order.
pub open spec fn forwarded_all(id: Seq<char>, events: Seq<EventView>) -> Seq<Frame>
    decreases events.len(),
{
    if events.len() == 0 {
        Seq::empty()
    } else {
        let before = forwarded_all(id, events.drop_last());
        match forwarded(id, events.last()) {
            Some(frame) => before.push(frame),
            None => before,
        }
    }
}

/// The frame that a client sends to the server for an announcement of one
/// of its own signals: none unless a local write caused it.
pub open spec fn forwarded_local(event: EventView) -> Option<Frame> {
    if event.origin is None {
        Some(event.frame)
    } else {
        None
    }
}

/// What a forwarder got when it waited on the endpoint that it follows.
#[derive(Debug)]
pub enum Received {
    /// The next announcement.
    Event(Event),
    /// The forwarder fell behind, and the endpoint has overwritten this many
    /// announcements that it never saw.
    Lagged(u64),
    /// The endpoint is gone: its signal was deleted.
    Closed,
}

/// What a forwarder does next.
#[derive(Debug)]
pub enum Relay {
    /// Put the frame on the outbound queue, then wait again.
    Send(Messages),
    /// Wait again.
    Skip,
    /// Stop forwarding from this endpoint; the connection stays.
    End,
    /// Close the connection: it has missed announcements, and only a peer
    /// that connects and is seeded anew is in step again.
    Disconnect,
}

/// What a [`Received`] says.
pub enum ReceivedView {
    Event(EventView),
    Lagged(u64),
    Closed,
}

/// What a [`Relay`] says.
pub enum RelayView {
    Send(Frame),
    Skip,
    End,
    Disconnect,
}

impl View for Received {
    type V = ReceivedView;

    open spec fn view(&self) -> ReceivedView {
        match self {
            Received::Event(event) => ReceivedView::Event(event@),
            Received::Lagged(missed) => ReceivedView::Lagged(*missed),
            Received::Closed => ReceivedView::Closed,
        }
    }
}

impl View for Relay {
    type V = RelayView;

    open spec fn view(&self) -> RelayView {
        match self {
            Relay::Send(frame) => RelayView::Send(frame@),
            Relay::Skip => RelayView::Skip,
            Relay::End => RelayView::End,
            Relay::Disconnect => RelayView::Disconnect,
        }
    }
}

/// The next step of the server's forwarder for the connection `id`. An
/// announcement is sent on unless the connection caused it. A deleted
/// endpoint ends the forwarder. A forwarder that fell behind is never
/// passed over in silence: the connection is closed.
pub open spec fn relayed(id: Seq<char>, received: ReceivedView) -> RelayView {
    match received {
        ReceivedView::Event(event) => match forwarded(id, event) {
            Some(frame) => RelayView::Send(frame),
            None => RelayView::Skip,
        },
        ReceivedView::Lagged(_) => RelayView::Disconnect,
        ReceivedView::Closed => RelayView::End,
    }
}

/// The next step of a client's forwarder: as [`relayed`], with the client's
/// rule for what is sent on.
pub open spec fn relayed_local(received: ReceivedView) -> RelayView {
    match received {
        ReceivedView::Event(event) => match forwarded_local(event) {
            Some(frame) => RelayView::Send(frame),
            None => RelayView::Skip,
        },
        ReceivedView::Lagged(_) => RelayView::Disconnect,
        ReceivedView::Closed => RelayView::End,
    }
}

/// One connection.
#[derive(Debug)]
pub struct Session {
    id: String,
    subscriptions: Vec<String>,
}

/// What a [`Session`] holds.
pub struct SessionView {
    /// The token that tells this connection's writes from all others.
    pub id: Seq<char>,
    /// The endpoints that the session follows, in the order in which it
    /// began to.
    pub subscriptions: Seq<Seq<char>>,
}

impl View for Session {
    type V = SessionView;

    closed spec fn view(&self) -> SessionView {
        SessionView {
            id: self.id@,
            subscriptions: self.subscriptions@.map_values(|name: String| name@),
        }
    }
}

impl SessionView {
    /// The session after an action: it follows one endpoint more where the
    /// action says so.
    pub open spec fn after(self, action: ActionView) -> SessionView {
        match action.endpoint() {
            Some(name) => SessionView { subscriptions: self.subscriptions.push(name), ..self },
            None => self,
        }
    }
}

impl Session {
    /// A session under a freshly minted random token of 21 characters.
    pub fn new() -> (session: Session)
        ensures
            session@.id.len() == 21,
            session@.subscriptions == Seq::<Seq<char>>::empty(),
    {
        Session::with_id(mint_token(21))
    }

    /// A session under the given token.
    pub fn with_id(id: String) -> (session: Session)
        ensures
            session@ == (SessionView { id: id@, subscriptions: Seq::<Seq<char>>::empty() }),
    {
        let session = Session { id, subscriptions: Vec::new() };
        proof {
            assert(session@.subscriptions =~= Seq::<Seq<char>>::empty());
        }
        session
    }

    /// The session's token.
    pub fn id(&self) -> (id: &String)
        ensures
            id@ == self@.id,
    {
        &self.id
    }

    /// The endpoints that the session follows, oldest first.
    pub fn subscriptions(&self) -> (names: &Vec<String>)
        ensures
            names@.map_values(|name: String| name@) == self@.subscriptions,
    {
        &self.subscriptions
    }

    /// Notes that the session follows the endpoint `name` from now on.
    fn subscribe(&mut self, name: &String)
        ensures
            final(self)@ == (SessionView {
                subscriptions: old(self)@.subscriptions.push(name@),
                ..old(self)@
            }),
    {
        self.subscriptions.push(name.clone());
        proof {
            assert(self@.subscriptions =~= old(self)@.subscriptions.push(name@));
        }
    }

    /// Applies an update that the peer sent, under this session's token.
    /// `writable` is set where the peer is a client.
    fn apply_remote(&self, registry: &mut WsSignals, update: SignalUpdate, writable: bool) -> (action:
        Action)
        requires
            old(registry).wf(),
        ensures
            final(registry).wf(),
            action@ == update_action(old(registry)@, update@, self@.id, writable),
            final(registry)@ == registry_updated(old(registry)@, update@, writable),
    {
        let name = update.get_name().clone();
        let id = Some(self.id.clone());
        let res = if writable {
            registry.update_bidirectional(name.as_str(), update, id)
        } else {
            registry.update(name.as_str(), update, id)
        };
        match res {
            Some(Ok(applied)) => Action::Applied { name, applied },
            Some(Err(error)) => Action::Rejected { name, error },
            None => Action::Ignore,
        }
    }

    /// Hands a channel message that the peer sent to the channel's handler.
    fn deliver(registry: &WsSignals, name: String, message: Value) -> (action: Action)
        ensures
            action@ == message_action(registry@, name@, json_content(message)),
    {
        match registry.handle_message(name.as_str(), message) {
            Some(Ok(Some(message))) => Action::Deliver { name, message },
            _ => Action::Ignore,
        }
    }

    /// The server's answer to one frame from this connection.
    ///
    /// A request to follow a registered signal or channel is answered with
    /// the matching response, which for a signal carries the shadow as it is
    /// now, and makes the session follow the endpoint. An update is applied
    /// under this session's token where the signal is one that either side
    /// may write, and rejected where it is the server's to write: a client
    /// only observes such a signal. A channel message goes to the channel's
    /// handler. Every other frame, and every frame that names nothing
    /// registered, is ignored.
    pub fn serve(&mut self, registry: &mut WsSignals, msg: Messages) -> (action: Action)
        requires
            old(registry).wf(),
        ensures
            final(registry).wf(),
            action@ == served(old(registry)@, old(self)@.id, msg@),
            final(registry)@ == registry_served(old(registry)@, msg@),
            final(self)@ == old(self)@.after(action@),
    {
        match msg {
            Messages::ServerSignal(ServerSignalMessage::Establish(name)) => {
                match registry.json(name.as_str()) {
                    Some(Ok(shadow)) => {
                        self.subscribe(&name);
                        let reply = Messages::ServerSignal(
                            ServerSignalMessage::EstablishResponse(name.clone(), shadow),
                        );
                        Action::Establish { reply, name }
                    },
                    _ => Action::Ignore,
                }
            },
            Messages::BiDirectional(BiDirectionalMessage::Establish(name)) => {
                match registry.json(name.as_str()) {
                    Some(Ok(shadow)) => {
                        self.subscribe(&name);
                        let reply = Messages::BiDirectional(
                            BiDirectionalMessage::EstablishResponse(name.clone(), shadow),
                        );
                        Action::Establish { reply, name }
                    },
                    _ => Action::Ignore,
                }
            },
            Messages::BiDirectional(BiDirectionalMessage::Update(update)) => self.apply_remote(
                registry,
                update,
                true,
            ),
            Messages::Channel(ChannelMessage::Establish(name)) => {
                if registry.add_observer_channel(name.as_str()) {
                    self.subscribe(&name);
                    let reply = Messages::Channel(ChannelMessage::EstablishResponse(name.clone()));
                    Action::Establish { reply, name }
                } else {
                    Action::Ignore
                }
            },
            Messages::Channel(ChannelMessage::Message(name, message)) => Session::deliver(
                registry,
                name,
                message,
            ),
            _ => Action::Ignore,
        }
    }

    /// A client's answer to one frame from the server.
    ///
    /// A response to its request seeds the named signal with the server's
    /// value; for a bidirectional signal, and for a channel, the session
    /// then forwards the endpoint's local announcements. An update is
    /// applied under this session's token, which marks it as remote. A
    /// channel message goes to the channel's handler. Every other frame,
    /// and every frame that names nothing registered, is ignored.
    pub fn follow(&mut self, registry: &mut WsSignals, msg: Messages) -> (action: Action)
        requires
            old(registry).wf(),
        ensures
            final(registry).wf(),
            action@ == followed(old(registry)@, old(self)@.id, msg@),
            final(registry)@ == registry_followed(old(registry)@, msg@),
            final(self)@ == old(self)@.after(action@),
    {
        match msg {
            Messages::ServerSignal(ServerSignalMessage::EstablishResponse(name, value)) => {
                match registry.set_json(name.as_str(), value) {
                    Some(Ok(seed)) => Action::Seeded { name, seed, forward: false },
                    _ => Action::Ignore,
                }
            },
            Messages::BiDirectional(BiDirectionalMessage::EstablishResponse(name, value)) => {
                match registry.set_json(name.as_str(), value) {
                    Some(Ok(seed)) => {
                        self.subscribe(&name);
                        Action::Seeded { name, seed, forward: true }
                    },
                    _ => Action::Ignore,
                }
            },
            Messages::ServerSignal(ServerSignalMessage::Update(update)) => self.apply_remote(
                registry,
                update,
                false,
            ),
            Messages::BiDirectional(BiDirectionalMessage::Update(update)) => self.apply_remote(
                registry,
                update,
                false,
            ),
            Messages::Channel(ChannelMessage::EstablishResponse(name)) => {
                if registry.add_observer_channel(name.as_str()) {
                    self.subscribe(&name);
                    Action::Forward { name }
                } else {
                    Action::Ignore
                }
            },
            Messages::Channel(ChannelMessage::Message(name, message)) => Session::deliver(
                registry,
                name,
                message,
            ),
            _ => Action::Ignore,
        }
    }

    /// Whether an announcement goes out to this connection: its frame,
    /// unless this connection's own inbound frame caused it.
    pub fn forward(&self, event: &Event) -> (frame: Option<Messages>)
        ensures
            frame is Some <==> event@.origin != Some(self@.id),
            frame is Some ==> forwarded(self@.id, event@) == Some(frame->0@),
            frame is None ==> forwarded(self@.id, event@) is None,
    {
        let own = match &event.origin {
            Some(origin) => *origin == self.id,
            None => false,
        };
        if own {
            None
        } else {
            Some(event.message.duplicate())
        }
    }

    /// The frames that go out to this connection for a run of
    /// announcements: those of [`Session::forward`], in the same order.
    pub fn forward_all(&self, events: &Vec<Event>) -> (frames: Vec<Messages>)
        ensures
            frames@.map_values(|frame: Messages| frame@) == forwarded_all(
                self@.id,
                events@.map_values(|event: Event| event@),
            ),
    {
        let mut frames: Vec<Messages> = Vec::new();
        let mut i: usize = 0;
        let ghost all = events@.map_values(|event: Event| event@);
        proof {
            assert(all.take(0) =~= Seq::<EventView>::empty());
            assert(frames@.map_values(|frame: Messages| frame@) =~= Seq::<Frame>::empty());
        }
        while i < events.len()
            invariant
                0 <= i <= events.len(),
                all == events@.map_values(|event: Event| event@),
                frames@.map_values(|frame: Messages| frame@) == forwarded_all(
                    self@.id,
                    all.take(i as int),
                ),
            decreases events.len() - i,
        {
            let ghost before = frames@.map_values(|frame: Messages| frame@);
            proof {
                assert(all.take(i + 1).drop_last() =~= all.take(i as int));
                assert(all.take(i + 1).last() == events@[i as int]@);
            }
            match self.forward(&events[i]) {
                Some(frame) => {
                    frames.push(frame);
                    proof {
                        assert(frames@.map_values(|frame: Messages| frame@) =~= before.push(
                            frame@,
                        ));
                    }
                },
                None => {},
            }
            i = i + 1;
        }
        proof {
            assert(all.take(events@.len() as int) =~= all);
        }
        frames
    }

    /// Whether a client sends an announcement of one of its own signals to
    /// the server: its frame where a local write caused it, nothing where
    /// it records what the server wrote.
    pub fn forward_local(&self, event: &Event) -> (frame: Option<Messages>)
        ensures
            frame is Some <==> event@.origin is None,
            frame is Some ==> forwarded_local(event@) == Some(frame->0@),
            frame is None ==> forwarded_local(event@) is None,
    {
        match &event.origin {
            Some(_) => None,
            None => Some(event.message.duplicate()),
        }
    }
    /// One step of the server's forwarder for this connection: what to do
    /// with what the followed endpoint gave.
    pub fn handle_broadcasts(&self, received: Received) -> (relay: Relay)
        ensures
            relay@ == relayed(self@.id, received@),
    {
        match received {
            Received::Event(event) => match self.forward(&event) {
                Some(frame) => Relay::Send(frame),
                None => Relay::Skip,
            },
            Received::Lagged(_) => Relay::Disconnect,
            Received::Closed => Relay::End,
        }
    }

    /// One step of a client's forwarder towards the server.
    pub fn handle_broadcasts_client(&self, received: Received) -> (relay: Relay)
        ensures
            relay@ == relayed_local(received@),
    {
        match received {
            Received::Event(event) => match self.forward_local(&event) {
                Some(frame) => Relay::Send(frame),
                None => Relay::Skip,
            },
            Received::Lagged(_) => Relay::Disconnect,
            Received::Closed => Relay::End,
        }
    }
}

} // verus!
