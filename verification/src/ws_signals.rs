//! The registry: the names that one side of a connection knows, each bound
//! to one signal or channel, and the order in which they were registered.

use vstd::prelude::*;
use dashmap::DashMap;
use serde_json::Value;
use crate::channel::{ChannelEntry, ChannelView, Side};
use crate::error::Error;
use crate::json::{diffed, json_content, patch_size, patched};
use crate::messages::{
    BiDirectionalMessage, ChannelFrame, ChannelMessage, Frame, Messages, ServerSignalMessage,
    SignalFrame, SignalUpdate,
};
use crate::signal::{
    origin_view, shadow_after, update_frame, Applied, Event, EventView, Seed, SignalEntry,
    SignalKind, SignalView,
};
use crate::store::{
    empty_map, held, map_contains, map_get, map_insert, map_remove, Entry, EntryView,
};

verus! {

/// A registry of signals and channels.
pub struct WsSignals {
    side: Side,
    signals: DashMap<String, Entry>,
    order: Vec<String>,
}

/// What a registry holds.
pub struct RegistryView {
    /// The end of the connection that the registry serves.
    pub side: Side,
    /// What each bound name is bound to.
    pub entries: Map<Seq<char>, EntryView>,
    /// The bound names, in the order in which they were registered.
    pub names: Seq<Seq<char>>,
}

impl View for WsSignals {
    type V = RegistryView;

    closed spec fn view(&self) -> RegistryView {
        RegistryView {
            side: self.side,
            entries: Map::new(
                |name: Seq<char>| held(self.signals).dom().contains(name),
                |name: Seq<char>| held(self.signals)[name]@,
            ),
            names: self.order@.map_values(|name: String| name@),
        }
    }
}

impl RegistryView {
    /// The registry is well formed when the registered names are exactly
    /// the bound ones, each listed once, and every entry is bound under its
    /// own name.
    pub open spec fn wf(self) -> bool {
        &&& self.names.no_duplicates()
        &&& forall|name: Seq<char>| #[trigger]
            self.entries.dom().contains(name) ==> self.names.contains(name)
                && self.entries[name].name() == name
        &&& forall|i: int|
            0 <= i < self.names.len() ==> self.entries.dom().contains(#[trigger] self.names[i])
    }

    /// Whether the name is bound to a stateful signal.
    pub open spec fn has_signal(self, name: Seq<char>) -> bool {
        self.entries.dom().contains(name) && self.entries[name] is Signal
    }

    /// Whether the name is bound to a channel.
    pub open spec fn has_channel(self, name: Seq<char>) -> bool {
        self.entries.dom().contains(name) && self.entries[name] is Channel
    }

    /// The signal that the name is bound to.
    pub open spec fn signal(self, name: Seq<char>) -> SignalView
        recommends
            self.has_signal(name),
    {
        self.entries[name]->Signal_0
    }

    /// The channel that the name is bound to.
    pub open spec fn channel(self, name: Seq<char>) -> ChannelView
        recommends
            self.has_channel(name),
    {
        self.entries[name]->Channel_0
    }

    /// Whether `name` is bound to a signal of the kind and element type of
    /// `value`: the case in which creating `value` under `name` hands the
    /// existing signal back.
    pub open spec fn matches_signal(self, name: Seq<char>, value: SignalView) -> bool {
        &&& self.has_signal(name)
        &&& self.signal(name).kind == value.kind
        &&& self.signal(name).element == value.element
    }

    /// Whether `name` is bound to a channel of the element type of `value`.
    pub open spec fn matches_channel(self, name: Seq<char>, value: ChannelView) -> bool {
        &&& self.has_channel(name)
        &&& self.channel(name).element == value.element
    }

    /// The registry with `name` bound to `entry`, as the last registered
    /// name where it is a new one.
    pub open spec fn bind(self, name: Seq<char>, entry: EntryView) -> RegistryView {
        RegistryView {
            side: self.side,
            entries: self.entries.insert(name, entry),
            names: if self.entries.dom().contains(name) {
                self.names
            } else {
                self.names.push(name)
            },
        }
    }

    /// The registry without `name`.
    pub open spec fn unbind(self, name: Seq<char>) -> RegistryView {
        RegistryView {
            side: self.side,
            entries: self.entries.remove(name),
            names: if self.names.contains(name) {
                self.names.remove(self.names.index_of(name))
            } else {
                self.names
            },
        }
    }

    /// The registry after `patch` has been offered to the signal `name`:
    /// unchanged where the name is bound to no signal or the patch does not
    /// apply.
    pub open spec fn after_update(self, name: Seq<char>, patch: Seq<char>) -> RegistryView {
        if self.has_signal(name) {
            let signal = self.signal(name);
            self.bind(
                name,
                EntryView::Signal(
                    SignalView { shadow: shadow_after(signal.shadow, patch), ..signal },
                ),
            )
        } else {
            self
        }
    }

    /// Whether this side's own code may write the signal `name`: the server
    /// may write every signal, a client only those that either side may
    /// write.
    pub open spec fn writes_locally(self, name: Seq<char>) -> bool {
        self.has_signal(name) && (self.side == Side::Server || self.signal(name).kind
            == SignalKind::BiDirectional)
    }

    /// Whether the signal `name` refuses a patch: it does where the patch
    /// comes from a client (`writable` is set) and the signal is one that
    /// only the server may write.
    pub open spec fn refuses(self, name: Seq<char>, writable: bool) -> bool {
        writable && self.has_signal(name) && self.signal(name).kind == SignalKind::ReadOnly
    }

    /// The registry after a handler for the side `side` has been offered to
    /// the channel `name`: the channel counts it where it is on that side.
    pub open spec fn after_handler(self, name: Seq<char>, side: Side) -> RegistryView {
        if self.has_channel(name) {
            let channel = self.channel(name);
            self.bind(
                name,
                EntryView::Channel(
                    ChannelView {
                        has_callback: channel.has_callback || channel.side == side,
                        ..channel
                    },
                ),
            )
        } else {
            self
        }
    }

    /// The registry after the shadow of the signal `name` has been replaced.
    pub open spec fn after_seed(self, name: Seq<char>, value: Seq<char>) -> RegistryView {
        if self.has_signal(name) {
            self.bind(name, EntryView::Signal(SignalView { shadow: value, ..self.signal(name) }))
        } else {
            self
        }
    }
}

/// What offering `patch` to `signal` on behalf of the writer `id` gives:
/// `UpdateSignalFailed` where the patch does not apply; else the
/// announcement under the writer's token, the shadow as it was, and the
/// patched shadow as the value to reseed the cell with where the writer
/// was remote.
pub open spec fn update_outcome(
    signal: SignalView,
    patch: Seq<char>,
    id: Option<String>,
    res: Result<Applied, Error>,
) -> bool {
    &&& res is Ok <==> patched(signal.shadow, patch) is Some
    &&& res is Err ==> res->Err_0 is UpdateSignalFailed
    &&& res is Ok ==> {
        let applied = res->Ok_0;
        &&& applied.event@ == (EventView {
            origin: origin_view(id),
            frame: update_frame(signal.kind, signal.name, patch),
        })
        &&& json_content(applied.previous) == signal.shadow
        &&& applied.reseed is Some <==> id is Some
        &&& applied.reseed is Some ==> json_content(applied.reseed->0) == shadow_after(
            signal.shadow,
            patch,
        )
    }
}

/// The frame with which a client asks to follow the entry `entry` under the
/// name `name`.
pub open spec fn establish_frame(entry: EntryView, name: Seq<char>) -> Frame {
    match entry {
        EntryView::Signal(signal) => match signal.kind {
            SignalKind::ReadOnly => Frame::ServerSignal(SignalFrame::Establish(name)),
            SignalKind::BiDirectional => Frame::BiDirectional(SignalFrame::Establish(name)),
        },
        EntryView::Channel(_) => Frame::Channel(ChannelFrame::Establish(name)),
    }
}

impl WsSignals {
    /// The registry is well formed when its content is: see
    /// [`RegistryView::wf`].
    pub open spec fn wf(&self) -> bool {
        self@.wf()
    }

    /// An empty registry for one side of a connection.
    pub fn new(side: Side) -> (registry: WsSignals)
        ensures
            registry.wf(),
            registry@ == (RegistryView {
                side,
                entries: Map::<Seq<char>, EntryView>::empty(),
                names: Seq::<Seq<char>>::empty(),
            }),
    {
        let registry = WsSignals { side, signals: empty_map(), order: Vec::new() };
        proof {
            assert(registry@.entries =~= Map::<Seq<char>, EntryView>::empty());
            assert(registry@.names =~= Seq::<Seq<char>>::empty());
        }
        registry
    }

    /// The side that the registry serves.
    pub fn side(&self) -> (side: Side)
        ensures
            side == self@.side,
    {
        self.side
    }

    /// Whether the name is bound to a stateful signal. A channel of that
    /// name does not count.
    pub fn contains(&self, name: &str) -> (found: bool)
        ensures
            found == self@.has_signal(name@),
    {
        match map_get(&self.signals, name) {
            Some(Entry::Signal(_)) => true,
            _ => false,
        }
    }

    /// A copy of the signal that the name is bound to, if it is bound to a
    /// signal whose values are of the user type `element`. A signal of
    /// another type, a channel and an unbound name all give `None`.
    pub fn get_signal(&self, name: &str, element: &str) -> (found: Option<SignalEntry>)
        ensures
            found is Some <==> self@.has_signal(name@) && self@.signal(name@).element
                == element@,
            found is Some ==> found->0@ == self@.signal(name@),
    {
        match map_get(&self.signals, name) {
            Some(Entry::Signal(signal)) => {
                if *signal.element() == element.to_owned() {
                    Some(signal)
                } else {
                    None
                }
            },
            _ => None,
        }
    }

    /// A copy of the channel that the name is bound to, if it is bound to a
    /// channel whose messages are of the user type `element`.
    pub fn get_channel(&self, name: &str, element: &str) -> (found: Option<ChannelEntry>)
        ensures
            found is Some <==> self@.has_channel(name@) && self@.channel(name@).element
                == element@,
            found is Some ==> found->0@ == self@.channel(name@),
    {
        match map_get(&self.signals, name) {
            Some(Entry::Channel(channel)) => {
                if *channel.element() == element.to_owned() {
                    Some(channel)
                } else {
                    None
                }
            },
            _ => None,
        }
    }

    /// Binds `entry` to the unbound name `name` and lists the name last.
    fn bind_new(&mut self, name: &str, entry: Entry)
        requires
            old(self).wf(),
            !old(self)@.entries.dom().contains(name@),
            entry@.name() == name@,
        ensures
            final(self).wf(),
            final(self)@ == old(self)@.bind(name@, entry@),
    {
        let _ = map_insert(&mut self.signals, name.to_owned(), entry);
        self.order.push(name.to_owned());
        proof {
            assert(self@.entries =~= old(self)@.entries.insert(name@, entry@));
            assert(self@.names =~= old(self)@.names.push(name@));
            let last = old(self)@.names.len() as int;
            assert(self@.names[last] == name@);
            assert forall|other: Seq<char>| #[trigger]
                self@.entries.dom().contains(other) implies self@.names.contains(other)
                && self@.entries[other].name() == other by {
                if other != name@ {
                    let i = choose|i: int|
                        0 <= i < old(self)@.names.len() && old(self)@.names[i] == other;
                    assert(self@.names[i] == other);
                }
            }
            assert forall|i: int| 0 <= i < self@.names.len() implies self@.entries.dom().contains(
                #[trigger] self@.names[i],
            ) by {
                if i < last {
                    assert(self@.names[i] == old(self)@.names[i]);
                }
            }
            assert(self@.names.no_duplicates()) by {
                assert forall|i: int, j: int|
                    0 <= i < self@.names.len() && 0 <= j < self@.names.len() && i
                        != j implies self@.names[i] != self@.names[j] by {
                    if i < last {
                        assert(self@.names[i] == old(self)@.names[i]);
                    }
                    if j < last {
                        assert(self@.names[j] == old(self)@.names[j]);
                    }
                }
            }
        }
    }

    /// Registers the signal `value` under `name`, or finds the signal that
    /// is registered there already.
    ///
    /// `value` has to bear the name that it is registered under; one that
    /// bears another gives `AddingSignalFailed`. An unbound name is bound to
    /// `value`; on a client the result then carries `msg`, the frame that
    /// announces the signal to the server. A name that is bound to a signal
    /// of the same kind and element type gives that signal back and changes
    /// nothing. Any other bound name gives `AddingSignalFailed`.
    pub fn create_signal(&mut self, name: &str, value: SignalEntry, msg: Messages) -> (res: Result<
        (SignalEntry, Option<Messages>),
        Error,
    >)
        requires
            old(self).wf(),
        ensures
            final(self).wf(),
            res is Err ==> res->Err_0 is AddingSignalFailed && final(self)@ == old(self)@,
            value@.name != name@ ==> res is Err,
            value@.name == name@ && !old(self)@.entries.dom().contains(name@) ==> {
                &&& res is Ok
                &&& res->Ok_0.0@ == value@
                &&& res->Ok_0.1 is Some <==> old(self)@.side == Side::Client
                &&& res->Ok_0.1 is Some ==> res->Ok_0.1->0@ == msg@
                &&& final(self)@ == old(self)@.bind(name@, EntryView::Signal(value@))
            },
            value@.name == name@ && old(self)@.entries.dom().contains(name@) ==> {
                &&& final(self)@ == old(self)@
                &&& res is Ok <==> old(self)@.matches_signal(name@, value@)
                &&& res is Ok ==> res->Ok_0.0@ == old(self)@.signal(name@) && res->Ok_0.1 is None
            },
    {
        if *value.name() != name.to_owned() {
            return Err(Error::AddingSignalFailed);
        }
        match map_get(&self.signals, name) {
            Some(Entry::Signal(existing)) => {
                if existing.kind() == value.kind() && *existing.element() == *value.element() {
                    Ok((existing, None))
                } else {
                    Err(Error::AddingSignalFailed)
                }
            },
            Some(Entry::Channel(_)) => Err(Error::AddingSignalFailed),
            None => {
                let handle = value.duplicate();
                self.bind_new(name, Entry::Signal(value));
                match self.side {
                    Side::Client => Ok((handle, Some(msg))),
                    Side::Server => Ok((handle, None)),
                }
            },
        }
    }

    /// Registers the channel `value` under `name`, or finds the channel
    /// that is registered there already: as [`WsSignals::create_signal`],
    /// with the element type as the only thing that has to agree.
    pub fn create_channel(&mut self, name: &str, value: ChannelEntry, msg: Messages) -> (res:
        Result<(ChannelEntry, Option<Messages>), Error>)
        requires
            old(self).wf(),
        ensures
            final(self).wf(),
            res is Err ==> res->Err_0 is AddingSignalFailed && final(self)@ == old(self)@,
            value@.name != name@ ==> res is Err,
            value@.name == name@ && !old(self)@.entries.dom().contains(name@) ==> {
                &&& res is Ok
                &&& res->Ok_0.0@ == value@
                &&& res->Ok_0.1 is Some <==> old(self)@.side == Side::Client
                &&& res->Ok_0.1 is Some ==> res->Ok_0.1->0@ == msg@
                &&& final(self)@ == old(self)@.bind(name@, EntryView::Channel(value@))
            },
            value@.name == name@ && old(self)@.entries.dom().contains(name@) ==> {
                &&& final(self)@ == old(self)@
                &&& res is Ok <==> old(self)@.matches_channel(name@, value@)
                &&& res is Ok ==> res->Ok_0.0@ == old(self)@.channel(name@) && res->Ok_0.1 is None
            },
    {
        if *value.name() != name.to_owned() {
            return Err(Error::AddingSignalFailed);
        }
        match map_get(&self.signals, name) {
            Some(Entry::Channel(existing)) => {
                if *existing.element() == *value.element() {
                    Ok((existing, None))
                } else {
                    Err(Error::AddingSignalFailed)
                }
            },
            Some(Entry::Signal(_)) => Err(Error::AddingSignalFailed),
            None => {
                let handle = value.duplicate();
                self.bind_new(name, Entry::Channel(value));
                match self.side {
                    Side::Client => Ok((handle, Some(msg))),
                    Side::Server => Ok((handle, None)),
                }
            },
        }
    }

    /// Whether a subscription to the signal `name` can be opened: whether
    /// the name is bound to a stateful signal.
    pub fn add_observer(&self, name: &str) -> (granted: bool)
        ensures
            granted == self@.has_signal(name@),
    {
        match map_get(&self.signals, name) {
            Some(Entry::Signal(_)) => true,
            _ => false,
        }
    }

    /// Whether a subscription to the channel `name` can be opened.
    pub fn add_observer_channel(&self, name: &str) -> (granted: bool)
        ensures
            granted == self@.has_channel(name@),
    {
        match map_get(&self.signals, name) {
            Some(Entry::Channel(_)) => true,
            _ => false,
        }
    }

    /// Offers a handler for messages that arrive on the side `side` to the
    /// channel `name`.
    fn register_handler(&mut self, name: &str, side: Side) -> (res: Option<Result<bool, Error>>)
        requires
            old(self).wf(),
        ensures
            final(self).wf(),
            final(self)@ == old(self)@.after_handler(name@, side),
            res is Some <==> old(self)@.has_channel(name@),
            res is Some ==> res->0 is Ok && res->0->Ok_0 == (old(self)@.channel(name@).side
                == side),
    {
        match map_remove(&mut self.signals, name) {
            Some(Entry::Channel(channel)) => {
                let mut channel = channel;
                let res = match side {
                    Side::Server => channel.on_server(),
                    Side::Client => channel.on_client(),
                };
                let _ = map_insert(&mut self.signals, name.to_owned(), Entry::Channel(channel));
                proof {
                    assert(self@.entries =~= old(self)@.after_handler(name@, side).entries);
                }
                Some(res)
            },
            Some(other) => {
                let _ = map_insert(&mut self.signals, name.to_owned(), other);
                proof {
                    assert(self@.entries =~= old(self)@.entries);
                }
                None
            },
            None => {
                proof {
                    assert(self@.entries =~= old(self)@.entries);
                }
                None
            },
        }
    }

    /// Registers a handler for messages that arrive on the server with the
    /// channel `name`: `None` where the name is bound to no channel, else
    /// what [`ChannelEntry::on_server`] gives.
    pub fn on_server(&mut self, name: &str) -> (res: Option<Result<bool, Error>>)
        requires
            old(self).wf(),
        ensures
            final(self).wf(),
            final(self)@ == old(self)@.after_handler(name@, Side::Server),
            res is Some <==> old(self)@.has_channel(name@),
            res is Some ==> res->0 is Ok && res->0->Ok_0 == (old(self)@.channel(name@).side
                == Side::Server),
    {
        self.register_handler(name, Side::Server)
    }

    /// Registers a handler for messages that arrive on the client with the
    /// channel `name`: `None` where the name is bound to no channel, else
    /// what [`ChannelEntry::on_client`] gives.
    pub fn on_client(&mut self, name: &str) -> (res: Option<Result<bool, Error>>)
        requires
            old(self).wf(),
        ensures
            final(self).wf(),
            final(self)@ == old(self)@.after_handler(name@, Side::Client),
            res is Some <==> old(self)@.has_channel(name@),
            res is Some ==> res->0 is Ok && res->0->Ok_0 == (old(self)@.channel(name@).side
                == Side::Client),
    {
        self.register_handler(name, Side::Client)
    }

    /// Hands an inbound message to the channel `name`: `None` where the name
    /// is bound to no channel, else what [`ChannelEntry::handle_message`]
    /// decides.
    pub fn handle_message(&self, name: &str, message: Value) -> (res: Option<
        Result<Option<Value>, Error>,
    >)
        ensures
            res is Some <==> self@.has_channel(name@),
            res is Some ==> {
                &&& res->0 is Ok
                &&& res->0->Ok_0 is Some <==> self@.channel(name@).has_callback
                &&& res->0->Ok_0 is Some ==> json_content(res->0->Ok_0->0) == json_content(
                    message,
                )
            },
    {
        match map_get(&self.signals, name) {
            Some(Entry::Channel(channel)) => Some(channel.handle_message(message)),
            _ => None,
        }
    }

    /// A copy of the shadow of the signal `name`, or `None` where the name
    /// is bound to no signal.
    pub fn json(&self, name: &str) -> (res: Option<Result<Value, Error>>)
        ensures
            res is Some <==> self@.has_signal(name@),
            res is Some ==> res->0 is Ok && json_content(res->0->Ok_0) == self@.signal(
                name@,
            ).shadow,
    {
        match map_get(&self.signals, name) {
            Some(Entry::Signal(signal)) => Some(Ok(signal.into_json())),
            _ => None,
        }
    }

    /// Offers `patch` to the signal `name` on behalf of the writer `id`.
    /// Where `writable` is set, a signal that only the server may write
    /// refuses the patch.
    fn offer(
        &mut self,
        name: &str,
        patch: SignalUpdate,
        id: Option<String>,
        writable: bool,
    ) -> (res: Option<Result<Applied, Error>>)
        requires
            old(self).wf(),
        ensures
            final(self).wf(),
            res is Some <==> old(self)@.has_signal(name@),
            old(self)@.refuses(name@, writable) ==> {
                &&& final(self)@ == old(self)@
                &&& res->0 is Err
                &&& res->0->Err_0 is NotAvailableOnSignal
            },
            !old(self)@.refuses(name@, writable) ==> {
                &&& final(self)@ == old(self)@.after_update(name@, patch@.patch)
                &&& res is Some ==> update_outcome(
                    old(self)@.signal(name@),
                    patch@.patch,
                    id,
                    res->0,
                )
            },
    {
        match map_remove(&mut self.signals, name) {
            Some(Entry::Signal(signal)) => {
                let mut signal = signal;
                let res = if writable && signal.kind() == SignalKind::ReadOnly {
                    Err(Error::NotAvailableOnSignal)
                } else {
                    signal.update_json(patch.get_patch(), id)
                };
                let _ = map_insert(&mut self.signals, name.to_owned(), Entry::Signal(signal));
                proof {
                    if old(self)@.refuses(name@, writable) {
                        assert(self@.entries =~= old(self)@.entries);
                    } else {
                        assert(self@.entries =~= old(self)@.after_update(
                            name@,
                            patch@.patch,
                        ).entries);
                    }
                }
                Some(res)
            },
            Some(other) => {
                let _ = map_insert(&mut self.signals, name.to_owned(), other);
                proof {
                    assert(self@.entries =~= old(self)@.entries);
                }
                None
            },
            None => {
                proof {
                    assert(self@.entries =~= old(self)@.entries);
                }
                None
            },
        }
    }

    /// Offers the patch of `patch` to the signal `name` on behalf of the
    /// writer `id`: `None` where the name is bound to no signal, else what
    /// [`SignalEntry::update_json`] gives. The name inside `patch` is not
    /// looked at. This is the call for this side's own code and for what
    /// the server sent; what a client sent goes through
    /// [`WsSignals::update_bidirectional`].
    pub fn update(&mut self, name: &str, patch: SignalUpdate, id: Option<String>) -> (res: Option<
        Result<Applied, Error>,
    >)
        requires
            old(self).wf(),
        ensures
            final(self).wf(),
            final(self)@ == old(self)@.after_update(name@, patch@.patch),
            res is Some <==> old(self)@.has_signal(name@),
            res is Some ==> update_outcome(old(self)@.signal(name@), patch@.patch, id, res->0),
    {
        self.offer(name, patch, id, false)
    }

    /// Offers the patch of `patch` to the signal `name` on behalf of a
    /// client. A signal that only the server may write refuses it with
    /// `NotAvailableOnSignal` and stays as it is. Otherwise as
    /// [`WsSignals::update`].
    pub fn update_bidirectional(&mut self, name: &str, patch: SignalUpdate, id: Option<String>)
        -> (res: Option<Result<Applied, Error>>)
        requires
            old(self).wf(),
        ensures
            final(self).wf(),
            res is Some <==> old(self)@.has_signal(name@),
            old(self)@.refuses(name@, true) ==> {
                &&& final(self)@ == old(self)@
                &&& res->0 is Err
                &&& res->0->Err_0 is NotAvailableOnSignal
            },
            !old(self)@.refuses(name@, true) ==> {
                &&& final(self)@ == old(self)@.after_update(name@, patch@.patch)
                &&& res is Some ==> update_outcome(
                    old(self)@.signal(name@),
                    patch@.patch,
                    id,
                    res->0,
                )
            },
    {
        self.offer(name, patch, id, true)
    }

    /// Closes a change of the signal `name` once the caller knows what
    /// became of the typed cell: `None` where the name is bound to no
    /// signal any more, else what [`SignalEntry::settle`] gives. A change
    /// that the cell refused is taken back and not announced.
    pub fn settle(&mut self, name: &str, applied: Applied, stored: Result<(), String>) -> (res:
        Option<Result<Event, Error>>)
        requires
            old(self).wf(),
        ensures
            final(self).wf(),
            res is Some <==> old(self)@.has_signal(name@),
            final(self)@ == if stored is Err {
                old(self)@.after_seed(name@, json_content(applied.previous))
            } else {
                old(self)@
            },
            res is Some ==> {
                &&& res->0 is Ok <==> stored is Ok
                &&& res->0 is Ok ==> res->0->Ok_0@ == applied.event@
                &&& res->0 is Err ==> res->0->Err_0 == Error::SerializationFailed(stored->Err_0)
            },
    {
        match map_remove(&mut self.signals, name) {
            Some(Entry::Signal(signal)) => {
                let mut signal = signal;
                let res = signal.settle(applied, stored);
                let _ = map_insert(&mut self.signals, name.to_owned(), Entry::Signal(signal));
                proof {
                    if stored is Err {
                        assert(self@.entries =~= old(self)@.after_seed(
                            name@,
                            json_content(applied.previous),
                        ).entries);
                    } else {
                        assert(self@.entries =~= old(self)@.entries);
                    }
                }
                Some(res)
            },
            Some(other) => {
                let _ = map_insert(&mut self.signals, name.to_owned(), other);
                proof {
                    assert(self@.entries =~= old(self)@.entries);
                }
                None
            },
            None => {
                proof {
                    assert(self@.entries =~= old(self)@.entries);
                }
                None
            },
        }
    }

    /// Whether this side's own code may write the signal `name`: on the
    /// server every signal, on a client a bidirectional one.
    pub fn writable(&self, name: &str) -> (allowed: bool)
        ensures
            allowed == self@.writes_locally(name@),
    {
        match map_get(&self.signals, name) {
            Some(Entry::Signal(signal)) => match self.side {
                Side::Server => true,
                Side::Client => signal.kind() == SignalKind::BiDirectional,
            },
            _ => false,
        }
    }

    /// The local write path of the signal `name`. `did_update` is what the
    /// writer's closure reported, `new_json` the serialization of the typed
    /// cell after it ran.
    ///
    /// A closure that reports no mutation ends the write: nothing changes
    /// and nothing is announced. Nor is anything where this side may not
    /// write the signal: the name is bound to no signal, or this is a client
    /// and the signal is the server's to write. Otherwise the signal's
    /// shadow follows the cell, and the announcement for its subscribers is
    /// returned unless the shadow already agreed. The announced patch is the
    /// one that leads from the old shadow to `new_json`.
    pub fn try_maybe_update(&mut self, name: &str, did_update: bool, new_json: &Value) -> (event:
        Option<Event>)
        requires
            old(self).wf(),
        ensures
            final(self).wf(),
            final(self)@ == if did_update && old(self)@.writes_locally(name@) {
                old(self)@.after_seed(name@, json_content(*new_json))
            } else {
                old(self)@
            },
            event is Some <==> did_update && old(self)@.writes_locally(name@) && old(
                self,
            )@.signal(name@).shadow != json_content(*new_json),
            event is Some ==> {
                let signal = old(self)@.signal(name@);
                let patch = diffed(signal.shadow, json_content(*new_json));
                &&& event->0@ == (EventView {
                    origin: None,
                    frame: update_frame(signal.kind, signal.name, patch),
                })
                &&& patched(signal.shadow, patch) == Some(json_content(*new_json))
                &&& patch_size(patch) > 0
            },
    {
        if !did_update {
            return None;
        }
        match map_remove(&mut self.signals, name) {
            Some(Entry::Signal(signal)) => {
                let mut signal = signal;
                let allowed = match self.side {
                    Side::Server => true,
                    Side::Client => signal.kind() == SignalKind::BiDirectional,
                };
                let event = if allowed {
                    signal.try_maybe_update(true, new_json)
                } else {
                    None
                };
                let _ = map_insert(&mut self.signals, name.to_owned(), Entry::Signal(signal));
                proof {
                    if allowed {
                        assert(self@.entries =~= old(self)@.after_seed(
                            name@,
                            json_content(*new_json),
                        ).entries);
                    } else {
                        assert(self@.entries =~= old(self)@.entries);
                    }
                }
                event
            },
            Some(other) => {
                let _ = map_insert(&mut self.signals, name.to_owned(), other);
                proof {
                    assert(self@.entries =~= old(self)@.entries);
                }
                None
            },
            None => {
                proof {
                    assert(self@.entries =~= old(self)@.entries);
                }
                None
            },
        }
    }

    /// Replaces the shadow of the signal `name`, as when a client is seeded:
    /// `None` where the name is bound to no signal, else what
    /// [`SignalEntry::set_json`] gives.
    pub fn set_json(&mut self, name: &str, new_value: Value) -> (res: Option<Result<Seed, Error>>)
        requires
            old(self).wf(),
        ensures
            final(self).wf(),
            final(self)@ == old(self)@.after_seed(name@, json_content(new_value)),
            res is Some <==> old(self)@.has_signal(name@),
            res is Some ==> {
                &&& res->0 is Ok
                &&& json_content(res->0->Ok_0.reseed) == json_content(new_value)
                &&& json_content(res->0->Ok_0.previous) == old(self)@.signal(name@).shadow
            },
    {
        match map_remove(&mut self.signals, name) {
            Some(Entry::Signal(signal)) => {
                let mut signal = signal;
                let res = signal.set_json(new_value);
                let _ = map_insert(&mut self.signals, name.to_owned(), Entry::Signal(signal));
                proof {
                    assert(self@.entries =~= old(self)@.after_seed(
                        name@,
                        json_content(new_value),
                    ).entries);
                }
                Some(res)
            },
            Some(other) => {
                let _ = map_insert(&mut self.signals, name.to_owned(), other);
                proof {
                    assert(self@.entries =~= old(self)@.entries);
                }
                None
            },
            None => {
                proof {
                    assert(self@.entries =~= old(self)@.entries);
                }
                None
            },
        }
    }

    /// Closes a seed of the signal `name` once the caller knows what became
    /// of the typed cell: `None` where the name is bound to no signal any
    /// more, else what [`SignalEntry::settle_seed`] gives. A seed that the
    /// cell refused is taken back.
    pub fn settle_seed(&mut self, name: &str, seed: Seed, stored: Result<(), String>) -> (res:
        Option<Result<(), Error>>)
        requires
            old(self).wf(),
        ensures
            final(self).wf(),
            res is Some <==> old(self)@.has_signal(name@),
            final(self)@ == if stored is Err {
                old(self)@.after_seed(name@, json_content(seed.previous))
            } else {
                old(self)@
            },
            res is Some ==> {
                &&& res->0 is Ok <==> stored is Ok
                &&& res->0 is Err ==> res->0->Err_0 == Error::SerializationFailed(stored->Err_0)
            },
    {
        match map_remove(&mut self.signals, name) {
            Some(Entry::Signal(signal)) => {
                let mut signal = signal;
                let res = signal.settle_seed(seed, stored);
                let _ = map_insert(&mut self.signals, name.to_owned(), Entry::Signal(signal));
                proof {
                    if stored is Err {
                        assert(self@.entries =~= old(self)@.after_seed(
                            name@,
                            json_content(seed.previous),
                        ).entries);
                    } else {
                        assert(self@.entries =~= old(self)@.entries);
                    }
                }
                Some(res)
            },
            Some(other) => {
                let _ = map_insert(&mut self.signals, name.to_owned(), other);
                proof {
                    assert(self@.entries =~= old(self)@.entries);
                }
                None
            },
            None => {
                proof {
                    assert(self@.entries =~= old(self)@.entries);
                }
                None
            },
        }
    }

    /// Takes the bound name `name` off the list of registered names.
    fn unlist(&mut self, name: &str)
        requires
            old(self)@.names.no_duplicates(),
            old(self)@.names.contains(name@),
        ensures
            final(self)@.names == old(self)@.names.remove(old(self)@.names.index_of(name@)),
            final(self)@.entries == old(self)@.entries,
            final(self)@.side == old(self)@.side,
    {
        let key = name.to_owned();
        let mut i: usize = 0;
        while i < self.order.len()
            invariant
                *self == *old(self),
                key@ == name@,
                0 <= i <= self.order.len(),
                forall|j: int| 0 <= j < i ==> self@.names[j] != name@,
                self@.names.contains(name@),
                self@.names.no_duplicates(),
                self.order@.len() == self@.names.len(),
            decreases self.order.len() - i,
        {
            if self.order[i] == key {
                proof {
                    let at = self@.names.index_of(name@);
                    assert(self@.names[i as int] == name@);
                    assert(0 <= at < self@.names.len() && self@.names[at] == name@);
                    assert(at == i);
                }
                let _ = self.order.remove(i);
                proof {
                    assert(self@.names =~= old(self)@.names.remove(i as int));
                }
                return ;
            }
            i = i + 1;
        }
        proof {
            let at = choose|at: int| 0 <= at < self@.names.len() && self@.names[at] == name@;
            assert(false);
        }
    }

    /// Removes the binding of `name` where it is bound to a channel and
    /// `channel` is set, or to a signal and `channel` is not set.
    fn delete_entry(&mut self, name: &str, channel: bool) -> (removed: bool)
        requires
            old(self).wf(),
        ensures
            final(self).wf(),
            removed == if channel {
                old(self)@.has_channel(name@)
            } else {
                old(self)@.has_signal(name@)
            },
            final(self)@ == if removed {
                old(self)@.unbind(name@)
            } else {
                old(self)@
            },
    {
        match map_remove(&mut self.signals, name) {
            Some(entry) => {
                let is_channel = match entry {
                    Entry::Channel(_) => true,
                    Entry::Signal(_) => false,
                };
                if is_channel == channel {
                    proof {
                        assert(self@.entries =~= old(self)@.entries.remove(name@));
                    }
                    let ghost before = self@;
                    self.unlist(name);
                    proof {
                        let at = before.names.index_of(name@);
                        assert(before.names[at] == name@);
                        assert forall|other: Seq<char>|
                            self@.names.contains(other) <==> #[trigger] self@.entries.dom().contains(
                                other,
                            ) by {
                            if self@.names.contains(other) {
                                let j = choose|j: int|
                                    0 <= j < self@.names.len() && self@.names[j] == other;
                                if j < at {
                                    assert(before.names[j] == other);
                                } else {
                                    assert(before.names[j + 1] == other);
                                }
                            }
                            if self@.entries.dom().contains(other) {
                                let k = choose|k: int|
                                    0 <= k < before.names.len() && before.names[k] == other;
                                if k < at {
                                    assert(self@.names[k] == other);
                                } else {
                                    assert(self@.names[k - 1] == other);
                                }
                            }
                        }
                        assert(self@.names.no_duplicates()) by {
                            assert forall|a: int, b: int|
                                0 <= a < self@.names.len() && 0 <= b < self@.names.len() && a
                                    != b implies self@.names[a] != self@.names[b] by {
                                let a0 = if a < at { a } else { a + 1 };
                                let b0 = if b < at { b } else { b + 1 };
                                assert(self@.names[a] == before.names[a0]);
                                assert(self@.names[b] == before.names[b0]);
                            }
                        }
                    }
                    true
                } else {
                    let _ = map_insert(&mut self.signals, name.to_owned(), entry);
                    proof {
                        assert(self@.entries =~= old(self)@.entries);
                    }
                    false
                }
            },
            None => {
                proof {
                    assert(self@.entries =~= old(self)@.entries);
                }
                false
            },
        }
    }

    /// Removes the signal `name`. A name that is bound to no signal gives
    /// `DeletingSignalFailed` and changes nothing.
    pub fn delete_signal(&mut self, name: &str) -> (res: Result<(), Error>)
        requires
            old(self).wf(),
        ensures
            final(self).wf(),
            res is Ok <==> old(self)@.has_signal(name@),
            res is Ok ==> final(self)@ == old(self)@.unbind(name@),
            res is Err ==> res->Err_0 is DeletingSignalFailed && final(self)@ == old(self)@,
    {
        if self.delete_entry(name, false) {
            Ok(())
        } else {
            Err(Error::DeletingSignalFailed)
        }
    }

    /// Removes the channel `name`. A name that is bound to no channel gives
    /// `DeletingChannelHandlerFailed` and changes nothing.
    pub fn delete_channel(&mut self, name: &str) -> (res: Result<(), Error>)
        requires
            old(self).wf(),
        ensures
            final(self).wf(),
            res is Ok <==> old(self)@.has_channel(name@),
            res is Ok ==> final(self)@ == old(self)@.unbind(name@),
            res is Err ==> res->Err_0 is DeletingChannelHandlerFailed && final(self)@ == old(
                self,
            )@,
    {
        if self.delete_entry(name, true) {
            Ok(())
        } else {
            Err(Error::DeletingChannelHandlerFailed)
        }
    }

    /// The frames with which a client follows everything anew after its
    /// transport has come back: one `Establish` for each registered name,
    /// in the order of registration. The registry itself is not touched.
    pub fn reconnect(&self) -> (frames: Vec<Messages>)
        requires
            self.wf(),
        ensures
            frames@.len() == self@.names.len(),
            forall|i: int|
                0 <= i < frames@.len() ==> (#[trigger] frames@[i])@ == establish_frame(
                    self@.entries[self@.names[i]],
                    self@.names[i],
                ),
    {
        let mut frames: Vec<Messages> = Vec::new();
        let mut i: usize = 0;
        while i < self.order.len()
            invariant
                self.wf(),
                0 <= i <= self.order.len(),
                self.order@.len() == self@.names.len(),
                frames@.len() == i,
                forall|j: int|
                    0 <= j < i ==> (#[trigger] frames@[j])@ == establish_frame(
                        self@.entries[self@.names[j]],
                        self@.names[j],
                    ),
            decreases self.order.len() - i,
        {
            let name = self.order[i].clone();
            proof {
                assert(self@.names[i as int] == name@);
                assert(self@.names.contains(name@));
                assert(self@.entries.dom().contains(name@));
            }
            let frame = match map_get(&self.signals, name.as_str()) {
                Some(Entry::Signal(signal)) => match signal.kind() {
                    SignalKind::ReadOnly => Messages::ServerSignal(
                        ServerSignalMessage::Establish(name),
                    ),
                    SignalKind::BiDirectional => Messages::BiDirectional(
                        BiDirectionalMessage::Establish(name),
                    ),
                },
                _ => Messages::Channel(ChannelMessage::Establish(name)),
            };
            frames.push(frame);
            i = i + 1;
        }
        frames
    }
}

} // verus!
