//! What holds of the engine as a whole, proved from the contracts of its
//! operations.

use vstd::prelude::*;
use crate::json::patched;
use crate::messages::{Frame, SignalFrame, UpdateView};
use crate::error::Error;
use crate::session::{
    followed, forwarded, forwarded_all, forwarded_local, registry_followed, registry_served,
    served, ActionView,
};
use crate::signal::{shadow_after, update_frame, EventView, SignalKind, SignalView};
use crate::store::EntryView;
use crate::ws_signals::RegistryView;

verus! {

/// A signal seen from outside: its shadow, and the JSON of what its typed
/// cell holds.
pub struct Mirror {
    pub shadow: Seq<char>,
    pub cell: Seq<char>,
}

/// One write to a signal.
pub enum Write {
    /// A local writer changed the cell, which now serializes to this value,
    /// and the signal was brought in line with it
    /// (`SignalEntry::try_maybe_update` with a closure that reports a
    /// mutation).
    Local(Seq<char>),
    /// A remote writer sent this patch (`SignalEntry::update_json` with an
    /// origin). The caller offered the patched shadow to the cell and
    /// closed the change with what became of it (`SignalEntry::settle`):
    /// `accepted` says whether the cell took the value.
    Remote { patch: Seq<char>, accepted: bool },
    /// The signal was seeded with this value (`SignalEntry::set_json`), the
    /// caller offered it to the cell and closed the seed with what became
    /// of it (`SignalEntry::settle_seed`).
    Seed { value: Seq<char>, accepted: bool },
}

impl Mirror {
    /// Shadow and cell agree.
    pub open spec fn in_step(self) -> bool {
        self.shadow == self.cell
    }

    /// The signal after one write. A local write leaves the shadow equal to
    /// the cell's new serialization. A remote patch that applies moves the
    /// shadow; where the cell takes the new shadow, both hold it; where the
    /// cell refuses it, the shadow is put back. A patch that does not apply
    /// changes neither.
    pub open spec fn after(self, write: Write) -> Mirror {
        match write {
            Write::Local(value) => Mirror { shadow: value, cell: value },
            Write::Remote { patch, accepted } => {
                let moved = shadow_after(self.shadow, patch);
                if patched(self.shadow, patch) is None {
                    self
                } else if accepted {
                    Mirror { shadow: moved, cell: moved }
                } else {
                    Mirror { shadow: self.shadow, cell: self.cell }
                }
            },
            Write::Seed { value, accepted } => if accepted {
                Mirror { shadow: value, cell: value }
            } else {
                self
            },
        }
    }

    /// The signal after a run of writes, one after the other.
    pub open spec fn after_all(self, writes: Seq<Write>) -> Mirror
        decreases writes.len(),
    {
        if writes.len() == 0 {
            self
        } else {
            self.after_all(writes.drop_last()).after(writes.last())
        }
    }
}

/// Under any run of local writes, remote patches and seeds, applied one at
/// a time, a signal whose shadow agrees with its cell keeps agreeing after
/// every write of the run, whether or not the cell takes what came from the
/// other side.
pub proof fn lemma_shadow_follows_cell(start: Mirror, writes: Seq<Write>, upto: int)
    requires
        start.in_step(),
        0 <= upto <= writes.len(),
    ensures
        start.after_all(writes.take(upto)).in_step(),
    decreases upto,
{
    if upto > 0 {
        lemma_shadow_follows_cell(start, writes, upto - 1);
        assert(writes.take(upto).drop_last() =~= writes.take(upto - 1));
    }
}

/// Seeding puts a client in step: once it has followed the response that
/// the server gave to its request, its shadow of the signal is the server's.
pub proof fn lemma_seed_puts_in_step(
    server: RegistryView,
    client: RegistryView,
    peer: Seq<char>,
    name: Seq<char>,
    bidirectional: bool,
)
    requires
        server.has_signal(name),
        client.has_signal(name),
    ensures
        ({
            let request = if bidirectional {
                Frame::BiDirectional(SignalFrame::Establish(name))
            } else {
                Frame::ServerSignal(SignalFrame::Establish(name))
            };
            let answer = served(server, peer, request);
            &&& answer is Establish
            &&& registry_served(server, request) == server
            &&& registry_followed(client, answer->Establish_reply).has_signal(name)
            &&& registry_followed(client, answer->Establish_reply).signal(name).shadow
                == server.signal(name).shadow
        }),
{
}

/// An update keeps a client in step: where the shadows of a signal agree,
/// they agree again after the server has applied a patch and the client has
/// followed the frame that announces it.
pub proof fn lemma_update_keeps_in_step(
    server: RegistryView,
    client: RegistryView,
    name: Seq<char>,
    patch: Seq<char>,
)
    requires
        server.wf(),
        server.has_signal(name),
        client.has_signal(name),
        server.signal(name).shadow == client.signal(name).shadow,
    ensures
        ({
            let announced = update_frame(server.signal(name).kind, name, patch);
            let server_after = server.after_update(name, patch);
            let client_after = registry_followed(client, announced);
            &&& server_after.has_signal(name)
            &&& client_after.has_signal(name)
            &&& server_after.signal(name).shadow == client_after.signal(name).shadow
        }),
{
}

/// The registry after the signal `name` has been offered each patch of a
/// run in turn.
pub open spec fn updated_all(registry: RegistryView, name: Seq<char>, patches: Seq<Seq<char>>)
    -> RegistryView
    decreases patches.len(),
{
    if patches.len() == 0 {
        registry
    } else {
        updated_all(registry, name, patches.drop_last()).after_update(name, patches.last())
    }
}

/// The frames that announce such a run to the subscribers of the signal:
/// one for each patch that applied, in order.
pub open spec fn announced_all(registry: RegistryView, name: Seq<char>, patches: Seq<Seq<char>>)
    -> Seq<Frame>
    decreases patches.len(),
{
    if patches.len() == 0 {
        Seq::empty()
    } else {
        let before = updated_all(registry, name, patches.drop_last());
        let frames = announced_all(registry, name, patches.drop_last());
        if before.has_signal(name) && patched(before.signal(name).shadow, patches.last())
            is Some {
            frames.push(
                update_frame(before.signal(name).kind, before.signal(name).name, patches.last()),
            )
        } else {
            frames
        }
    }
}

/// A client's registry after it has followed a run of frames.
pub open spec fn followed_all(registry: RegistryView, frames: Seq<Frame>) -> RegistryView
    decreases frames.len(),
{
    if frames.len() == 0 {
        registry
    } else {
        registry_followed(followed_all(registry, frames.drop_last()), frames.last())
    }
}

/// A client that is in step with the server on a signal, and follows every
/// frame that the server announces for a run of patches, is in step with
/// the server after the run.
pub proof fn lemma_follower_converges(
    server: RegistryView,
    client: RegistryView,
    name: Seq<char>,
    patches: Seq<Seq<char>>,
)
    requires
        server.wf(),
        server.has_signal(name),
        client.has_signal(name),
        server.signal(name).shadow == client.signal(name).shadow,
    ensures
        updated_all(server, name, patches).wf(),
        updated_all(server, name, patches).has_signal(name),
        followed_all(client, announced_all(server, name, patches)).has_signal(name),
        updated_all(server, name, patches).signal(name).shadow == followed_all(
            client,
            announced_all(server, name, patches),
        ).signal(name).shadow,
        updated_all(server, name, patches).signal(name).name == name,
        updated_all(server, name, patches).signal(name).kind == server.signal(name).kind,
    decreases patches.len(),
{
    if patches.len() > 0 {
        let shorter = patches.drop_last();
        lemma_follower_converges(server, client, name, shorter);
        let before = updated_all(server, name, shorter);
        let frames = announced_all(server, name, shorter);
        if patched(before.signal(name).shadow, patches.last()) is Some {
            let frame = update_frame(before.signal(name).kind, name, patches.last());
            assert(frames.push(frame).drop_last() =~= frames);
            assert(frames.push(frame).last() == frame);
            lemma_update_keeps_in_step(before, followed_all(client, frames), name, patches.last());
        }
    }
}

/// Offering a run of patches is offering its first part and then the rest.
pub proof fn lemma_updated_all_splits(
    registry: RegistryView,
    name: Seq<char>,
    earlier: Seq<Seq<char>>,
    later: Seq<Seq<char>>,
)
    ensures
        updated_all(registry, name, earlier + later) == updated_all(
            updated_all(registry, name, earlier),
            name,
            later,
        ),
    decreases later.len(),
{
    if later.len() == 0 {
        assert(earlier + later =~= earlier);
    } else {
        lemma_updated_all_splits(registry, name, earlier, later.drop_last());
        assert((earlier + later).drop_last() =~= earlier + later.drop_last());
        assert((earlier + later).last() == later.last());
    }
}

/// A late joiner converges. A client that asks for a signal after the
/// server has already applied the patches `earlier` gets one response, which
/// carries the shadow that those patches left. Once it has followed that
/// response and then every frame that the server announces for the patches
/// `later`, its shadow is the one that the whole run left on the server.
pub proof fn lemma_late_joiner_converges(
    server: RegistryView,
    client: RegistryView,
    peer: Seq<char>,
    name: Seq<char>,
    bidirectional: bool,
    earlier: Seq<Seq<char>>,
    later: Seq<Seq<char>>,
)
    requires
        server.wf(),
        server.has_signal(name),
        client.has_signal(name),
    ensures
        ({
            let request = if bidirectional {
                Frame::BiDirectional(SignalFrame::Establish(name))
            } else {
                Frame::ServerSignal(SignalFrame::Establish(name))
            };
            let joined = updated_all(server, name, earlier);
            let answer = served(joined, peer, request);
            let seeded = registry_followed(client, answer->Establish_reply);
            let end = followed_all(seeded, announced_all(joined, name, later));
            &&& answer is Establish
            &&& answer->Establish_reply == (if bidirectional {
                Frame::BiDirectional(
                    SignalFrame::EstablishResponse(name, joined.signal(name).shadow),
                )
            } else {
                Frame::ServerSignal(
                    SignalFrame::EstablishResponse(name, joined.signal(name).shadow),
                )
            })
            &&& end.has_signal(name)
            &&& end.signal(name).shadow == updated_all(server, name, earlier + later).signal(
                name,
            ).shadow
        }),
{
    let joined = updated_all(server, name, earlier);
    lemma_follower_converges(server, server, name, earlier);
    lemma_seed_puts_in_step(joined, client, peer, name, bidirectional);
    let request = if bidirectional {
        Frame::BiDirectional(SignalFrame::Establish(name))
    } else {
        Frame::ServerSignal(SignalFrame::Establish(name))
    };
    let seeded = registry_followed(client, served(joined, peer, request)->Establish_reply);
    lemma_follower_converges(joined, seeded, name, later);
    lemma_updated_all_splits(server, name, earlier, later);
}

/// No frame that a connection forwards stems from an announcement that
/// carries the connection's own token: each forwarded frame is the frame of
/// some announcement of the run with another origin, or none.
pub proof fn lemma_forwarded_never_own(id: Seq<char>, events: Seq<EventView>, k: int)
    requires
        0 <= k < forwarded_all(id, events).len(),
    ensures
        exists|j: int|
            0 <= j < events.len() && (#[trigger] events[j]).origin != Some(id) && events[j].frame
                == forwarded_all(id, events)[k],
    decreases events.len(),
{
    let before = forwarded_all(id, events.drop_last());
    if k < before.len() {
        lemma_forwarded_never_own(id, events.drop_last(), k);
        let j = choose|j: int|
            0 <= j < events.drop_last().len() && (#[trigger] events.drop_last()[j]).origin != Some(
                id,
            ) && events.drop_last()[j].frame == before[k];
        assert(events[j] == events.drop_last()[j]);
    } else {
        assert(events[events.len() - 1] == events.last());
    }
}

/// A connection that caused none of the announcements of a run forwards
/// every one of them, in order: an observer misses nothing.
pub proof fn lemma_observer_gets_everything(id: Seq<char>, events: Seq<EventView>)
    requires
        forall|j: int| 0 <= j < events.len() ==> (#[trigger] events[j]).origin != Some(id),
    ensures
        forwarded_all(id, events) == events.map_values(|event: EventView| event.frame),
    decreases events.len(),
{
    let frames = events.map_values(|event: EventView| event.frame);
    if events.len() == 0 {
        assert(forwarded_all(id, events) =~= frames);
    } else {
        lemma_observer_gets_everything(id, events.drop_last());
        let shorter = events.drop_last().map_values(|event: EventView| event.frame);
        assert(events[events.len() - 1] == events.last());
        assert(frames =~= shorter.push(events.last().frame));
    }
}

/// A connection forwards nothing for a run of announcements that all carry
/// its own token.
pub proof fn lemma_own_run_is_silent(id: Seq<char>, events: Seq<EventView>)
    requires
        forall|j: int| 0 <= j < events.len() ==> (#[trigger] events[j]).origin == Some(id),
    ensures
        forwarded_all(id, events).len() == 0,
    decreases events.len(),
{
    if events.len() > 0 {
        lemma_own_run_is_silent(id, events.drop_last());
    }
}

/// Echo suppression on the server: the announcement of an update that a
/// connection sent is not forwarded to that connection, and is forwarded to
/// every other one.
pub proof fn lemma_update_not_echoed(
    registry: RegistryView,
    id: Seq<char>,
    other: Seq<char>,
    update: UpdateView,
)
    requires
        other != id,
    ensures
        ({
            let action = served(registry, id, Frame::BiDirectional(SignalFrame::Update(update)));
            action is Applied ==> {
                &&& forwarded(id, action->Applied_event) is None
                &&& forwarded(other, action->Applied_event) == Some(action->Applied_event.frame)
            }
        }),
{
}

/// A client cannot write a signal that is the server's to write: the server
/// rejects its update, leaves the registry as it is, and has nothing to
/// announce.
pub proof fn lemma_read_only_is_not_written(registry: RegistryView, id: Seq<char>, update: UpdateView)
    requires
        registry.has_signal(update.name),
        registry.signal(update.name).kind == SignalKind::ReadOnly,
    ensures
        ({
            let frame = Frame::BiDirectional(SignalFrame::Update(update));
            &&& served(registry, id, frame) == (ActionView::Rejected {
                name: update.name,
                error: Error::NotAvailableOnSignal,
            })
            &&& registry_served(registry, frame) == registry
        }),
{
}

/// Echo suppression on a client: what it applies on the server's word is
/// not sent back to the server.
pub proof fn lemma_remote_update_not_returned(registry: RegistryView, id: Seq<char>, frame: Frame)
    ensures
        ({
            let action = followed(registry, id, frame);
            action is Applied ==> forwarded_local(action->Applied_event) is None
        }),
{
}

/// Creating a signal twice is creating it once: after a signal has been
/// registered under an unbound name, a second signal of the same kind and
/// element type finds the first one there, whatever value it brings.
pub proof fn lemma_create_is_idempotent(
    registry: RegistryView,
    name: Seq<char>,
    first: SignalView,
    second: SignalView,
)
    requires
        !registry.entries.dom().contains(name),
        first.kind == second.kind,
        first.element == second.element,
    ensures
        ({
            let once = registry.bind(name, EntryView::Signal(first));
            &&& once.matches_signal(name, second)
            &&& once.signal(name) == first
            &&& once.names == registry.names.push(name)
        }),
{
}

} // verus!
