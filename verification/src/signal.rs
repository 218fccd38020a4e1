//! A stateful signal as the registry holds it: a name, a kind, and the JSON
//! shadow that patches are computed against and applied to.
//!
//! The typed, observable cell that a user reads and writes lives outside
//! this crate. An operation here says, in what it returns, what that cell
//! has to be set to (`reseed`) and what has to be announced to the
//! subscribers (`event`).

use vstd::prelude::*;
use serde_json::Value;
use json_patch::Patch;
use crate::error::Error;
use crate::json::{
    apply_patch, count_operations, diff_values, diffed, json_content, patch_content, patch_size,
    patched,
};
use crate::messages::{
    BiDirectionalMessage, Frame, Messages, ServerSignalMessage, SignalFrame, SignalUpdate,
    UpdateView,
};

verus! {

/// Which protocol a stateful signal follows.
#[derive(Clone, Copy, Debug, PartialEq, Eq, Structural)]
pub enum SignalKind {
    /// Written by the server only; clients observe.
    ReadOnly,
    /// Written by either side.
    BiDirectional,
}

/// One announcement on a signal's broadcast endpoint: the frame, and the
/// token of the connection whose inbound frame caused it, if one did.
#[derive(Clone, Debug)]
pub struct Event {
    pub origin: Option<String>,
    pub message: Messages,
}

/// What an [`Event`] says.
pub struct EventView {
    pub origin: Option<Seq<char>>,
    pub frame: Frame,
}

/// An optional token, as an optional character sequence.
pub open spec fn origin_view(origin: Option<String>) -> Option<Seq<char>> {
    match origin {
        Some(token) => Some(token@),
        None => None,
    }
}

impl View for Event {
    type V = EventView;

    open spec fn view(&self) -> EventView {
        EventView { origin: origin_view(self.origin), frame: self.message@ }
    }
}

/// The update frame of a signal of kind `kind`.
pub open spec fn update_frame(kind: SignalKind, name: Seq<char>, patch: Seq<char>) -> Frame {
    let update = SignalFrame::Update(UpdateView { name, patch });
    match kind {
        SignalKind::ReadOnly => Frame::ServerSignal(update),
        SignalKind::BiDirectional => Frame::BiDirectional(update),
    }
}

/// The shadow that a patch leaves: the patched document where the patch
/// applies, the old one where it does not.
pub open spec fn shadow_after(shadow: Seq<char>, patch: Seq<char>) -> Seq<char> {
    match patched(shadow, patch) {
        Some(after) => after,
        None => shadow,
    }
}

/// What a successful change of the shadow asks of the caller: store
/// `reseed` in the typed cell where there is one to store, then report to
/// [`SignalEntry::settle`] whether the cell took it.
#[derive(Clone, Debug)]
pub struct Applied {
    /// The value to store in the typed cell, where the change came from a
    /// remote writer; `None` where the cell was the source of the change.
    pub reseed: Option<Value>,
    /// The announcement for the signal's subscribers.
    pub event: Event,
    /// The shadow as it was before the change.
    pub previous: Value,
}

/// What a seeded signal asks of the caller: store `reseed` in the typed
/// cell, then report to [`SignalEntry::settle_seed`] whether the cell took
/// it.
#[derive(Clone, Debug)]
pub struct Seed {
    /// The value to store in the typed cell.
    pub reseed: Value,
    /// The shadow as it was before the seed.
    pub previous: Value,
}

/// A stateful signal.
#[derive(Clone, Debug)]
pub struct SignalEntry {
    name: String,
    kind: SignalKind,
    element: String,
    initial: Value,
    json_value: Value,
}

/// What a [`SignalEntry`] holds.
pub struct SignalView {
    pub name: Seq<char>,
    pub kind: SignalKind,
    /// The name of the user type whose values the signal carries.
    pub element: Seq<char>,
    /// The value that the signal was created with.
    pub initial: Seq<char>,
    /// The current JSON shadow.
    pub shadow: Seq<char>,
}

impl View for SignalEntry {
    type V = SignalView;

    closed spec fn view(&self) -> SignalView {
        SignalView {
            name: self.name@,
            kind: self.kind,
            element: self.element@,
            initial: json_content(self.initial),
            shadow: json_content(self.json_value),
        }
    }
}

/// Whether a read happens while the page is being hydrated, from what the
/// rendering context reports: `None` where there is no context, else whether
/// it is hydrating right now and whether it is within a hydration at all.
pub fn check_is_hydrating(shared_context: Option<(bool, bool)>) -> (hydrating: bool)
    ensures
        hydrating == match shared_context {
            Some((is_hydrating, during_hydration)) => is_hydrating || !during_hydration,
            None => false,
        },
{
    match shared_context {
        Some((is_hydrating, during_hydration)) => is_hydrating || !during_hydration,
        None => false,
    }
}

impl SignalEntry {
    /// A signal whose shadow and initial value are both `value`.
    pub fn new(name: String, kind: SignalKind, element: String, value: Value) -> (entry:
        SignalEntry)
        ensures
            entry@ == (SignalView {
                name: name@,
                kind,
                element: element@,
                initial: json_content(value),
                shadow: json_content(value),
            }),
    {
        let initial = value.clone();
        SignalEntry { name, kind, element, initial, json_value: value }
    }

    pub fn name(&self) -> (name: &String)
        ensures
            name@ == self@.name,
    {
        &self.name
    }

    pub fn kind(&self) -> (kind: SignalKind)
        ensures
            kind == self@.kind,
    {
        self.kind
    }

    pub fn element(&self) -> (element: &String)
        ensures
            element@ == self@.element,
    {
        &self.element
    }

    /// A copy of the entry.
    pub fn duplicate(&self) -> (copy: SignalEntry)
        ensures
            copy@ == self@,
    {
        SignalEntry {
            name: self.name.clone(),
            kind: self.kind,
            element: self.element.clone(),
            initial: self.initial.clone(),
            json_value: self.json_value.clone(),
        }
    }

    /// The current shadow itself, taken out of the entry.
    pub fn into_json(self) -> (shadow: Value)
        ensures
            json_content(shadow) == self@.shadow,
    {
        self.json_value
    }

    /// A copy of the current shadow. Never fails.
    pub fn json(&self) -> (snapshot: Result<Value, Error>)
        ensures
            snapshot is Ok,
            json_content(snapshot->Ok_0) == self@.shadow,
    {
        Ok(self.json_value.clone())
    }

    /// The value that a reader sees: the initial one while the page is being
    /// hydrated, the current one otherwise.
    pub fn try_get(&self, is_hydrating: bool) -> (seen: Value)
        ensures
            json_content(seen) == if is_hydrating {
                self@.initial
            } else {
                self@.shadow
            },
    {
        if is_hydrating {
            self.initial.clone()
        } else {
            self.json_value.clone()
        }
    }

    /// Applies `patch` to the shadow on behalf of the writer `id` (`None` for
    /// a local writer, whose cell already holds the new value).
    ///
    /// The patch is tried on a copy of the shadow. A patch that does not
    /// apply leaves the signal as it was and gives `UpdateSignalFailed`. One
    /// that applies replaces the shadow; the result carries the
    /// announcement under the writer's token, the shadow as it was, and the
    /// value to reseed the typed cell with exactly when the writer was
    /// remote.
    pub fn update_json(&mut self, patch: &Patch, id: Option<String>) -> (res: Result<
        Applied,
        Error,
    >)
        ensures
            res is Ok <==> patched(old(self)@.shadow, patch_content(*patch)) is Some,
            res is Err ==> res->Err_0 is UpdateSignalFailed && final(self)@ == old(self)@,
            final(self)@ == (SignalView {
                shadow: shadow_after(old(self)@.shadow, patch_content(*patch)),
                ..old(self)@
            }),
            res is Ok ==> {
                let applied = res->Ok_0;
                &&& applied.event@ == (EventView {
                    origin: origin_view(id),
                    frame: update_frame(old(self)@.kind, old(self)@.name, patch_content(*patch)),
                })
                &&& json_content(applied.previous) == old(self)@.shadow
                &&& applied.reseed is Some <==> id is Some
                &&& applied.reseed is Some ==> json_content(applied.reseed->0)
                    == final(self)@.shadow
            },
    {
        let mut candidate = self.json_value.clone();
        match apply_patch(&mut candidate, patch) {
            Ok(()) => {
                let reseed = if id.is_some() {
                    Some(candidate.clone())
                } else {
                    None
                };
                let mut previous = candidate;
                std::mem::swap(&mut previous, &mut self.json_value);
                let update = SignalUpdate::new_from_patch(self.name.clone(), patch);
                let message = match self.kind {
                    SignalKind::ReadOnly => Messages::ServerSignal(
                        ServerSignalMessage::Update(update),
                    ),
                    SignalKind::BiDirectional => Messages::BiDirectional(
                        BiDirectionalMessage::Update(update),
                    ),
                };
                Ok(Applied { reseed, event: Event { origin: id, message }, previous })
            },
            Err(_) => Err(Error::UpdateSignalFailed),
        }
    }

    /// Closes a change that [`SignalEntry::update_json`] made, once the
    /// caller knows what became of the typed cell. `stored` is `Ok` where
    /// the cell took the value of `applied.reseed`, or where there was
    /// nothing to store; it is `Err` with the serializer's text where the
    /// user type refused the value.
    ///
    /// A change that the cell took is announced: the result is its event. A
    /// change that the cell refused is taken back: the shadow is again what
    /// it was before the change, nothing is announced, and the result is
    /// `SerializationFailed` with the text.
    pub fn settle(&mut self, applied: Applied, stored: Result<(), String>) -> (res: Result<
        Event,
        Error,
    >)
        ensures
            res is Ok <==> stored is Ok,
            res is Ok ==> res->Ok_0@ == applied.event@ && final(self)@ == old(self)@,
            res is Err ==> {
                &&& res->Err_0 == Error::SerializationFailed(stored->Err_0)
                &&& final(self)@ == (SignalView {
                    shadow: json_content(applied.previous),
                    ..old(self)@
                })
            },
    {
        match stored {
            Ok(()) => Ok(applied.event),
            Err(text) => {
                self.json_value = applied.previous;
                Err(Error::SerializationFailed(text))
            },
        }
    }

    /// Replaces the whole shadow, as when a client is seeded with the
    /// server's value. The result carries the value to store in the typed
    /// cell and the shadow as it was. Never fails.
    pub fn set_json(&mut self, new_value: Value) -> (res: Result<Seed, Error>)
        ensures
            res is Ok,
            json_content(res->Ok_0.reseed) == json_content(new_value),
            json_content(res->Ok_0.previous) == old(self)@.shadow,
            final(self)@ == (SignalView { shadow: json_content(new_value), ..old(self)@ }),
    {
        let reseed = new_value.clone();
        let mut previous = new_value;
        std::mem::swap(&mut previous, &mut self.json_value);
        Ok(Seed { reseed, previous })
    }

    /// Closes a seed that [`SignalEntry::set_json`] made, once the caller
    /// knows what became of the typed cell. A seed that the cell took stays.
    /// A seed that the user type refused is taken back: the shadow is again
    /// what it was, and the result is `SerializationFailed` with the
    /// serializer's text.
    pub fn settle_seed(&mut self, seed: Seed, stored: Result<(), String>) -> (res: Result<
        (),
        Error,
    >)
        ensures
            res is Ok <==> stored is Ok,
            res is Ok ==> final(self)@ == old(self)@,
            res is Err ==> {
                &&& res->Err_0 == Error::SerializationFailed(stored->Err_0)
                &&& final(self)@ == (SignalView {
                    shadow: json_content(seed.previous),
                    ..old(self)@
                })
            },
    {
        match stored {
            Ok(()) => Ok(()),
            Err(text) => {
                self.json_value = seed.previous;
                Err(Error::SerializationFailed(text))
            },
        }
    }

    /// Brings the shadow in line with `new_json`, the serialization of the
    /// typed cell after a local write.
    ///
    /// The difference between the two is computed. Where it is empty, which
    /// is where the shadow already equals `new_json`, nothing changes and
    /// the result is `UpdateSignalFailed`. Otherwise the difference is
    /// applied and announced without an origin, and the shadow equals
    /// `new_json`. The announced patch is the one that leads from the old
    /// shadow to `new_json`.
    pub fn update_if_changed(&mut self, new_json: &Value) -> (res: Result<Applied, Error>)
        ensures
            res is Err <==> old(self)@.shadow == json_content(*new_json),
            res is Err ==> res->Err_0 is UpdateSignalFailed,
            final(self)@ == (SignalView { shadow: json_content(*new_json), ..old(self)@ }),
            patched(old(self)@.shadow, diffed(old(self)@.shadow, json_content(*new_json))) == Some(
                json_content(*new_json),
            ),
            patch_size(diffed(old(self)@.shadow, json_content(*new_json))) == 0
                <==> old(self)@.shadow == json_content(*new_json),
            res is Ok ==> {
                let applied = res->Ok_0;
                &&& applied.reseed is None
                &&& json_content(applied.previous) == old(self)@.shadow
                &&& applied.event@ == (EventView {
                    origin: None,
                    frame: update_frame(
                        old(self)@.kind,
                        old(self)@.name,
                        diffed(old(self)@.shadow, json_content(*new_json)),
                    ),
                })
            },
    {
        let patch = diff_values(&self.json_value, new_json);
        if count_operations(&patch) == 0 {
            Err(Error::UpdateSignalFailed)
        } else {
            self.update_json(&patch, None)
        }
    }

    /// The local write path. `did_update` is what the writer's closure
    /// reported, `new_json` the serialization of the cell after it ran.
    ///
    /// A closure that reports no mutation ends the write: nothing changes
    /// and nothing is announced. Otherwise the shadow follows the cell, and
    /// the announcement is returned unless the shadow already agreed. The
    /// announced patch is the one that leads from the old shadow to
    /// `new_json`.
    pub fn try_maybe_update(&mut self, did_update: bool, new_json: &Value) -> (event: Option<
        Event,
    >)
        ensures
            event is Some <==> did_update && old(self)@.shadow != json_content(*new_json),
            !did_update ==> final(self)@ == old(self)@,
            did_update ==> final(self)@ == (SignalView {
                shadow: json_content(*new_json),
                ..old(self)@
            }),
            event is Some ==> {
                let patch = diffed(old(self)@.shadow, json_content(*new_json));
                &&& event->0@ == (EventView {
                    origin: None,
                    frame: update_frame(old(self)@.kind, old(self)@.name, patch),
                })
                &&& patched(old(self)@.shadow, patch) == Some(json_content(*new_json))
                &&& patch_size(patch) > 0
            },
    {
        if !did_update {
            return None;
        }
        match self.update_if_changed(new_json) {
            Ok(applied) => Some(applied.event),
            Err(_) => None,
        }
    }
}

} // verus!
