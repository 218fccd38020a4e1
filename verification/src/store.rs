//! The boundary to `dashmap`: the concurrent map that holds a registry's
//! entries. The verifier sees nothing inside the map, so what it holds has a
//! name, [`held`], and each call that the registry makes has a trusted
//! contract over that name. Mutating calls take the map by `&mut`, so that a
//! contract can tell the map before the call from the map after it.

use vstd::prelude::*;
use dashmap::DashMap;
use crate::channel::{ChannelEntry, ChannelView};
use crate::signal::{SignalEntry, SignalView};

verus! {

/// `dashmap::DashMap`: a concurrent hash map.
#[verifier::external_type_specification]
#[verifier::external_body]
#[verifier::reject_recursive_types(K)]
#[verifier::reject_recursive_types(V)]
#[verifier::reject_recursive_types(S)]
pub struct ExDashMap<K, V, S>(dashmap::DashMap<K, V, S>);

/// What a registry binds a name to.
#[derive(Clone, Debug)]
pub enum Entry {
    Signal(SignalEntry),
    Channel(ChannelEntry),
}

/// What an [`Entry`] holds.
pub enum EntryView {
    Signal(SignalView),
    Channel(ChannelView),
}

impl View for Entry {
    type V = EntryView;

    open spec fn view(&self) -> EntryView {
        match self {
            Entry::Signal(signal) => EntryView::Signal(signal@),
            Entry::Channel(channel) => EntryView::Channel(channel@),
        }
    }
}

impl EntryView {
    /// The entry's own name.
    pub open spec fn name(self) -> Seq<char> {
        match self {
            EntryView::Signal(signal) => signal.name,
            EntryView::Channel(channel) => channel.name,
        }
    }
}

impl Entry {
    /// The entry's own name.
    pub fn name(&self) -> (name: &String)
        ensures
            name@ == self@.name(),
    {
        match self {
            Entry::Signal(signal) => signal.name(),
            Entry::Channel(channel) => channel.name(),
        }
    }

    /// A copy of the entry.
    pub fn duplicate(&self) -> (copy: Entry)
        ensures
            copy@ == self@,
    {
        match self {
            Entry::Signal(signal) => Entry::Signal(signal.duplicate()),
            Entry::Channel(channel) => Entry::Channel(channel.duplicate()),
        }
    }
}

/// The bindings that the map holds, keyed by the characters of the name.
pub uninterp spec fn held(map: DashMap<String, Entry>) -> Map<Seq<char>, Entry>;

/// `DashMap::new`: a map without bindings.
#[verifier::external_body]
pub(crate) fn empty_map() -> (fresh: DashMap<String, Entry>)
    ensures
        held(fresh) =~= Map::empty(),
{
    DashMap::new()
}

/// `DashMap::contains_key`: whether the name is bound.
#[verifier::external_body]
pub(crate) fn map_contains(map: &DashMap<String, Entry>, name: &str) -> (found: bool)
    ensures
        found == held(*map).dom().contains(name@),
{
    map.contains_key(name)
}

/// `DashMap::get`, and a copy of the entry behind the guard that it gives:
/// what the name is bound to, if it is bound. The copy is made by
/// [`Entry::duplicate`], which keeps the view.
#[verifier::external_body]
pub(crate) fn map_get(map: &DashMap<String, Entry>, name: &str) -> (found: Option<Entry>)
    ensures
        found is Some <==> held(*map).dom().contains(name@),
        found is Some ==> found->0@ == held(*map)[name@]@,
{
    map.get(name).map(|guard| guard.value().duplicate())
}

/// `DashMap::insert`: binds the name to the entry and returns what it was
/// bound to before, if anything.
#[verifier::external_body]
pub(crate) fn map_insert(map: &mut DashMap<String, Entry>, name: String, entry: Entry) -> (previous:
    Option<Entry>)
    ensures
        held(*final(map)) == held(*old(map)).insert(name@, entry),
        previous is Some <==> held(*old(map)).dom().contains(name@),
        previous is Some ==> previous->0 == held(*old(map))[name@],
{
    map.insert(name, entry)
}

/// `DashMap::remove`: unbinds the name and returns the entry that it was
/// bound to, if there was one.
#[verifier::external_body]
pub(crate) fn map_remove(map: &mut DashMap<String, Entry>, name: &str) -> (removed: Option<Entry>)
    ensures
        held(*final(map)) == held(*old(map)).remove(name@),
        removed is Some <==> held(*old(map)).dom().contains(name@),
        removed is Some ==> removed->0 == held(*old(map))[name@],
{
    map.remove(name).map(|binding| binding.1)
}

} // verus!
