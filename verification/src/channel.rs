//! A message channel as the registry holds it. A channel has no value: it
//! carries discrete messages and remembers only whether a handler is
//! registered on its own side of the connection.

use vstd::prelude::*;
use serde_json::Value;
use crate::error::Error;
use crate::json::json_content;
use crate::messages::{ChannelFrame, ChannelMessage, Frame, Messages};
use crate::signal::{Event, EventView};

verus! {

/// The end of the connection that a registry, or an entry, belongs to.
#[derive(Clone, Copy, Debug, PartialEq, Eq, Structural)]
pub enum Side {
    Server,
    Client,
}

/// A message channel.
#[derive(Clone, Debug)]
pub struct ChannelEntry {
    name: String,
    element: String,
    side: Side,
    has_callback: bool,
}

/// What a [`ChannelEntry`] holds.
pub struct ChannelView {
    pub name: Seq<char>,
    /// The name of the user type of the messages.
    pub element: Seq<char>,
    pub side: Side,
    /// Whether a handler for inbound messages is registered.
    pub has_callback: bool,
}

impl View for ChannelEntry {
    type V = ChannelView;

    closed spec fn view(&self) -> ChannelView {
        ChannelView {
            name: self.name@,
            element: self.element@,
            side: self.side,
            has_callback: self.has_callback,
        }
    }
}

impl ChannelEntry {
    /// A channel without a handler.
    pub fn new(name: String, element: String, side: Side) -> (entry: ChannelEntry)
        ensures
            entry@ == (ChannelView { name: name@, element: element@, side, has_callback: false }),
    {
        ChannelEntry { name, element, side, has_callback: false }
    }

    pub fn name(&self) -> (name: &String)
        ensures
            name@ == self@.name,
    {
        &self.name
    }

    pub fn element(&self) -> (element: &String)
        ensures
            element@ == self@.element,
    {
        &self.element
    }

    pub fn side(&self) -> (side: Side)
        ensures
            side == self@.side,
    {
        self.side
    }

    /// A copy of the entry.
    pub fn duplicate(&self) -> (copy: ChannelEntry)
        ensures
            copy@ == self@,
    {
        ChannelEntry {
            name: self.name.clone(),
            element: self.element.clone(),
            side: self.side,
            has_callback: self.has_callback,
        }
    }

    /// Registers a handler for messages that arrive on the server. On a
    /// server-side entry the handler counts from now on and the result is
    /// `Ok(true)`: the caller keeps the handler. On a client-side entry
    /// nothing is registered and the result is `Ok(false)`.
    pub fn on_server(&mut self) -> (res: Result<bool, Error>)
        ensures
            res is Ok,
            res->Ok_0 == (old(self)@.side == Side::Server),
            final(self)@ == (ChannelView {
                has_callback: old(self)@.has_callback || old(self)@.side == Side::Server,
                ..old(self)@
            }),
    {
        match self.side {
            Side::Server => {
                self.has_callback = true;
                Ok(true)
            },
            Side::Client => Ok(false),
        }
    }

    /// Registers a handler for messages that arrive on the client: the
    /// mirror image of [`ChannelEntry::on_server`].
    pub fn on_client(&mut self) -> (res: Result<bool, Error>)
        ensures
            res is Ok,
            res->Ok_0 == (old(self)@.side == Side::Client),
            final(self)@ == (ChannelView {
                has_callback: old(self)@.has_callback || old(self)@.side == Side::Client,
                ..old(self)@
            }),
    {
        match self.side {
            Side::Client => {
                self.has_callback = true;
                Ok(true)
            },
            Side::Server => Ok(false),
        }
    }

    /// Decides what becomes of an inbound message: it is handed back for the
    /// registered handler where there is one, and dropped where there is
    /// none. Never fails.
    pub fn handle_message(&self, message: Value) -> (res: Result<Option<Value>, Error>)
        ensures
            res is Ok,
            res->Ok_0 is Some <==> self@.has_callback,
            res->Ok_0 is Some ==> json_content(res->Ok_0->0) == json_content(message),
    {
        if self.has_callback {
            Ok(Some(message))
        } else {
            Ok(None)
        }
    }

    /// The announcement that sends `message` to every peer: a channel
    /// message without an origin.
    pub fn send_message(&self, message: Value) -> (event: Event)
        ensures
            event@ == (EventView {
                origin: None,
                frame: Frame::Channel(ChannelFrame::Message(self@.name, json_content(message))),
            }),
    {
        Event {
            origin: None,
            message: Messages::Channel(ChannelMessage::Message(self.name.clone(), message)),
        }
    }

    /// Whether the entry may be deleted: on the server it may, on a client
    /// the answer is `NotAvailableOnClient`.
    pub fn delete(&self) -> (res: Result<(), Error>)
        ensures
            res is Ok <==> self@.side == Side::Server,
            res is Err ==> res->Err_0 is NotAvailableOnClient,
    {
        match self.side {
            Side::Server => Ok(()),
            Side::Client => Err(Error::NotAvailableOnClient),
        }
    }
}

} // verus!
