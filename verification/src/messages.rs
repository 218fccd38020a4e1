//! The frames that travel over a connection, and the update they carry.

use vstd::prelude::*;
use serde_json::Value;
use json_patch::Patch;
use crate::json::{
    count_operations, diff_values, diffed, json_content, patch_content, patch_size, patched,
};

verus! {

/// An incremental change to one signal: its name and an RFC 6902 patch.
#[derive(Clone, Debug)]
pub struct SignalUpdate {
    name: String,
    patch: Patch,
}

/// What a [`SignalUpdate`] says: the signal's name and the patch's content.
pub struct UpdateView {
    pub name: Seq<char>,
    pub patch: Seq<char>,
}

impl View for SignalUpdate {
    type V = UpdateView;

    closed spec fn view(&self) -> UpdateView {
        UpdateView { name: self.name@, patch: patch_content(self.patch) }
    }
}

impl SignalUpdate {
    /// The update that leads a signal from the document `old` to `new`.
    /// Applying its patch to `old` gives `new` again, and the patch has no
    /// operation exactly when the two documents are equal.
    pub fn new_from_json(name: String, old: &Value, new: &Value) -> (update: SignalUpdate)
        ensures
            update@.name == name@,
            update@.patch == diffed(json_content(*old), json_content(*new)),
            patched(json_content(*old), update@.patch) == Some(json_content(*new)),
            patch_size(update@.patch) == 0 <==> json_content(*old) == json_content(*new),
    {
        let patch = diff_values(old, new);
        SignalUpdate { name, patch }
    }

    /// Whether the update changes nothing: whether its patch has no
    /// operation.
    pub fn is_empty(&self) -> (empty: bool)
        ensures
            empty == (patch_size(self@.patch) == 0),
    {
        count_operations(&self.patch) == 0
    }

    /// The update that carries a copy of `patch`.
    pub fn new_from_patch(name: String, patch: &Patch) -> (update: SignalUpdate)
        ensures
            update@ == (UpdateView { name: name@, patch: patch_content(*patch) }),
    {
        SignalUpdate { name, patch: patch.clone() }
    }

    /// A copy of the update.
    pub fn duplicate(&self) -> (copy: SignalUpdate)
        ensures
            copy@ == self@,
    {
        SignalUpdate { name: self.name.clone(), patch: self.patch.clone() }
    }

    /// The patch that the update carries.
    pub fn get_patch(&self) -> (patch: &Patch)
        ensures
            patch_content(*patch) == self@.patch,
    {
        &self.patch
    }

    /// The name of the signal that the update is for.
    pub fn get_name(&self) -> (name: &String)
        ensures
            name@ == self@.name,
    {
        &self.name
    }
}

/// Frames of a stateful signal. The server-authoritative and the
/// bidirectional family share this shape.
#[derive(Clone, Debug)]
pub enum ServerSignalMessage {
    /// A client asks to follow the signal of this name.
    Establish(String),
    /// The server seeds the client with the signal's whole value.
    EstablishResponse(String, Value),
    /// The signal changed by this patch.
    Update(SignalUpdate),
}

/// Frames of a bidirectional signal.
#[derive(Clone, Debug)]
pub enum BiDirectionalMessage {
    /// A client asks to follow the signal of this name.
    Establish(String),
    /// The server seeds the client with the signal's whole value.
    EstablishResponse(String, Value),
    /// Either side changed the signal by this patch.
    Update(SignalUpdate),
}

/// Frames of a message channel.
#[derive(Clone, Debug)]
pub enum ChannelMessage {
    /// A client asks to follow the channel of this name.
    Establish(String),
    /// The server acknowledges; a channel has no value to seed.
    EstablishResponse(String),
    /// One message on the named channel.
    Message(String, Value),
}

/// Every frame that a connection carries.
#[derive(Clone, Debug)]
pub enum Messages {
    ServerSignal(ServerSignalMessage),
    BiDirectional(BiDirectionalMessage),
    Channel(ChannelMessage),
}

/// What a frame of a stateful signal says.
pub enum SignalFrame {
    Establish(Seq<char>),
    EstablishResponse(Seq<char>, Seq<char>),
    Update(UpdateView),
}

/// What a frame of a channel says.
pub enum ChannelFrame {
    Establish(Seq<char>),
    EstablishResponse(Seq<char>),
    Message(Seq<char>, Seq<char>),
}

/// What a frame says, with names as character sequences and JSON by content.
pub enum Frame {
    ServerSignal(SignalFrame),
    BiDirectional(SignalFrame),
    Channel(ChannelFrame),
}

impl View for ServerSignalMessage {
    type V = SignalFrame;

    open spec fn view(&self) -> SignalFrame {
        match self {
            ServerSignalMessage::Establish(name) => SignalFrame::Establish(name@),
            ServerSignalMessage::EstablishResponse(name, value) => SignalFrame::EstablishResponse(
                name@,
                json_content(*value),
            ),
            ServerSignalMessage::Update(update) => SignalFrame::Update(update@),
        }
    }
}

impl View for BiDirectionalMessage {
    type V = SignalFrame;

    open spec fn view(&self) -> SignalFrame {
        match self {
            BiDirectionalMessage::Establish(name) => SignalFrame::Establish(name@),
            BiDirectionalMessage::EstablishResponse(name, value) => SignalFrame::EstablishResponse(
                name@,
                json_content(*value),
            ),
            BiDirectionalMessage::Update(update) => SignalFrame::Update(update@),
        }
    }
}

impl View for ChannelMessage {
    type V = ChannelFrame;

    open spec fn view(&self) -> ChannelFrame {
        match self {
            ChannelMessage::Establish(name) => ChannelFrame::Establish(name@),
            ChannelMessage::EstablishResponse(name) => ChannelFrame::EstablishResponse(name@),
            ChannelMessage::Message(name, value) => ChannelFrame::Message(
                name@,
                json_content(*value),
            ),
        }
    }
}

impl View for Messages {
    type V = Frame;

    open spec fn view(&self) -> Frame {
        match self {
            Messages::ServerSignal(message) => Frame::ServerSignal(message@),
            Messages::BiDirectional(message) => Frame::BiDirectional(message@),
            Messages::Channel(message) => Frame::Channel(message@),
        }
    }
}

impl ServerSignalMessage {
    /// A copy of the frame.
    pub fn duplicate(&self) -> (copy: ServerSignalMessage)
        ensures
            copy@ == self@,
    {
        match self {
            ServerSignalMessage::Establish(name) => ServerSignalMessage::Establish(name.clone()),
            ServerSignalMessage::EstablishResponse(name, value) => {
                ServerSignalMessage::EstablishResponse(name.clone(), value.clone())
            },
            ServerSignalMessage::Update(update) => ServerSignalMessage::Update(update.duplicate()),
        }
    }
}

impl BiDirectionalMessage {
    /// A copy of the frame.
    pub fn duplicate(&self) -> (copy: BiDirectionalMessage)
        ensures
            copy@ == self@,
    {
        match self {
            BiDirectionalMessage::Establish(name) => BiDirectionalMessage::Establish(name.clone()),
            BiDirectionalMessage::EstablishResponse(name, value) => {
                BiDirectionalMessage::EstablishResponse(name.clone(), value.clone())
            },
            BiDirectionalMessage::Update(update) => BiDirectionalMessage::Update(
                update.duplicate(),
            ),
        }
    }
}

impl ChannelMessage {
    /// A copy of the frame.
    pub fn duplicate(&self) -> (copy: ChannelMessage)
        ensures
            copy@ == self@,
    {
        match self {
            ChannelMessage::Establish(name) => ChannelMessage::Establish(name.clone()),
            ChannelMessage::EstablishResponse(name) => ChannelMessage::EstablishResponse(
                name.clone(),
            ),
            ChannelMessage::Message(name, value) => ChannelMessage::Message(
                name.clone(),
                value.clone(),
            ),
        }
    }
}

impl Messages {
    /// A copy of the frame.
    pub fn duplicate(&self) -> (copy: Messages)
        ensures
            copy@ == self@,
    {
        match self {
            Messages::ServerSignal(message) => Messages::ServerSignal(message.duplicate()),
            Messages::BiDirectional(message) => Messages::BiDirectional(message.duplicate()),
            Messages::Channel(message) => Messages::Channel(message.duplicate()),
        }
    }
}

} // verus!
