//! The error kinds that the operations of this crate report.

use vstd::prelude::*;

verus! {

/// What can go wrong in a registry or signal operation.
#[derive(Debug)]
pub enum Error {
    /// No registry is installed in the surrounding context.
    MissingServerSignals,
    /// The name is already bound to an entry of another kind or element type.
    AddingSignalFailed,
    /// A message handler could not be registered on a channel.
    AddingChannelHandlerFailed,
    /// The name is not bound to a stateful signal.
    DeletingSignalFailed,
    /// The name is not bound to a channel.
    DeletingChannelHandlerFailed,
    /// A patch did not apply, or a local write changed nothing.
    UpdateSignalFailed,
    /// The operation does not exist for this kind of signal.
    NotAvailableOnSignal,
    /// The operation exists on the server side only.
    NotAvailableOnClient,
    /// A user value could not be turned into JSON, or JSON into a user value.
    /// Carries the text of the serializer's own error.
    SerializationFailed(String),
}

impl Error {
    /// The text of each kind. The serialization kind passes the serializer's
    /// own text on.
    pub open spec fn description(self) -> Seq<char> {
        match self {
            Error::MissingServerSignals => "No ServerSignals in State"@,
            Error::AddingSignalFailed => "Could not add ServerSignal to ServerSignals"@,
            Error::AddingChannelHandlerFailed => "Could not add ChannelHandler to ChannelHandlers"@,
            Error::DeletingSignalFailed => "Could not delete Signal"@,
            Error::DeletingChannelHandlerFailed => "Could not delete ChannelHandler"@,
            Error::UpdateSignalFailed => "Could not update Signal"@,
            Error::NotAvailableOnSignal => "Method not available on Signal"@,
            Error::NotAvailableOnClient => "Method not available on Client"@,
            Error::SerializationFailed(text) => text@,
        }
    }

    /// The human-readable text of the error.
    pub fn message(&self) -> (text: String)
        ensures
            text@ == self.description(),
    {
        match self {
            Error::MissingServerSignals => "No ServerSignals in State".to_owned(),
            Error::AddingSignalFailed => "Could not add ServerSignal to ServerSignals".to_owned(),
            Error::AddingChannelHandlerFailed => {
                "Could not add ChannelHandler to ChannelHandlers".to_owned()
            },
            Error::DeletingSignalFailed => "Could not delete Signal".to_owned(),
            Error::DeletingChannelHandlerFailed => "Could not delete ChannelHandler".to_owned(),
            Error::UpdateSignalFailed => "Could not update Signal".to_owned(),
            Error::NotAvailableOnSignal => "Method not available on Signal".to_owned(),
            Error::NotAvailableOnClient => "Method not available on Client".to_owned(),
            Error::SerializationFailed(text) => text.clone(),
        }
    }
}

} // verus!
