//! Inter-process messaging: errors and channel naming.

use vstd::prelude::*;
use vstd::string::*;

verus! {

/// Errors of the message bus.
#[derive(Debug, Clone)]
pub enum BusError {
    Connection(String),
    ChannelClosed,
    Serialization(String),
}

/// The message of a bus error.
pub open spec fn spec_bus_error_message(e: BusError) -> Seq<char> {
    match e {
        BusError::Connection(m) => "Bus connection error: "@ + m@,
        BusError::ChannelClosed => "Channel closed"@,
        BusError::Serialization(m) => "Serialization error: "@ + m@,
    }
}

impl BusError {
    /// The message of this error.
    pub fn message(&self) -> (r: String)
        ensures
            r@ == spec_bus_error_message(*self),
    {
        match self {
            BusError::Connection(m) => {
                let mut r = String::from_str("Bus connection error: ");
                r.append(m.as_str());
                r
            },
            BusError::ChannelClosed => String::from_str("Channel closed"),
            BusError::Serialization(m) => {
                let mut r = String::from_str("Serialization error: ");
                r.append(m.as_str());
                r
            },
        }
    }
}

/// The channel a shared bus uses for `channel`: `prefix:channel`.
pub fn prefixed_channel(prefix: &str, channel: &str) -> (r: String)
    ensures
        r@ == prefix@ + ":"@ + channel@,
{
    let mut r = String::from_str(prefix);
    r.append(":");
    r.append(channel);
    r
}

/// Messaging between processes: byte messages published on named channels.
pub trait MessageBus {
    /// Publishes `message` on `channel`.
    fn publish(&self, channel: &str, message: &[u8]) -> Result<(), BusError>;

    /// Subscribes to `channel`; the receiver yields what is published there.
    fn subscribe(&self, channel: &str) -> Result<Box<dyn MessageReceiver>, BusError>;

    /// Stops delivering `channel`.
    fn unsubscribe(&self, channel: &str) -> Result<(), BusError>;
}

/// The receiving end of a subscription.
pub trait MessageReceiver {
    /// The next message, waiting until one arrives.
    fn recv(&mut self) -> Result<Vec<u8>, BusError>;
}

} // verus!
