use vstd::prelude::*;

verus! {

/// Why an `ask` call failed.
///
/// A timeout is deliberately absent: running out of time is a successful
/// outcome that carries the deferral message, not an error.
#[derive(Clone, Copy, Debug, PartialEq, Eq, Structural)]
pub enum AskError {
    /// The gateway connection has not reported itself ready yet; the
    /// caller may try again later.
    ConnectionNotReady,
    /// The bootstrap call that obtains the event-stream address failed.
    ConnectionBootstrapFailed,
    /// The conversation thread could not be created.
    ThreadCreationFailed,
    /// No timeout was configured and the wait primitive ended without a
    /// reply, so no reply can ever arrive.
    ReplyWaitFailed,
    /// The notification channel for the thread closed.
    ChannelClosed,
    /// The subscriber fell behind and the channel dropped replies meant
    /// for it.
    LaggedDelivery,
}

impl AskError {
    /// Human-readable description of the failure.
    pub fn message(&self) -> (m: String)
        ensures
            m@ == self.message_text(),
    {
        match self {
            AskError::ConnectionNotReady => "The connection with the chat backend is not ready".to_owned(),
            AskError::ConnectionBootstrapFailed => "Failed to get the event-stream URL".to_owned(),
            AskError::ThreadCreationFailed => "Failed to create the conversation thread".to_owned(),
            AskError::ReplyWaitFailed => "Failed to await a message from the human".to_owned(),
            AskError::ChannelClosed => "Channel closed".to_owned(),
            AskError::LaggedDelivery => "Message lagged".to_owned(),
        }
    }

    /// The text `message` returns for each variant.
    pub open spec fn message_text(&self) -> Seq<char> {
        match self {
            AskError::ConnectionNotReady => "The connection with the chat backend is not ready"@,
            AskError::ConnectionBootstrapFailed => "Failed to get the event-stream URL"@,
            AskError::ThreadCreationFailed => "Failed to create the conversation thread"@,
            AskError::ReplyWaitFailed => "Failed to await a message from the human"@,
            AskError::ChannelClosed => "Channel closed"@,
            AskError::LaggedDelivery => "Message lagged"@,
        }
    }
}

} // verus!
