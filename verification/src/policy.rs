use vstd::prelude::*;
use crate::errors::AskError;

verus! {

/// How long an `ask` call may wait for a human reply.
#[derive(Clone, Copy, Debug, PartialEq, Eq, Structural)]
pub enum WaitPolicy {
    /// No timeout was configured: wait until a reply arrives or the wait
    /// primitive reports that none ever can.
    Forever,
    /// Wait up to this many minutes, then give up gracefully.
    Bounded { minutes: u64 },
}

/// Maps the configured optional timeout to a wait policy.
pub fn wait_policy(timeout_minutes: Option<u64>) -> (p: WaitPolicy)
    ensures
        match timeout_minutes {
            Some(m) => p == (WaitPolicy::Bounded { minutes: m }),
            None => p == WaitPolicy::Forever,
        },
{
    match timeout_minutes {
        Some(m) => WaitPolicy::Bounded { minutes: m },
        None => WaitPolicy::Forever,
    }
}

/// Converts a timeout in minutes to the seconds handed to the timer.
pub fn wait_seconds(minutes: u64) -> (s: u64)
    requires
        minutes <= u64::MAX / 60,
    ensures
        s == minutes * 60,
{
    minutes * 60
}

/// The fixed text returned when the human does not answer in time: the
/// caller is told to proceed autonomously and record its decisions.
pub open spec fn deferral_text() -> Seq<char> {
    "Please think autonomously. If you can adopt methods to delay decision-making, please use those approaches. If decision-making is necessary, please record what decisions you made in ./adr/yyyymmdd-hhmmss so you can proceed autonomously."@
}

/// The deferral message as an owned string.
pub fn deferral_message() -> (m: String)
    ensures
        m@ == deferral_text(),
{
    "Please think autonomously. If you can adopt methods to delay decision-making, please use those approaches. If decision-making is necessary, please record what decisions you made in ./adr/yyyymmdd-hhmmss so you can proceed autonomously.".to_owned()
}

/// What the gateway backend's wait primitive produced: the next message
/// posted in the thread, or nothing.
pub enum GatewayWaitOutcome {
    /// A message arrived; this is its literal text.
    Reply(String),
    /// The wait ended without a message: the timer expired when a timeout
    /// was configured, or the event stream ended when none was.
    NoReply,
}

/// Turns a gateway wait outcome into the result of `ask`.
///
/// `bounded` says whether a timeout was configured. Running out of time is
/// not an error: it yields the deferral message. Only an unbounded wait
/// that ends without a reply fails, because no reply can ever arrive then.
pub fn resolve_gateway_wait(outcome: GatewayWaitOutcome, bounded: bool) -> (r: Result<String, AskError>)
    ensures
        (outcome matches GatewayWaitOutcome::Reply(t) ==> (r matches Ok(a) && a == t)),
        outcome is NoReply && bounded ==> (r matches Ok(a) && a@ == deferral_text()),
        outcome is NoReply && !bounded ==> r == Result::<String, AskError>::Err(AskError::ReplyWaitFailed),
{
    match outcome {
        GatewayWaitOutcome::Reply(t) => Ok(t),
        GatewayWaitOutcome::NoReply => {
            if bounded {
                Ok(deferral_message())
            } else {
                Err(AskError::ReplyWaitFailed)
            }
        },
    }
}

/// What the socket backend's wait on its reply subscription produced.
pub enum SocketWaitOutcome {
    /// A reply routed to the subscription; this is its literal text.
    Reply(String),
    /// The configured timeout expired before any reply arrived.
    TimedOut,
    /// The notification channel closed: no reply can ever arrive.
    Closed,
    /// The subscriber fell behind and the channel dropped replies.
    Lagged,
}

/// Turns a socket wait outcome into the result of `ask`.
///
/// A timeout yields the deferral message; a closed channel and a lagged
/// subscription are fatal for this call.
pub fn resolve_socket_wait(outcome: SocketWaitOutcome) -> (r: Result<String, AskError>)
    ensures
        (outcome matches SocketWaitOutcome::Reply(t) ==> (r matches Ok(a) && a == t)),
        outcome is TimedOut ==> (r matches Ok(a) && a@ == deferral_text()),
        outcome is Closed ==> r == Result::<String, AskError>::Err(AskError::ChannelClosed),
        outcome is Lagged ==> r == Result::<String, AskError>::Err(AskError::LaggedDelivery),
{
    match outcome {
        SocketWaitOutcome::Reply(t) => Ok(t),
        SocketWaitOutcome::TimedOut => Ok(deferral_message()),
        SocketWaitOutcome::Closed => Err(AskError::ChannelClosed),
        SocketWaitOutcome::Lagged => Err(AskError::LaggedDelivery),
    }
}

} // verus!
