use human_in_the_loop::errors::AskError;
use human_in_the_loop::policy::{
    deferral_message, resolve_gateway_wait, resolve_socket_wait, wait_policy, wait_seconds,
    GatewayWaitOutcome, SocketWaitOutcome, WaitPolicy,
};

const DEFERRAL: &str = "Please think autonomously. If you can adopt methods to delay decision-making, please use those approaches. If decision-making is necessary, please record what decisions you made in ./adr/yyyymmdd-hhmmss so you can proceed autonomously.";

#[test]
fn no_timeout_means_wait_forever() {
    assert_eq!(wait_policy(None), WaitPolicy::Forever);
}

#[test]
fn timeout_means_bounded_wait() {
    assert_eq!(wait_policy(Some(5)), WaitPolicy::Bounded { minutes: 5 });
    assert_eq!(wait_policy(Some(0)), WaitPolicy::Bounded { minutes: 0 });
}

#[test]
fn minutes_become_seconds() {
    assert_eq!(wait_seconds(5), 300);
    assert_eq!(wait_seconds(0), 0);
    assert_eq!(wait_seconds(1), 60);
}

#[test]
fn deferral_message_is_the_fixed_literal() {
    assert_eq!(deferral_message(), DEFERRAL);
}

#[test]
fn gateway_reply_is_returned_verbatim() {
    let r = resolve_gateway_wait(GatewayWaitOutcome::Reply("ship it".to_string()), true);
    assert_eq!(r, Ok("ship it".to_string()));
    let r = resolve_gateway_wait(GatewayWaitOutcome::Reply("ship it".to_string()), false);
    assert_eq!(r, Ok("ship it".to_string()));
}

#[test]
fn gateway_timeout_yields_deferral() {
    let r = resolve_gateway_wait(GatewayWaitOutcome::NoReply, true);
    assert_eq!(r, Ok(DEFERRAL.to_string()));
}

#[test]
fn gateway_unbounded_wait_without_reply_fails() {
    let r = resolve_gateway_wait(GatewayWaitOutcome::NoReply, false);
    assert_eq!(r, Err(AskError::ReplyWaitFailed));
}

#[test]
fn socket_reply_is_returned_verbatim() {
    let r = resolve_socket_wait(SocketWaitOutcome::Reply("tomorrow 9am".to_string()));
    assert_eq!(r, Ok("tomorrow 9am".to_string()));
}

#[test]
fn socket_timeout_yields_deferral() {
    let r = resolve_socket_wait(SocketWaitOutcome::TimedOut);
    assert_eq!(r, Ok(DEFERRAL.to_string()));
}

#[test]
fn socket_closed_channel_is_fatal() {
    assert_eq!(resolve_socket_wait(SocketWaitOutcome::Closed), Err(AskError::ChannelClosed));
}

#[test]
fn socket_lagged_subscription_is_fatal() {
    assert_eq!(resolve_socket_wait(SocketWaitOutcome::Lagged), Err(AskError::LaggedDelivery));
}

#[test]
fn error_messages_describe_each_failure() {
    assert_eq!(AskError::ConnectionNotReady.message(), "The connection with the chat backend is not ready");
    assert_eq!(AskError::ConnectionBootstrapFailed.message(), "Failed to get the event-stream URL");
    assert_eq!(AskError::ThreadCreationFailed.message(), "Failed to create the conversation thread");
    assert_eq!(AskError::ReplyWaitFailed.message(), "Failed to await a message from the human");
    assert_eq!(AskError::ChannelClosed.message(), "Channel closed");
    assert_eq!(AskError::LaggedDelivery.message(), "Message lagged");
}
