use human_in_the_loop::errors::AskError;
use human_in_the_loop::policy::SocketWaitOutcome;
use human_in_the_loop::router::InboundEvent;
use human_in_the_loop::socket::{ConnectPlan, SocketHuman, ThreadPlan};

const DEFERRAL: &str = "Please think autonomously. If you can adopt methods to delay decision-making, please use those approaches. If decision-making is necessary, please record what decisions you made in ./adr/yyyymmdd-hhmmss so you can proceed autonomously.";

fn human(timeout: Option<u64>) -> SocketHuman {
    SocketHuman::new("C1".to_string(), "U1".to_string(), timeout)
}

fn reply_event(channel: &str, author: &str, root: &str, text: &str) -> InboundEvent {
    InboundEvent {
        envelope_id: Some("env-1".to_string()),
        is_message: true,
        channel: Some(channel.to_string()),
        author: Some(author.to_string()),
        thread_root: Some(root.to_string()),
        text: Some(text.to_string()),
    }
}

#[test]
fn connection_starts_at_most_once() {
    let mut h = human(Some(5));
    assert!(matches!(h.connect_plan(), ConnectPlan::Start));
    // A second caller while the bootstrap is in flight awaits it.
    assert!(matches!(h.connect_plan(), ConnectPlan::Await));
    h.connect_succeeded();
    assert!(matches!(h.connect_plan(), ConnectPlan::Running));
}

#[test]
fn failed_bootstrap_can_be_retried() {
    let mut h = human(Some(5));
    assert!(matches!(h.connect_plan(), ConnectPlan::Start));
    h.connect_failed();
    assert!(matches!(h.connect_plan(), ConnectPlan::Start));
}

#[test]
fn first_ask_posts_the_truncated_question_as_the_thread_opener() {
    let mut h = human(Some(5));
    let q: String = "s".repeat(120);
    match h.thread_plan(&q) {
        ThreadPlan::Create { channel, text } => {
            assert_eq!(channel, "C1");
            assert_eq!(text, format!("<@U1> {}", "s".repeat(100)));
        },
        _ => panic!("first ask must create the thread"),
    }
}

#[test]
fn second_ask_reuses_the_root_and_replies_in_thread() {
    let mut h = human(Some(5));
    // First ask creates the thread and captures the message timestamp.
    assert!(matches!(h.thread_plan("first question"), ThreadPlan::Create { .. }));
    h.thread_created("1700000000.000100".to_string());
    let _tok = h.subscribe_for_reply();
    // Second ask on the same instance: same root, and the full question
    // goes out as a threaded reply, not a new top-level message.
    match h.thread_plan("second question") {
        ThreadPlan::Existing(root) => assert_eq!(root, "1700000000.000100"),
        _ => panic!("second ask must reuse the thread root"),
    }
    let q2: String = "y".repeat(150);
    assert_eq!(h.reply_message(&q2), format!("<@U1> {}", q2));
}

#[test]
fn reply_arriving_after_subscription_is_delivered() {
    let mut h = human(None);
    assert!(matches!(h.thread_plan("q"), ThreadPlan::Create { .. }));
    h.thread_created("111.22".to_string());
    let tok = h.subscribe_for_reply();
    let d = h.on_inbound(&reply_event("C1", "U1", "111.22", "the answer"));
    assert!(d.delivered);
    assert_eq!(d.ack, Some("env-1".to_string()));
    assert_eq!(h.take_reply(&tok), Some("the answer".to_string()));
}

#[test]
fn reply_arriving_before_subscription_is_missed() {
    let mut h = human(None);
    assert!(matches!(h.thread_plan("q"), ThreadPlan::Create { .. }));
    h.thread_created("111.22".to_string());
    // The reply lands before anyone subscribed: dropped by design.
    let d = h.on_inbound(&reply_event("C1", "U1", "111.22", "too early"));
    assert!(!d.delivered);
    let tok = h.subscribe_for_reply();
    assert_eq!(h.take_reply(&tok), None);
}

#[test]
fn mismatched_events_are_acknowledged_but_never_delivered() {
    let mut h = human(None);
    assert!(matches!(h.thread_plan("q"), ThreadPlan::Create { .. }));
    h.thread_created("111.22".to_string());
    let tok = h.subscribe_for_reply();
    // Right thread root, wrong author.
    let d = h.on_inbound(&reply_event("C1", "U9", "111.22", "not them"));
    assert!(!d.delivered);
    assert_eq!(d.ack, Some("env-1".to_string()));
    // Right thread root, wrong channel.
    let d = h.on_inbound(&reply_event("C9", "U1", "111.22", "wrong room"));
    assert!(!d.delivered);
    assert_eq!(d.ack, Some("env-1".to_string()));
    assert_eq!(h.take_reply(&tok), None);
}

#[test]
fn non_message_events_are_acknowledged_and_dropped() {
    let mut h = human(None);
    let e = InboundEvent {
        envelope_id: Some("hello-env".to_string()),
        is_message: false,
        channel: None,
        author: None,
        thread_root: None,
        text: None,
    };
    let d = h.on_inbound(&e);
    assert_eq!(d.ack, Some("hello-env".to_string()));
    assert!(!d.delivered);
}

#[test]
fn immediate_timeout_ask_returns_the_deferral_text() {
    // End to end with a timeout of zero minutes: create the thread,
    // subscribe, let the wait expire at once, and get the literal
    // autonomy-deferral string back as a successful result.
    let mut h = human(Some(0));
    assert!(matches!(h.connect_plan(), ConnectPlan::Start));
    h.connect_succeeded();
    match h.thread_plan("What is the deploy window?") {
        ThreadPlan::Create { channel, text } => {
            assert_eq!(channel, "C1");
            assert_eq!(text, "<@U1> What is the deploy window?");
        },
        _ => panic!("first ask must create the thread"),
    }
    h.thread_created("1.0".to_string());
    let _tok = h.subscribe_for_reply();
    assert_eq!(h.finish(SocketWaitOutcome::TimedOut), Ok(DEFERRAL.to_string()));
}

#[test]
fn closed_and_lagged_waits_are_fatal() {
    let h = human(Some(5));
    assert_eq!(h.finish(SocketWaitOutcome::Closed), Err(AskError::ChannelClosed));
    assert_eq!(h.finish(SocketWaitOutcome::Lagged), Err(AskError::LaggedDelivery));
}

#[test]
fn routed_reply_is_returned_verbatim() {
    let h = human(Some(5));
    let r = h.finish(SocketWaitOutcome::Reply("ship on friday".to_string()));
    assert_eq!(r, Ok("ship on friday".to_string()));
}
