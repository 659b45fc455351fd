use human_in_the_loop::router::{classify, InboundEvent, Registry, RouteConfig};

fn cfg() -> RouteConfig {
    RouteConfig { channel: "C1".to_string(), human: "U1".to_string() }
}

fn reply_event(channel: &str, author: &str, root: &str, text: &str) -> InboundEvent {
    InboundEvent {
        envelope_id: Some("env-1".to_string()),
        is_message: true,
        channel: Some(channel.to_string()),
        author: Some(author.to_string()),
        thread_root: Some(root.to_string()),
        text: Some(text.to_string()),
    }
}

#[test]
fn acknowledgment_is_unconditional() {
    // Even an event that is otherwise irrelevant must be acknowledged.
    let e = InboundEvent {
        envelope_id: Some("env-9".to_string()),
        is_message: false,
        channel: None,
        author: None,
        thread_root: None,
        text: None,
    };
    let c = classify(&e, &cfg());
    assert_eq!(c.ack, Some("env-9".to_string()));
    assert!(c.route.is_none());
}

#[test]
fn event_without_envelope_id_needs_no_ack() {
    let mut e = reply_event("C1", "U1", "111.22", "yes");
    e.envelope_id = None;
    let c = classify(&e, &cfg());
    assert!(c.ack.is_none());
    assert_eq!(c.route, Some(("111.22".to_string(), "yes".to_string())));
}

#[test]
fn matching_reply_routes_to_its_thread() {
    let c = classify(&reply_event("C1", "U1", "111.22", "use staging"), &cfg());
    assert_eq!(c.route, Some(("111.22".to_string(), "use staging".to_string())));
}

#[test]
fn wrong_channel_is_never_routed() {
    let c = classify(&reply_event("C2", "U1", "111.22", "yes"), &cfg());
    assert!(c.route.is_none());
}

#[test]
fn wrong_author_is_never_routed() {
    // The thread root matches a known conversation, but the author is not
    // the configured human: the event must be discarded.
    let c = classify(&reply_event("C1", "U2", "111.22", "yes"), &cfg());
    assert!(c.route.is_none());
}

#[test]
fn reply_without_thread_root_is_dropped() {
    let mut e = reply_event("C1", "U1", "111.22", "yes");
    e.thread_root = None;
    let c = classify(&e, &cfg());
    assert!(c.route.is_none());
}

#[test]
fn reply_after_subscribe_is_delivered() {
    let mut reg = Registry::new();
    let root = "111.22".to_string();
    let tok = reg.subscribe(&root);
    let delivered = reg.publish(&root, &"go ahead".to_string());
    assert!(delivered);
    assert_eq!(reg.take_next(&tok), Some("go ahead".to_string()));
    // The inbox is drained afterwards.
    assert_eq!(reg.take_next(&tok), None);
}

#[test]
fn reply_before_subscribe_is_missed() {
    let mut reg = Registry::new();
    let root = "111.22".to_string();
    // Nobody has subscribed: the reply is dropped by design.
    assert!(!reg.publish(&root, &"too early".to_string()));
    let tok = reg.subscribe(&root);
    assert_eq!(reg.take_next(&tok), None);
}

#[test]
fn reply_published_between_two_subscriptions_reaches_only_the_first() {
    let mut reg = Registry::new();
    let root = "42.1".to_string();
    let first = reg.subscribe(&root);
    assert!(reg.publish(&root, &"for the first".to_string()));
    let second = reg.subscribe(&root);
    assert_eq!(reg.take_next(&first), Some("for the first".to_string()));
    assert_eq!(reg.take_next(&second), None);
}

#[test]
fn every_current_subscriber_gets_the_reply() {
    let mut reg = Registry::new();
    let root = "7.7".to_string();
    let a = reg.subscribe(&root);
    let b = reg.subscribe(&root);
    assert!(reg.publish(&root, &"both".to_string()));
    assert_eq!(reg.take_next(&a), Some("both".to_string()));
    assert_eq!(reg.take_next(&b), Some("both".to_string()));
}

#[test]
fn threads_are_isolated_from_each_other() {
    let mut reg = Registry::new();
    let one = "1.1".to_string();
    let two = "2.2".to_string();
    let tok_one = reg.subscribe(&one);
    let tok_two = reg.subscribe(&two);
    assert!(reg.publish(&two, &"for two".to_string()));
    assert_eq!(reg.take_next(&tok_one), None);
    assert_eq!(reg.take_next(&tok_two), Some("for two".to_string()));
}

#[test]
fn replies_come_out_oldest_first() {
    let mut reg = Registry::new();
    let root = "9.9".to_string();
    let tok = reg.subscribe(&root);
    reg.publish(&root, &"first".to_string());
    reg.publish(&root, &"second".to_string());
    assert_eq!(reg.take_next(&tok), Some("first".to_string()));
    assert_eq!(reg.take_next(&tok), Some("second".to_string()));
    assert_eq!(reg.take_next(&tok), None);
}
