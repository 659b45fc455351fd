use vstd::prelude::*;
use crate::errors::AskError;
use crate::once::{CellPhase, OnceHandle};
use crate::policy::{resolve_socket_wait, wait_policy, SocketWaitOutcome, WaitPolicy};
use crate::policy::deferral_text;
use crate::router::{
    has_thread, inbox_at, model_publish, model_subscribe, place_valid, registry_distinct, route_of,
    InboundEvent, Registry, ReplyThreadModel, RouteConfig, SubToken,
};
use crate::text::{mention_message, mention_text, thread_title, title_text};

verus! {

/// The phase of the event-stream connection.
pub enum ConnPhase {
    /// No bootstrap has been attempted.
    NotStarted,
    /// One bootstrap attempt is in flight; callers await its outcome.
    Starting,
    /// The background reader is running for the life of the process.
    Started,
}

/// What the caller must do about the event-stream connection.
pub enum ConnectPlan {
    /// This caller won the race: perform the bootstrap call, start the
    /// reader, then report the outcome.
    Start,
    /// Another caller's bootstrap is in flight: await its outcome.
    Await,
    /// The reader is already running.
    Running,
}

/// What the caller must do next to get or create the conversation thread.
pub enum ThreadPlan {
    /// The thread root exists. The question is not the first one: the
    /// caller must subscribe to the root, then post the full question as
    /// a threaded reply, in that order.
    Existing(String),
    /// This caller won the creation race: post this text as a new
    /// top-level message in this channel and capture its timestamp as the
    /// thread root, then report the outcome.
    Create { channel: String, text: String },
    /// Another caller's creation attempt is in flight: await its outcome,
    /// then plan again.
    InFlight,
}

/// What the reader loop must do with one inbound event.
pub struct InboundOutcome {
    /// The envelope id to acknowledge, when the event carries one; never
    /// skipped, even for events that are otherwise irrelevant.
    pub ack: Option<String>,
    /// Whether the event's reply text was delivered to at least one
    /// waiting subscription.
    pub delivered: bool,
}

/// The decision side of the socket-subscribed backend.
///
/// The transport has no native way to wait for the next reply in a
/// thread, so this type keeps an explicit registry of pending replies: a
/// background reader acknowledges and classifies every inbound event and
/// publishes matching replies; each `ask` subscribes before it posts and
/// then waits on its own subscription.
pub struct SocketHuman {
    channel_id: String,
    user_id: String,
    timeout_minutes: Option<u64>,
    connection: ConnPhase,
    thread: OnceHandle,
    registry: Registry,
}

impl SocketHuman {
    /// The channel replies must come from.
    pub closed spec fn spec_channel(&self) -> Seq<char> {
        self.channel_id@
    }

    /// The human replies must be written by.
    pub closed spec fn spec_user(&self) -> Seq<char> {
        self.user_id@
    }

    /// The configured timeout in minutes, if any.
    pub closed spec fn spec_timeout(&self) -> Option<u64> {
        self.timeout_minutes
    }

    /// The phase of the event-stream connection.
    pub closed spec fn spec_conn(&self) -> ConnPhase {
        self.connection
    }

    /// The phase of the thread-root cell.
    pub closed spec fn spec_thread(&self) -> CellPhase {
        self.thread.phase()
    }

    /// The pending-reply registry's contents.
    pub closed spec fn spec_registry(&self) -> Seq<ReplyThreadModel> {
        self.registry.model()
    }

    /// The registry keeps one entry per thread root.
    pub open spec fn wf(&self) -> bool {
        registry_distinct(self.spec_registry())
    }

    /// The fixed configuration is never changed by any method.
    pub open spec fn same_config(&self, other: &SocketHuman) -> bool {
        &&& self.spec_channel() == other.spec_channel()
        &&& self.spec_user() == other.spec_user()
        &&& self.spec_timeout() == other.spec_timeout()
    }

    /// The routing configuration the reader classifies against.
    pub closed spec fn spec_route_config(&self) -> RouteConfig {
        RouteConfig { channel: self.channel_id, human: self.user_id }
    }

    /// A new instance for one conversation: connection not started, no
    /// thread root, nobody waiting.
    pub fn new(channel_id: String, user_id: String, timeout_minutes: Option<u64>) -> (h: SocketHuman)
        ensures
            h.wf(),
            h.spec_channel() == channel_id@,
            h.spec_user() == user_id@,
            h.spec_timeout() == timeout_minutes,
            h.spec_conn() is NotStarted,
            h.spec_thread() is Unset,
            h.spec_registry() == Seq::<ReplyThreadModel>::empty(),
    {
        SocketHuman {
            channel_id,
            user_id,
            timeout_minutes,
            connection: ConnPhase::NotStarted,
            thread: OnceHandle::new(),
            registry: Registry::new(),
        }
    }

    /// Starts the connection at most once: the first caller bootstraps,
    /// racing callers await the same attempt, later callers find the
    /// reader running.
    pub fn connect_plan(&mut self) -> (p: ConnectPlan)
        ensures
            final(self).same_config(old(self)),
            final(self).spec_thread() == old(self).spec_thread(),
            final(self).spec_registry() == old(self).spec_registry(),
            match old(self).spec_conn() {
                ConnPhase::NotStarted => p is Start && final(self).spec_conn() is Starting,
                ConnPhase::Starting => p is Await && final(self).spec_conn() is Starting,
                ConnPhase::Started => p is Running && final(self).spec_conn() is Started,
            },
    {
        match self.connection {
            ConnPhase::NotStarted => {
                self.connection = ConnPhase::Starting;
                ConnectPlan::Start
            },
            ConnPhase::Starting => ConnectPlan::Await,
            ConnPhase::Started => ConnectPlan::Running,
        }
    }

    /// Records that the bootstrap succeeded and the reader is running.
    pub fn connect_succeeded(&mut self)
        requires
            old(self).spec_conn() is Starting,
        ensures
            final(self).same_config(old(self)),
            final(self).spec_thread() == old(self).spec_thread(),
            final(self).spec_registry() == old(self).spec_registry(),
            final(self).spec_conn() is Started,
    {
        self.connection = ConnPhase::Started;
    }

    /// Records that the bootstrap failed. The connection returns to not
    /// started, so a later `ask` may retry rather than inherit a
    /// transient failure for the life of the instance; the failing call
    /// itself reports `ConnectionBootstrapFailed`.
    pub fn connect_failed(&mut self)
        requires
            old(self).spec_conn() is Starting,
        ensures
            final(self).same_config(old(self)),
            final(self).spec_thread() == old(self).spec_thread(),
            final(self).spec_registry() == old(self).spec_registry(),
            final(self).spec_conn() is NotStarted,
    {
        self.connection = ConnPhase::NotStarted;
    }

    /// Handles one inbound event from the reader loop.
    ///
    /// The returned envelope id, when present, must be acknowledged
    /// whatever else the event was. A message event is kept only when its
    /// channel and author match the configuration; a kept event that
    /// carries a thread root and a text is published to that thread's
    /// subscribers, and dropped without error when nobody waits on it.
    pub fn on_inbound(&mut self, e: &InboundEvent) -> (d: InboundOutcome)
        requires
            old(self).wf(),
        ensures
            final(self).wf(),
            final(self).same_config(old(self)),
            final(self).spec_conn() == old(self).spec_conn(),
            final(self).spec_thread() == old(self).spec_thread(),
            (d.ack is Some) == (e.envelope_id is Some),
            (d.ack matches Some(a) ==> (e.envelope_id matches Some(b) && a@ == b@)),
            match route_of(*e, old(self).spec_route_config()) {
                Some(p) => final(self).spec_registry() == model_publish(old(self).spec_registry(), p.0, p.1)
                    && d.delivered == has_thread(old(self).spec_registry(), p.0),
                None => final(self).spec_registry() == old(self).spec_registry() && !d.delivered,
            },
    {
        let cfg = RouteConfig { channel: self.channel_id.clone(), human: self.user_id.clone() };
        let c = crate::router::classify(e, &cfg);
        let delivered = match &c.route {
            Some(r) => self.registry.publish(&r.0, &r.1),
            None => false,
        };
        InboundOutcome { ack: c.ack, delivered }
    }

    /// Gets or creates the thread root for a question.
    ///
    /// The first caller posts the truncated question as a new top-level
    /// message, prefixed with a mention of the human; its timestamp
    /// becomes the thread root. Racing callers await that attempt. Later
    /// callers reuse the root: their questions are threaded replies.
    pub fn thread_plan(&mut self, question: &str) -> (p: ThreadPlan)
        ensures
            final(self).wf() == old(self).wf(),
            final(self).same_config(old(self)),
            final(self).spec_conn() == old(self).spec_conn(),
            final(self).spec_registry() == old(self).spec_registry(),
            match old(self).spec_thread() {
                CellPhase::Unset => (
                    p matches ThreadPlan::Create { channel, text }
                        && channel@ == old(self).spec_channel()
                        && text@ == mention_text(old(self).spec_user(), title_text(question@))
                ) && final(self).spec_thread() is Creating,
                CellPhase::Creating => p is InFlight && final(self).spec_thread() is Creating,
                CellPhase::Ready(h) => (
                    p matches ThreadPlan::Existing(t) && t@ == h
                ) && final(self).spec_thread() == old(self).spec_thread(),
            },
    {
        let won = self.thread.begin_create();
        if won {
            let title = thread_title(question);
            ThreadPlan::Create {
                channel: self.channel_id.clone(),
                text: mention_message(self.user_id.as_str(), title.as_str()),
            }
        } else {
            match self.thread.get() {
                Some(h) => ThreadPlan::Existing(h.clone()),
                None => ThreadPlan::InFlight,
            }
        }
    }

    /// Records the thread root the winning creation attempt captured.
    pub fn thread_created(&mut self, root: String)
        requires
            old(self).spec_thread() is Creating,
        ensures
            final(self).wf() == old(self).wf(),
            final(self).same_config(old(self)),
            final(self).spec_conn() == old(self).spec_conn(),
            final(self).spec_registry() == old(self).spec_registry(),
            final(self).spec_thread() == CellPhase::Ready(root@),
    {
        self.thread.complete_create(root);
    }

    /// Records that the creation attempt failed; the cell returns to
    /// unset so a later call may retry. The failing call itself reports
    /// `ThreadCreationFailed`.
    pub fn thread_failed(&mut self)
        requires
            old(self).spec_thread() is Creating,
        ensures
            final(self).wf() == old(self).wf(),
            final(self).same_config(old(self)),
            final(self).spec_conn() == old(self).spec_conn(),
            final(self).spec_registry() == old(self).spec_registry(),
            final(self).spec_thread() is Unset,
    {
        self.thread.abandon_create();
    }

    /// Subscribes this `ask` call to the thread root's replies.
    ///
    /// This must happen before a non-initial question is posted:
    /// subscribing after posting risks losing a reply that arrives in the
    /// gap. The fresh subscription starts empty, so replies routed before
    /// it existed are not seen — by design.
    pub fn subscribe_for_reply(&mut self) -> (tok: SubToken)
        requires
            old(self).wf(),
            old(self).spec_thread() is Ready,
        ensures
            final(self).wf(),
            final(self).same_config(old(self)),
            final(self).spec_conn() == old(self).spec_conn(),
            final(self).spec_thread() == old(self).spec_thread(),
            ({
                let root = old(self).spec_thread()->Ready_0;
                let sub = model_subscribe(old(self).spec_registry(), root);
                final(self).spec_registry() == sub.0
                    && tok.entry == sub.1.entry
                    && tok.slot == sub.1.slot
            }),
    {
        let root = match self.thread.get() {
            Some(h) => h.clone(),
            None => {
                proof {
                    assert(false);
                }
                String::new()
            },
        };
        self.registry.subscribe(&root)
    }

    /// The text of a non-initial question: a mention of the human, then
    /// the full, untruncated question, posted as a reply under the
    /// existing thread root.
    pub fn reply_message(&self, question: &str) -> (m: String)
        ensures
            m@ == mention_text(self.spec_user(), question@),
    {
        mention_message(self.user_id.as_str(), question)
    }

    /// Takes the oldest reply out of this call's subscription, if any.
    pub fn take_reply(&mut self, tok: &SubToken) -> (r: Option<String>)
        requires
            old(self).wf(),
        ensures
            final(self).wf(),
            final(self).same_config(old(self)),
            final(self).spec_conn() == old(self).spec_conn(),
            final(self).spec_thread() == old(self).spec_thread(),
            place_valid(old(self).spec_registry(), tok.entry as int, tok.slot as int)
                && inbox_at(old(self).spec_registry(), tok.entry as int, tok.slot as int).len() > 0 ==> (
                r matches Some(x) && x@ == inbox_at(old(self).spec_registry(), tok.entry as int, tok.slot as int)[0]
            ),
            !(place_valid(old(self).spec_registry(), tok.entry as int, tok.slot as int)
                && inbox_at(old(self).spec_registry(), tok.entry as int, tok.slot as int).len() > 0) ==> (
                r is None && final(self).spec_registry() == old(self).spec_registry()
            ),
    {
        self.registry.take_next(tok)
    }

    /// The wait policy this instance asks under.
    pub fn policy(&self) -> (p: WaitPolicy)
        ensures
            match self.spec_timeout() {
                Some(m) => p == (WaitPolicy::Bounded { minutes: m }),
                None => p == WaitPolicy::Forever,
            },
    {
        wait_policy(self.timeout_minutes)
    }

    /// Turns the outcome of the wait into the result of `ask`: the
    /// literal reply text; the deferral message when the timeout expired;
    /// a fatal error for a closed channel or a lagged subscription.
    pub fn finish(&self, outcome: SocketWaitOutcome) -> (r: Result<String, AskError>)
        ensures
            (outcome matches SocketWaitOutcome::Reply(t) ==> (r matches Ok(a) && a == t)),
            outcome is TimedOut ==> (r matches Ok(a) && a@ == deferral_text()),
            outcome is Closed ==> r == Result::<String, AskError>::Err(AskError::ChannelClosed),
            outcome is Lagged ==> r == Result::<String, AskError>::Err(AskError::LaggedDelivery),
    {
        resolve_socket_wait(outcome)
    }
}

} // verus!
