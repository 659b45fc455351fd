use vstd::prelude::*;
use crate::errors::AskError;
use crate::once::{CellPhase, OnceHandle};
use crate::policy::{resolve_gateway_wait, wait_policy, GatewayWaitOutcome, WaitPolicy};
use crate::policy::deferral_text;
use crate::text::{mention_message, mention_text, thread_title, title_text};

verus! {

/// The decision side of the gateway-connected backend.
///
/// The live connection delivers a ready signal, creates sub-conversations
/// under a parent channel, posts messages and waits for the next message
/// in a thread. This type decides what to do at each of those points; the
/// connection itself runs outside and reports back plain values.
pub struct GatewayHuman {
    user_id: String,
    channel_id: String,
    timeout_minutes: Option<u64>,
    conn_ready: bool,
    thread: OnceHandle,
}

/// What the caller must do next to get or create the conversation thread.
pub enum ThreadPlan {
    /// The thread exists; use this handle and post straight into it.
    Existing(String),
    /// This caller won the creation race: create a thread under this
    /// parent channel with this title, then report the outcome.
    Create { channel: String, title: String },
    /// Another caller's creation attempt is in flight: await its outcome,
    /// then plan again.
    InFlight,
}

impl GatewayHuman {
    /// The mention target for questions.
    pub closed spec fn spec_user(&self) -> Seq<char> {
        self.user_id@
    }

    /// The parent channel threads are created under.
    pub closed spec fn spec_channel(&self) -> Seq<char> {
        self.channel_id@
    }

    /// The configured timeout in minutes, if any.
    pub closed spec fn spec_timeout(&self) -> Option<u64> {
        self.timeout_minutes
    }

    /// Whether the connection has reported itself ready.
    pub closed spec fn spec_ready(&self) -> bool {
        self.conn_ready
    }

    /// The phase of the thread cell.
    pub closed spec fn spec_thread(&self) -> CellPhase {
        self.thread.phase()
    }

    /// The fixed configuration is never changed by any method.
    pub open spec fn same_config(&self, other: &GatewayHuman) -> bool {
        &&& self.spec_user() == other.spec_user()
        &&& self.spec_channel() == other.spec_channel()
        &&& self.spec_timeout() == other.spec_timeout()
    }

    /// A new instance for one conversation: connection not yet ready, no
    /// thread created.
    pub fn new(user_id: String, channel_id: String, timeout_minutes: Option<u64>) -> (h: GatewayHuman)
        ensures
            h.spec_user() == user_id@,
            h.spec_channel() == channel_id@,
            h.spec_timeout() == timeout_minutes,
            !h.spec_ready(),
            h.spec_thread() is Unset,
    {
        GatewayHuman {
            user_id,
            channel_id,
            timeout_minutes,
            conn_ready: false,
            thread: OnceHandle::new(),
        }
    }

    /// Records the connection's ready signal. Idempotent and
    /// one-directional: once ready, the instance stays ready.
    pub fn connection_ready(&mut self)
        ensures
            final(self).spec_ready(),
            final(self).same_config(old(self)),
            final(self).spec_thread() == old(self).spec_thread(),
    {
        self.conn_ready = true;
    }

    /// An `ask` may run only once the connection is ready; before that it
    /// fails fast rather than blocks, because without a live connection
    /// nothing can be sent or received.
    pub fn check_ready(&self) -> (r: Result<(), AskError>)
        ensures
            (r is Ok) == self.spec_ready(),
            !self.spec_ready() ==> r == Result::<(), AskError>::Err(AskError::ConnectionNotReady),
    {
        if self.conn_ready {
            Ok(())
        } else {
            Err(AskError::ConnectionNotReady)
        }
    }

    /// Gets or creates the conversation thread for a question.
    ///
    /// At most one creation runs: the first caller is told to create a
    /// thread titled with the first 100 characters of the question; a
    /// caller racing with it awaits the in-flight attempt; once a handle
    /// is recorded every caller reuses it, for the life of the instance.
    pub fn thread_plan(&mut self, question: &str) -> (p: ThreadPlan)
        ensures
            final(self).same_config(old(self)),
            final(self).spec_ready() == old(self).spec_ready(),
            match old(self).spec_thread() {
                CellPhase::Unset => (
                    p matches ThreadPlan::Create { channel, title }
                        && channel@ == old(self).spec_channel()
                        && title@ == title_text(question@)
                ) && final(self).spec_thread() is Creating,
                CellPhase::Creating => p is InFlight && final(self).spec_thread() is Creating,
                CellPhase::Ready(h) => (
                    p matches ThreadPlan::Existing(t) && t@ == h
                ) && final(self).spec_thread() == old(self).spec_thread(),
            },
    {
        let won = self.thread.begin_create();
        if won {
            ThreadPlan::Create {
                channel: self.channel_id.clone(),
                title: thread_title(question),
            }
        } else {
            match self.thread.get() {
                Some(h) => ThreadPlan::Existing(h.clone()),
                None => ThreadPlan::InFlight,
            }
        }
    }

    /// Records the handle of the thread this caller created.
    pub fn thread_created(&mut self, handle: String)
        requires
            old(self).spec_thread() is Creating,
        ensures
            final(self).same_config(old(self)),
            final(self).spec_ready() == old(self).spec_ready(),
            final(self).spec_thread() == CellPhase::Ready(handle@),
    {
        self.thread.complete_create(handle);
    }

    /// Records that the creation attempt failed. The cell returns to
    /// unset, so a later `ask` may retry rather than inherit a transient
    /// failure for the life of the instance.
    pub fn thread_failed(&mut self)
        requires
            old(self).spec_thread() is Creating,
        ensures
            final(self).same_config(old(self)),
            final(self).spec_ready() == old(self).spec_ready(),
            final(self).spec_thread() is Unset,
    {
        self.thread.abandon_create();
    }

    /// The message posted into the thread: an explicit mention of the
    /// human, then the full, untruncated question.
    pub fn question_message(&self, question: &str) -> (m: String)
        ensures
            m@ == mention_text(self.spec_user(), question@),
    {
        mention_message(self.user_id.as_str(), question)
    }

    /// The wait policy this instance asks under.
    pub fn policy(&self) -> (p: WaitPolicy)
        ensures
            match self.spec_timeout() {
                Some(m) => p == (WaitPolicy::Bounded { minutes: m }),
                None => p == WaitPolicy::Forever,
            },
    {
        wait_policy(self.timeout_minutes)
    }

    /// Turns the outcome of the wait into the result of `ask`: the literal
    /// reply text; the deferral message when a configured timeout expired;
    /// an error when no timeout was configured and the wait ended empty.
    pub fn finish(&self, outcome: GatewayWaitOutcome) -> (r: Result<String, AskError>)
        ensures
            (outcome matches GatewayWaitOutcome::Reply(t) ==> (r matches Ok(a) && a == t)),
            outcome is NoReply && self.spec_timeout() is Some ==> (r matches Ok(a) && a@ == deferral_text()),
            outcome is NoReply && self.spec_timeout() is None ==> r == Result::<String, AskError>::Err(AskError::ReplyWaitFailed),
    {
        resolve_gateway_wait(outcome, self.timeout_minutes.is_some())
    }
}

} // verus!
