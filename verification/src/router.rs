use vstd::prelude::*;

verus! {

/// Which channel and which human make up the one conversation this
/// instance serves.
pub struct RouteConfig {
    /// The channel replies must come from.
    pub channel: String,
    /// The human replies must be written by.
    pub human: String,
}

/// An inbound transport event, reduced to the fields routing reads.
pub struct InboundEvent {
    /// Correlation id that must be acknowledged whenever present, even
    /// for events that are otherwise irrelevant.
    pub envelope_id: Option<String>,
    /// Whether the event is a message event at all.
    pub is_message: bool,
    /// The channel the message was posted in.
    pub channel: Option<String>,
    /// The author of the message.
    pub author: Option<String>,
    /// The thread root the message replies to, when it is a threaded
    /// reply.
    pub thread_root: Option<String>,
    /// The message text.
    pub text: Option<String>,
}

/// Whether the event is a message in the configured channel written by
/// the configured human.
pub open spec fn event_matches(e: InboundEvent, cfg: RouteConfig) -> bool {
    &&& e.is_message
    &&& (e.channel matches Some(c) && c@ == cfg.channel@)
    &&& (e.author matches Some(a) && a@ == cfg.human@)
}

/// The reply the event routes, if any: a matching message that carries a
/// thread root and a text routes that text to that thread's subscribers;
/// every other event is dropped.
pub open spec fn route_of(e: InboundEvent, cfg: RouteConfig) -> Option<(Seq<char>, Seq<char>)> {
    match (e.thread_root, e.text) {
        (Some(t), Some(x)) => if event_matches(e, cfg) {
            Some((t@, x@))
        } else {
            None
        },
        _ => None,
    }
}

/// An event is only ever routed when its channel and author match the
/// configuration, whatever thread root it names.
pub proof fn lemma_route_requires_match(e: InboundEvent, cfg: RouteConfig)
    ensures
        !event_matches(e, cfg) ==> route_of(e, cfg) is None,
{
}

/// What the reader loop must do with an inbound event: acknowledge it if
/// it carries an envelope id, and deliver it if it routes a reply.
pub struct Classified {
    /// The envelope id to acknowledge, when the event carries one.
    pub ack: Option<String>,
    /// The thread root and reply text to deliver, when the event routes.
    pub route: Option<(String, String)>,
}

/// Classifies an inbound event against the configuration.
///
/// Acknowledgment is unconditional: an event with an envelope id is
/// acknowledged whether or not anything else about it is relevant.
pub fn classify(e: &InboundEvent, cfg: &RouteConfig) -> (c: Classified)
    ensures
        (c.ack matches Some(a) ==> (e.envelope_id matches Some(b) && a@ == b@)),
        (c.ack is Some) == (e.envelope_id is Some),
        match route_of(*e, *cfg) {
            Some(p) => (c.route matches Some(q) && q.0@ == p.0 && q.1@ == p.1),
            None => c.route is None,
        },
{
    let ack = match &e.envelope_id {
        Some(id) => Some(id.clone()),
        None => None,
    };
    let matches_conversation = e.is_message && (match (&e.channel, &e.author) {
        (Some(c), Some(a)) => *c == cfg.channel && *a == cfg.human,
        _ => false,
    });
    let route = if matches_conversation {
        match (&e.thread_root, &e.text) {
            (Some(t), Some(x)) => Some((t.clone(), x.clone())),
            _ => None,
        }
    } else {
        None
    };
    Classified { ack, route }
}

/// One conversation thread's pending-reply channel: the thread root it is
/// keyed by, and one inbox per subscriber, oldest reply first.
#[verifier::ext_equal]
pub ghost struct ReplyThreadModel {
    /// The thread root the subscriptions wait on.
    pub thread: Seq<char>,
    /// One inbox per subscriber, in order of subscription.
    pub inboxes: Seq<Seq<Seq<char>>>,
}

/// No two registry entries share a thread root.
pub open spec fn registry_distinct(m: Seq<ReplyThreadModel>) -> bool {
    forall|i: int, j: int| #![trigger m[i].thread, m[j].thread] 0 <= i < j < m.len() ==> m[i].thread != m[j].thread
}

/// Whether the registry has an entry for the thread.
pub open spec fn has_thread(m: Seq<ReplyThreadModel>, t: Seq<char>) -> bool {
    exists|i: int| 0 <= i < m.len() && (#[trigger] m[i]).thread == t
}

/// The index of the thread's entry, when one exists.
pub open spec fn thread_index(m: Seq<ReplyThreadModel>, t: Seq<char>) -> int {
    choose|i: int| 0 <= i < m.len() && (#[trigger] m[i]).thread == t
}

/// Where a subscription lives: which entry, and which inbox of it.
pub ghost struct SubPlace {
    /// Index of the thread's entry.
    pub entry: int,
    /// Index of the subscriber's inbox within the entry.
    pub slot: int,
}

/// Whether a place points at an inbox of the registry.
pub open spec fn place_valid(m: Seq<ReplyThreadModel>, entry: int, slot: int) -> bool {
    0 <= entry < m.len() && 0 <= slot < m[entry].inboxes.len()
}

/// The inbox a place points at.
pub open spec fn inbox_at(m: Seq<ReplyThreadModel>, entry: int, slot: int) -> Seq<Seq<char>> {
    m[entry].inboxes[slot]
}

/// Subscribing to a thread adds a fresh, empty inbox under that thread's
/// entry, creating the entry on the first subscription for the thread.
/// Returns the new registry and the place of the new inbox.
pub open spec fn model_subscribe(m: Seq<ReplyThreadModel>, t: Seq<char>) -> (Seq<ReplyThreadModel>, SubPlace) {
    if has_thread(m, t) {
        let i = thread_index(m, t);
        let e = m[i];
        (
            m.update(i, ReplyThreadModel { thread: e.thread, inboxes: e.inboxes.push(Seq::empty()) }),
            SubPlace { entry: i, slot: e.inboxes.len() as int },
        )
    } else {
        (
            m.push(ReplyThreadModel { thread: t, inboxes: seq![Seq::empty()] }),
            SubPlace { entry: m.len() as int, slot: 0 },
        )
    }
}

/// Publishing a reply appends it to every inbox currently subscribed to
/// the thread and touches nothing else; with no entry for the thread it
/// changes nothing.
pub open spec fn model_publish(m: Seq<ReplyThreadModel>, t: Seq<char>, x: Seq<char>) -> Seq<ReplyThreadModel> {
    m.map(|i: int, e: ReplyThreadModel| if e.thread == t {
        ReplyThreadModel { thread: e.thread, inboxes: e.inboxes.map(|j: int, ib: Seq<Seq<char>>| ib.push(x)) }
    } else {
        e
    })
}

/// The pending-reply registry: for each conversation thread, the inboxes
/// of the `ask` calls waiting on it. Entries live for the life of the
/// instance once created.
pub struct Registry {
    entries: Vec<ReplyThread>,
}

struct ReplyThread {
    thread: String,
    inboxes: Vec<Vec<String>>,
}

/// An `ask` call's handle on its subscription.
#[derive(Clone, Copy, Debug, PartialEq, Eq, Structural)]
pub struct SubToken {
    /// Index of the thread's entry.
    pub entry: usize,
    /// Index of this subscriber's inbox within the entry.
    pub slot: usize,
}

impl Registry {
    /// The registry's contents: each entry's thread root and inboxes.
    pub closed spec fn model(&self) -> Seq<ReplyThreadModel> {
        Seq::new(
            self.entries@.len(),
            |i: int| ReplyThreadModel {
                thread: self.entries@[i].thread@,
                inboxes: Seq::new(
                    self.entries@[i].inboxes@.len(),
                    |j: int| Seq::new(
                        self.entries@[i].inboxes@[j]@.len(),
                        |k: int| self.entries@[i].inboxes@[j]@[k]@,
                    ),
                ),
            },
        )
    }

    /// Entries are keyed by thread root, one entry per thread.
    pub open spec fn wf(&self) -> bool {
        registry_distinct(self.model())
    }

    /// An empty registry.
    pub fn new() -> (r: Registry)
        ensures
            r.wf(),
            r.model() == Seq::<ReplyThreadModel>::empty(),
    {
        let r = Registry { entries: Vec::new() };
        proof {
            assert(r.model() =~= Seq::<ReplyThreadModel>::empty());
        }
        r
    }

    /// Adds a subscription for the thread, creating the entry on first
    /// use, and returns where the fresh inbox lives.
    pub fn subscribe(&mut self, thread: &String) -> (tok: SubToken)
        requires
            old(self).wf(),
        ensures
            final(self).wf(),
            final(self).model() == model_subscribe(old(self).model(), thread@).0,
            ({
                let p = model_subscribe(old(self).model(), thread@).1;
                tok.entry == p.entry && tok.slot == p.slot
            }),
    {
        let ghost m0 = self.model();
        let n = self.entries.len();
        let mut i: usize = 0;
        while i < n
            invariant
                registry_distinct(m0),
                m0 == old(self).model(),
                m0 == self.model(),
                n == self.entries@.len(),
                i <= n,
                forall|k: int| 0 <= k < i ==> (#[trigger] m0[k]).thread != thread@,
            decreases n - i,
        {
            if self.entries[i].thread == *thread {
                proof {
                    assert(m0[i as int].thread == thread@);
                    assert(has_thread(m0, thread@));
                    let ci = thread_index(m0, thread@);
                    assert(0 <= ci < m0.len() && m0[ci].thread == thread@);
                    assert(ci == i as int);
                }
                let slot = self.entries[i].inboxes.len();
                let fresh: Vec<String> = Vec::new();
                self.entries[i].inboxes.push(fresh);
                proof {
                    let m2 = model_subscribe(m0, thread@).0;
                    assert(self.model() =~~= m2);
                    assert(forall|a: int, b: int| #![trigger m2[a].thread, m2[b].thread] 0 <= a < b < m2.len()
                        ==> m2[a].thread != m2[b].thread);
                }
                return SubToken { entry: i, slot };
            }
            i += 1;
        }
        proof {
            assert(!has_thread(m0, thread@)) by {
                if has_thread(m0, thread@) {
                    let ci = thread_index(m0, thread@);
                    assert(0 <= ci < m0.len() && m0[ci].thread == thread@);
                }
            }
        }
        let mut inboxes: Vec<Vec<String>> = Vec::new();
        let fresh: Vec<String> = Vec::new();
        inboxes.push(fresh);
        self.entries.push(ReplyThread { thread: thread.clone(), inboxes });
        proof {
            let m2 = model_subscribe(m0, thread@).0;
            assert(self.model() =~~= m2);
            assert(forall|a: int, b: int| #![trigger m2[a].thread, m2[b].thread] 0 <= a < b < m2.len()
                ==> m2[a].thread != m2[b].thread);
        }
        SubToken { entry: n, slot: 0 }
    }

    /// Delivers a reply for the thread to every current subscriber.
    /// Returns whether an entry existed; a reply for a thread nobody has
    /// subscribed to is dropped by design, not an error.
    pub fn publish(&mut self, thread: &String, text: &String) -> (delivered: bool)
        requires
            old(self).wf(),
        ensures
            final(self).wf(),
            final(self).model() == model_publish(old(self).model(), thread@, text@),
            delivered == has_thread(old(self).model(), thread@),
    {
        let ghost m0 = self.model();
        let ghost m2 = model_publish(m0, thread@, text@);
        let n = self.entries.len();
        let mut delivered = false;
        let mut i: usize = 0;
        while i < n
            invariant
                registry_distinct(m0),
                m2 == model_publish(m0, thread@, text@),
                n == self.entries@.len(),
                i <= n,
                self.model().len() == m0.len() && m0.len() == n,
                forall|k: int| 0 <= k < i ==> #[trigger] self.model()[k] == m2[k],
                forall|k: int| i <= k < n ==> #[trigger] self.model()[k] == m0[k],
                delivered == exists|k: int| 0 <= k < i && (#[trigger] m0[k]).thread == thread@,
            decreases n - i,
        {
            if self.entries[i].thread == *thread {
                proof {
                    assert(self.model()[i as int] == m0[i as int]);
                    assert(m0[i as int].thread == thread@);
                }
                let count = self.entries[i].inboxes.len();
                let mut j: usize = 0;
                proof {
                    assert(forall|l: int| 0 <= l < count
                        ==> #[trigger] self.model()[i as int].inboxes[l] == m0[i as int].inboxes[l]);
                }
                while j < count
                    invariant
                        m2 == model_publish(m0, thread@, text@),
                        m0[i as int].thread == thread@,
                        i < n,
                        n == self.entries@.len(),
                        self.model().len() == m0.len() && m0.len() == n,
                        count == self.entries@[i as int].inboxes@.len(),
                        count == m0[i as int].inboxes.len(),
                        j <= count,
                        forall|k: int| 0 <= k < i ==> #[trigger] self.model()[k] == m2[k],
                        forall|k: int| i < k < n ==> #[trigger] self.model()[k] == m0[k],
                        self.model()[i as int].thread == thread@,
                        self.model()[i as int].inboxes.len() == count,
                        forall|l: int| 0 <= l < j
                            ==> #[trigger] self.model()[i as int].inboxes[l] == m0[i as int].inboxes[l].push(text@),
                        forall|l: int| j <= l < count
                            ==> #[trigger] self.model()[i as int].inboxes[l] == m0[i as int].inboxes[l],
                    decreases count - j,
                {
                    let ghost mprev = self.model();
                    self.entries[i].inboxes[j].push(text.clone());
                    proof {
                        assert(forall|k: int| 0 <= k < n && k != i
                            ==> #[trigger] self.model()[k] =~~= mprev[k]);
                        assert(self.model()[i as int].thread == mprev[i as int].thread);
                        assert(self.model()[i as int].inboxes.len() == count);
                        assert(forall|l: int| 0 <= l < count && l != j
                            ==> #[trigger] self.model()[i as int].inboxes[l] =~~= mprev[i as int].inboxes[l]);
                        assert(self.model()[i as int].inboxes[j as int] =~~= mprev[i as int].inboxes[j as int].push(text@));
                    }
                    j += 1;
                }
                delivered = true;
                proof {
                    assert(self.model()[i as int] =~~= m2[i as int]);
                }
            } else {
                proof {
                    assert(self.model()[i as int] == m0[i as int]);
                    assert(m0[i as int].thread != thread@);
                    assert(self.model()[i as int] =~~= m2[i as int]);
                }
            }
            i += 1;
        }
        proof {
            assert(self.model() =~~= m2);
            assert(delivered == has_thread(m0, thread@));
            assert(forall|a: int, b: int| #![trigger m2[a].thread, m2[b].thread] 0 <= a < b < m2.len()
                ==> m2[a].thread != m2[b].thread);
        }
        delivered
    }

    /// Takes the oldest reply out of a subscription's inbox, if any.
    /// A token that does not point at an inbox yields nothing.
    pub fn take_next(&mut self, tok: &SubToken) -> (r: Option<String>)
        requires
            old(self).wf(),
        ensures
            final(self).wf(),
            !place_valid(old(self).model(), tok.entry as int, tok.slot as int) ==> (
                r is None && final(self).model() == old(self).model()
            ),
            place_valid(old(self).model(), tok.entry as int, tok.slot as int)
                && inbox_at(old(self).model(), tok.entry as int, tok.slot as int).len() == 0 ==> (
                r is None && final(self).model() == old(self).model()
            ),
            place_valid(old(self).model(), tok.entry as int, tok.slot as int)
                && inbox_at(old(self).model(), tok.entry as int, tok.slot as int).len() > 0 ==> ({
                let m0 = old(self).model();
                let e = tok.entry as int;
                let s = tok.slot as int;
                &&& (r matches Some(x) && x@ == inbox_at(m0, e, s)[0])
                &&& final(self).model() == m0.update(
                    e,
                    (ReplyThreadModel {
                        thread: m0[e].thread,
                        inboxes: m0[e].inboxes.update(s, inbox_at(m0, e, s).drop_first()),
                    }),
                )
            }),
    {
        let ghost m0 = self.model();
        if tok.entry < self.entries.len() && tok.slot < self.entries[tok.entry].inboxes.len() {
            if self.entries[tok.entry].inboxes[tok.slot].len() > 0 {
                let x = self.entries[tok.entry].inboxes[tok.slot].remove(0);
                proof {
                    let e = tok.entry as int;
                    let s = tok.slot as int;
                    let m2 = m0.update(
                        e,
                        (ReplyThreadModel {
                            thread: m0[e].thread,
                            inboxes: m0[e].inboxes.update(s, inbox_at(m0, e, s).drop_first()),
                        }),
                    );
                    assert(self.model() =~~= m2);
                    assert(forall|a: int, b: int| #![trigger m2[a].thread, m2[b].thread] 0 <= a < b < m2.len()
                        ==> m2[a].thread != m2[b].thread);
                }
                Some(x)
            } else {
                proof {
                    assert(self.model() =~~= m0);
                }
                None
            }
        } else {
            proof {
                assert(self.model() =~~= m0);
            }
            None
        }
    }
}

/// A reply published after a subscription was registered is delivered to
/// that subscriber: its fresh inbox holds exactly that reply.
pub proof fn lemma_reply_after_subscribe_delivered(m: Seq<ReplyThreadModel>, t: Seq<char>, x: Seq<char>)
    requires
        registry_distinct(m),
    ensures
        ({
            let (m1, p) = model_subscribe(m, t);
            let m2 = model_publish(m1, t, x);
            place_valid(m2, p.entry, p.slot) && inbox_at(m2, p.entry, p.slot) == seq![x]
        }),
{
    let (m1, p) = model_subscribe(m, t);
    let m2 = model_publish(m1, t, x);
    if has_thread(m, t) {
        let i = thread_index(m, t);
        assert(0 <= i < m.len() && m[i].thread == t);
        assert(inbox_at(m1, p.entry, p.slot) =~= Seq::<Seq<char>>::empty());
        assert(inbox_at(m2, p.entry, p.slot) =~= seq![x]);
    } else {
        assert(inbox_at(m1, p.entry, p.slot) =~= Seq::<Seq<char>>::empty());
        assert(inbox_at(m2, p.entry, p.slot) =~= seq![x]);
    }
}

/// A reply published before the subscription existed is not seen by it:
/// the inbox created afterwards starts empty.
pub proof fn lemma_reply_before_subscribe_missed(m: Seq<ReplyThreadModel>, t: Seq<char>, x: Seq<char>)
    requires
        registry_distinct(m),
    ensures
        ({
            let m1 = model_publish(m, t, x);
            let (m2, p) = model_subscribe(m1, t);
            place_valid(m2, p.entry, p.slot) && inbox_at(m2, p.entry, p.slot) == Seq::<Seq<char>>::empty()
        }),
{
    let m1 = model_publish(m, t, x);
    let (m2, p) = model_subscribe(m1, t);
    if has_thread(m1, t) {
        let i = thread_index(m1, t);
        assert(0 <= i < m1.len() && m1[i].thread == t);
        assert(inbox_at(m2, p.entry, p.slot) =~= Seq::<Seq<char>>::empty());
    } else {
        assert(inbox_at(m2, p.entry, p.slot) =~= Seq::<Seq<char>>::empty());
    }
}

/// Publishing to one thread leaves every other thread's inboxes alone.
pub proof fn lemma_publish_only_matching_thread(
    m: Seq<ReplyThreadModel>,
    t: Seq<char>,
    x: Seq<char>,
    entry: int,
    slot: int,
)
    requires
        place_valid(m, entry, slot),
        m[entry].thread != t,
    ensures
        place_valid(model_publish(m, t, x), entry, slot),
        inbox_at(model_publish(m, t, x), entry, slot) == inbox_at(m, entry, slot),
{
}

} // verus!
