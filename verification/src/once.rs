use vstd::prelude::*;

verus! {

/// The phase of a lazily-created, created-at-most-once value, such as the
/// handle of the conversation thread a backend opens for its questions.
pub enum CellPhase {
    /// No creation attempt has started; a caller arriving now wins the
    /// race and issues the single underlying creation call.
    Unset,
    /// One creation attempt is in flight; callers arriving now await its
    /// outcome instead of starting another.
    Creating,
    /// An attempt succeeded; the handle is fixed for the life of the cell.
    Ready(Seq<char>),
}

/// A thread handle that is created at most once and immutable once set.
///
/// Concurrent first callers race: exactly one wins and performs the
/// creation, the others await the same outcome. A failed attempt leaves
/// the cell unset, so a later call may retry rather than inherit the
/// failure for the life of the instance.
pub struct OnceHandle {
    state: HandleSlot,
}

enum HandleSlot {
    Unset,
    Creating,
    Ready(String),
}

impl OnceHandle {
    /// The phase the cell is in, with the handle it holds when ready.
    pub closed spec fn phase(&self) -> CellPhase {
        match self.state {
            HandleSlot::Unset => CellPhase::Unset,
            HandleSlot::Creating => CellPhase::Creating,
            HandleSlot::Ready(h) => CellPhase::Ready(h@),
        }
    }

    /// A fresh, unset cell.
    pub fn new() -> (c: OnceHandle)
        ensures
            c.phase() is Unset,
    {
        OnceHandle { state: HandleSlot::Unset }
    }

    /// The handle, once an attempt has succeeded.
    pub fn get(&self) -> (r: Option<&String>)
        ensures
            match self.phase() {
                CellPhase::Ready(h) => (r matches Some(s) && s@ == h),
                _ => r is None,
            },
    {
        match &self.state {
            HandleSlot::Ready(h) => Some(h),
            _ => None,
        }
    }

    /// Claims the right to create the value. Returns true for exactly the
    /// caller that finds the cell unset: that caller must follow up with
    /// `complete_create` or `abandon_create`. Every other caller is told
    /// to await the in-flight attempt or read the finished handle.
    pub fn begin_create(&mut self) -> (won: bool)
        ensures
            won == (old(self).phase() is Unset),
            won ==> final(self).phase() is Creating,
            !won ==> final(self).phase() == old(self).phase(),
    {
        match &self.state {
            HandleSlot::Unset => {
                self.state = HandleSlot::Creating;
                true
            },
            _ => false,
        }
    }

    /// Records the handle the winning creation attempt produced.
    pub fn complete_create(&mut self, handle: String)
        requires
            old(self).phase() is Creating,
        ensures
            final(self).phase() == CellPhase::Ready(handle@),
    {
        self.state = HandleSlot::Ready(handle);
    }

    /// Gives the claim up after a failed attempt. The cell returns to
    /// unset so a later call may retry: a transient network failure does
    /// not poison the cell for the life of the instance.
    pub fn abandon_create(&mut self)
        requires
            old(self).phase() is Creating,
        ensures
            final(self).phase() is Unset,
    {
        self.state = HandleSlot::Unset;
    }
}

/// One caller's arrival at the cell, or the outcome of the single
/// in-flight creation attempt.
pub enum CellEvent {
    /// A caller asks for the value and starts a creation attempt if none
    /// has started.
    Request,
    /// The in-flight attempt succeeded with this handle.
    Created(Seq<char>),
    /// The in-flight attempt failed.
    Failed,
}

/// One step of the cell under an event. The second component says whether
/// this step issued an underlying creation call.
pub open spec fn cell_step(s: CellPhase, e: CellEvent) -> (CellPhase, bool) {
    match e {
        CellEvent::Request => match s {
            CellPhase::Unset => (CellPhase::Creating, true),
            _ => (s, false),
        },
        CellEvent::Created(h) => match s {
            CellPhase::Creating => (CellPhase::Ready(h), false),
            _ => (s, false),
        },
        CellEvent::Failed => match s {
            CellPhase::Creating => (CellPhase::Unset, false),
            _ => (s, false),
        },
    }
}

/// The phase after a sequence of interleaved caller and outcome events.
pub open spec fn cell_run(s: CellPhase, es: Seq<CellEvent>) -> CellPhase
    decreases es.len(),
{
    if es.len() == 0 {
        s
    } else {
        cell_run(cell_step(s, es[0]).0, es.drop_first())
    }
}

/// How many underlying creation calls a sequence of events issues.
pub open spec fn cell_creations(s: CellPhase, es: Seq<CellEvent>) -> nat
    decreases es.len(),
{
    if es.len() == 0 {
        0
    } else {
        (if cell_step(s, es[0]).1 {
            1nat
        } else {
            0nat
        }) + cell_creations(cell_step(s, es[0]).0, es.drop_first())
    }
}

/// However many callers race on the cell, as long as no attempt fails, at
/// most one underlying creation call is issued; from a cell that is
/// already creating or ready, none at all.
pub proof fn lemma_creations_bound(s: CellPhase, es: Seq<CellEvent>)
    requires
        forall|i: int| 0 <= i < es.len() ==> !((#[trigger] es[i]) is Failed),
    ensures
        cell_creations(s, es) <= if s is Unset {
            1nat
        } else {
            0nat
        },
    decreases es.len(),
{
    if es.len() > 0 {
        assert(!(es[0] is Failed));
        let s1 = cell_step(s, es[0]).0;
        assert(forall|i: int| 0 <= i < es.drop_first().len() ==> #[trigger] es.drop_first()[i] == es[i + 1]);
        lemma_creations_bound(s1, es.drop_first());
    }
}

/// A cell can only have become ready because some step issued a creation
/// call.
pub proof fn lemma_ready_needs_creation(s: CellPhase, es: Seq<CellEvent>)
    requires
        s is Unset,
        !(cell_run(s, es) is Unset),
    ensures
        cell_creations(s, es) >= 1,
    decreases es.len(),
{
    if es.len() > 0 {
        let (s1, started) = cell_step(s, es[0]);
        if !started {
            lemma_ready_needs_creation(s1, es.drop_first());
        }
    }
}

/// Racing callers collapse to one winner: from an unset cell, any
/// sequence of requests and outcomes without a failure that ends with the
/// cell ready has issued exactly one underlying creation call.
pub proof fn lemma_exactly_one_creation(es: Seq<CellEvent>)
    requires
        forall|i: int| 0 <= i < es.len() ==> !((#[trigger] es[i]) is Failed),
        cell_run(CellPhase::Unset, es) is Ready,
    ensures
        cell_creations(CellPhase::Unset, es) == 1,
{
    lemma_creations_bound(CellPhase::Unset, es);
    lemma_ready_needs_creation(CellPhase::Unset, es);
}

/// Once an attempt has succeeded the handle never changes: whatever
/// happens afterwards, the cell stays ready with the same handle and no
/// further creation call is issued, so every caller observes the handle
/// the winner produced.
pub proof fn lemma_ready_is_absorbing(h: Seq<char>, es: Seq<CellEvent>)
    ensures
        cell_run(CellPhase::Ready(h), es) == CellPhase::Ready(h),
        cell_creations(CellPhase::Ready(h), es) == 0,
    decreases es.len(),
{
    if es.len() > 0 {
        lemma_ready_is_absorbing(h, es.drop_first());
    }
}

} // verus!
