//! The shared pool initializer: a value constructed lazily, exactly once
//! per process, and shared by every caller. Callers that arrive while the
//! construction is in flight wait for it; callers after it observe the
//! cached result — a successful first construction's handle, or the first
//! failure, which is cached permanently for the process (no retry).
//!
//! A pool handle is modelled by an identifier; the application constructs
//! the real pool and owns the serialization of concurrent first callers,
//! driving this machine one operation at a time.

use vstd::prelude::*;

verus! {

/// Where the shared slot stands.
#[derive(Clone, Copy, Debug, PartialEq, Eq, Structural)]
pub enum InitState {
    /// No caller has arrived yet; nothing was constructed.
    Empty,
    /// The first caller is constructing the value.
    Initializing,
    /// Construction succeeded; every caller shares this handle.
    Ready(u64),
    /// Construction failed; the failure is cached for the process.
    Failed,
}

/// One operation on the shared slot: a caller arrives, or the constructing
/// caller reports its result.
#[derive(Clone, Copy, Debug, PartialEq, Eq, Structural)]
pub enum InitOp {
    /// A caller asks for the shared value.
    Arrive,
    /// The construction finished with this handle.
    FinishOk(u64),
    /// The construction failed.
    FinishErr,
}

/// What an arriving caller must do.
#[derive(Clone, Copy, Debug, PartialEq, Eq, Structural)]
pub enum ArriveOutcome {
    /// This caller is first: it must construct the value and report back.
    MustConstruct,
    /// Construction is in flight: wait for its result.
    Wait,
    /// The value is ready: use this shared handle.
    UseReady(u64),
    /// The first construction failed: report the cached failure.
    UseFailed,
}

/// The state after one operation. Only the very first arrival starts a
/// construction, and no operation ever empties the slot again.
pub open spec fn init_next(s: InitState, op: InitOp) -> InitState {
    match op {
        InitOp::Arrive => if s == InitState::Empty {
            InitState::Initializing
        } else {
            s
        },
        InitOp::FinishOk(p) => if s == InitState::Initializing {
            InitState::Ready(p)
        } else {
            s
        },
        InitOp::FinishErr => if s == InitState::Initializing {
            InitState::Failed
        } else {
            s
        },
    }
}

/// How many constructions one operation starts: one for an arrival at an
/// empty slot, none otherwise.
pub open spec fn constructions(s: InitState, op: InitOp) -> nat {
    if s == InitState::Empty && op == InitOp::Arrive {
        1
    } else {
        0
    }
}

/// The state after a whole sequence of operations.
pub open spec fn run_init(s: InitState, ops: Seq<InitOp>) -> InitState
    decreases ops.len(),
{
    if ops.len() == 0 {
        s
    } else {
        run_init(init_next(s, ops[0]), ops.drop_first())
    }
}

/// How many constructions a whole sequence of operations starts.
pub open spec fn total_constructions(s: InitState, ops: Seq<InitOp>) -> nat
    decreases ops.len(),
{
    if ops.len() == 0 {
        0
    } else {
        constructions(s, ops[0]) + total_constructions(init_next(s, ops[0]), ops.drop_first())
    }
}

/// Once the slot has left the empty state it never returns to it, and no
/// further operation starts a construction.
proof fn lemma_no_construction_after_start(s: InitState, ops: Seq<InitOp>)
    requires
        s != InitState::Empty,
    ensures
        total_constructions(s, ops) == 0,
        run_init(s, ops) != InitState::Empty,
    decreases ops.len(),
{
    if ops.len() > 0 {
        lemma_no_construction_after_start(init_next(s, ops[0]), ops.drop_first());
    }
}

/// However many callers arrive, and in whatever order their operations
/// interleave, at most one construction is ever started.
pub proof fn lemma_at_most_one_construction(ops: Seq<InitOp>)
    ensures
        total_constructions(InitState::Empty, ops) <= 1,
    decreases ops.len(),
{
    if ops.len() > 0 {
        let s2 = init_next(InitState::Empty, ops[0]);
        if s2 == InitState::Empty {
            lemma_at_most_one_construction(ops.drop_first());
        } else {
            lemma_no_construction_after_start(s2, ops.drop_first());
        }
    }
}

/// Once the slot is ready with a handle, every later operation leaves it
/// ready with the same handle and starts no construction: calling the
/// initializer again never creates a second pool, and every caller
/// receives the same handle.
pub proof fn lemma_ready_is_stable(p: u64, ops: Seq<InitOp>)
    ensures
        run_init(InitState::Ready(p), ops) == InitState::Ready(p),
        total_constructions(InitState::Ready(p), ops) == 0,
    decreases ops.len(),
{
    if ops.len() > 0 {
        lemma_ready_is_stable(p, ops.drop_first());
    }
}

/// Running a trace in two pieces reaches the same state as running it
/// whole.
proof fn lemma_run_init_append(s: InitState, a: Seq<InitOp>, b: Seq<InitOp>)
    ensures
        run_init(s, a + b) == run_init(run_init(s, a), b),
    decreases a.len(),
{
    if a.len() == 0 {
        assert(a + b =~= b);
    } else {
        assert((a + b).drop_first() =~= a.drop_first() + b);
        assert((a + b)[0] == a[0]);
        lemma_run_init_append(init_next(s, a[0]), a.drop_first(), b);
    }
}

/// Any two callers that observe a ready slot observe the same handle,
/// whenever each observed it along one trace of operations from the empty
/// slot: the one pool constructed is the one everybody shares.
pub proof fn lemma_all_callers_share_one_handle(
    ops: Seq<InitOp>,
    p: u64,
    q: u64,
    t1: int,
    t2: int,
)
    requires
        0 <= t1 <= t2 <= ops.len(),
        run_init(InitState::Empty, ops.take(t1)) == InitState::Ready(p),
        run_init(InitState::Empty, ops.take(t2)) == InitState::Ready(q),
    ensures
        p == q,
{
    assert(ops.take(t2) =~= ops.take(t1) + ops.subrange(t1, t2));
    lemma_run_init_append(InitState::Empty, ops.take(t1), ops.subrange(t1, t2));
    lemma_ready_is_stable(p, ops.subrange(t1, t2));
}

/// Once the first construction has failed, every later operation leaves
/// the cached failure in place and starts no construction: a failed first
/// attempt is permanent for the process.
pub proof fn lemma_failure_is_cached(ops: Seq<InitOp>)
    ensures
        run_init(InitState::Failed, ops) == InitState::Failed,
        total_constructions(InitState::Failed, ops) == 0,
    decreases ops.len(),
{
    if ops.len() > 0 {
        lemma_failure_is_cached(ops.drop_first());
    }
}

/// The shared slot a process holds its one pool handle in.
#[derive(Clone, Copy, Debug)]
pub struct SharedSlot {
    /// Where the slot stands.
    pub state: InitState,
}

impl SharedSlot {
    /// An empty slot: nothing constructed yet.
    pub fn new() -> (r: SharedSlot)
        ensures
            r.state == InitState::Empty,
    {
        SharedSlot { state: InitState::Empty }
    }

    /// A caller arrives: the first caller is told to construct, one during
    /// construction to wait, and later ones receive the cached result.
    pub fn arrive(&mut self) -> (r: ArriveOutcome)
        ensures
            final(self).state == init_next(old(self).state, InitOp::Arrive),
            old(self).state == InitState::Empty ==> r == ArriveOutcome::MustConstruct,
            old(self).state == InitState::Initializing ==> r == ArriveOutcome::Wait,
            old(self).state matches InitState::Ready(p) ==> r == ArriveOutcome::UseReady(p),
            old(self).state == InitState::Failed ==> r == ArriveOutcome::UseFailed,
    {
        match self.state {
            InitState::Empty => {
                self.state = InitState::Initializing;
                ArriveOutcome::MustConstruct
            },
            InitState::Initializing => ArriveOutcome::Wait,
            InitState::Ready(p) => ArriveOutcome::UseReady(p),
            InitState::Failed => ArriveOutcome::UseFailed,
        }
    }

    /// The constructing caller reports success with its handle.
    pub fn finish_ok(&mut self, pool: u64)
        requires
            old(self).state == InitState::Initializing,
        ensures
            final(self).state == init_next(old(self).state, InitOp::FinishOk(pool)),
            final(self).state == InitState::Ready(pool),
    {
        self.state = InitState::Ready(pool);
    }

    /// The constructing caller reports failure; it is cached permanently.
    pub fn finish_err(&mut self)
        requires
            old(self).state == InitState::Initializing,
        ensures
            final(self).state == init_next(old(self).state, InitOp::FinishErr),
            final(self).state == InitState::Failed,
    {
        self.state = InitState::Failed;
    }

    /// Where the slot stands, without changing it.
    pub fn snapshot(&self) -> (r: InitState)
        ensures
            r == self.state,
    {
        self.state
    }
}

} // verus!
