use vstd::prelude::*;

use crate::error::{NativeCall, PlatformError, VoiceLibError};

verus! {

/// A live claim on the media subsystem: while one exists, the subsystem is
/// started. Only [`Initialization::acquire`] hands one out, and
/// [`Initialization::release`] takes it back. A claim that is dropped
/// without being given back stays counted as live.
#[derive(Debug)]
pub struct Context {
    _initialization: (),
}

/// Tracks the subsystem's initialization: how many claims on it are live.
/// A process keeps one of these, behind whatever guards its shared state.
///
/// For contracts the record also remembers its history, step by step.
pub struct Initialization {
    claims: usize,
    history: Ghost<Seq<ClaimOp>>,
}

/// Whether a claim taken at `claims` live claims has to start the subsystem.
pub open spec fn starts_subsystem(claims: int) -> bool {
    claims == 0
}

/// Whether a claim given up at `claims` live claims has to stop the subsystem.
pub open spec fn stops_subsystem(claims: int) -> bool {
    claims == 1
}

/// One step in the history of a record: a claim granted, or one given up.
pub enum ClaimOp {
    Acquire,
    Release,
}

/// The live claims after `ops`, starting from none.
pub open spec fn held(ops: Seq<ClaimOp>) -> int
    decreases ops.len(),
{
    if ops.len() == 0 {
        0
    } else {
        match ops.last() {
            ClaimOp::Acquire => held(ops.drop_last()) + 1,
            ClaimOp::Release => held(ops.drop_last()) - 1,
        }
    }
}

/// No step of `ops` gives up a claim that is not held.
pub open spec fn admissible(ops: Seq<ClaimOp>) -> bool {
    forall|k: int| 0 <= k <= ops.len() ==> held(#[trigger] ops.take(k)) >= 0
}

/// From its first step to its last, `ops` always leaves a claim live: only
/// the last step may give up the last claim.
pub open spec fn never_idle(ops: Seq<ClaimOp>) -> bool {
    forall|k: int| 0 < k < ops.len() ==> held(#[trigger] ops.take(k)) > 0
}

/// How often the subsystem is started in the course of `ops`.
pub open spec fn startups(ops: Seq<ClaimOp>) -> nat
    decreases ops.len(),
{
    if ops.len() == 0 {
        0
    } else if ops.last() is Acquire && starts_subsystem(held(ops.drop_last())) {
        startups(ops.drop_last()) + 1
    } else {
        startups(ops.drop_last())
    }
}

/// How often the subsystem is stopped in the course of `ops`.
pub open spec fn shutdowns(ops: Seq<ClaimOp>) -> nat
    decreases ops.len(),
{
    if ops.len() == 0 {
        0
    } else if ops.last() is Release && stops_subsystem(held(ops.drop_last())) {
        shutdowns(ops.drop_last()) + 1
    } else {
        shutdowns(ops.drop_last())
    }
}

/// Why a claim is refused at `claims` live claims, given how the native
/// start-up went (`None`: it was not attempted, `Err`: it failed with that
/// result code); `None` where the claim is granted.
pub open spec fn acquire_failure(
    claims: nat,
    startup: Option<Result<(), i32>>,
) -> Option<VoiceLibError> {
    if !starts_subsystem(claims as int) {
        None
    } else {
        match startup {
            Some(Ok(())) => None,
            Some(Err(code)) => Some(
                VoiceLibError::PlatformSpecific(PlatformError { call: NativeCall::Startup, code }),
            ),
            None => Some(VoiceLibError::Unknown),
        }
    }
}

/// The live claims after an attempt to take one.
pub open spec fn claims_after_acquire(
    claims: nat,
    startup: Option<Result<(), i32>>,
) -> nat {
    if acquire_failure(claims, startup) is None {
        claims + 1
    } else {
        claims
    }
}

/// The history after an attempt to take a claim: a granted claim is one
/// more step, a refused one leaves no trace.
pub open spec fn history_after_acquire(
    history: Seq<ClaimOp>,
    startup: Option<Result<(), i32>>,
) -> Seq<ClaimOp> {
    if acquire_failure(held(history) as nat, startup) is None {
        history.push(ClaimOp::Acquire)
    } else {
        history
    }
}

impl Initialization {
    /// The number of live claims.
    pub closed spec fn claims(&self) -> nat {
        self.claims as nat
    }

    /// The claims granted and given up so far, in their order.
    pub closed spec fn history(&self) -> Seq<ClaimOp> {
        self.history@
    }

    /// What holds of every record: its history never gives up a claim that
    /// is not held, and the claims it leaves live are the ones counted.
    pub open spec fn well_formed(&self) -> bool {
        admissible(self.history()) && held(self.history()) == self.claims()
    }

    #[verifier::type_invariant]
    spec fn consistent(&self) -> bool {
        self.well_formed()
    }

    /// A record with no claim and no history: the subsystem is stopped.
    pub fn new() -> (initialization: Self)
        ensures
            initialization.well_formed(),
            initialization.claims() == 0,
            initialization.history() == Seq::<ClaimOp>::empty(),
    {
        Initialization { claims: 0, history: Ghost(Seq::empty()) }
    }

    /// The number of live claims. The contract adds what holds of every
    /// record, for callers that reason about its history.
    pub fn live_claims(&self) -> (claims: usize)
        ensures
            self.well_formed(),
            claims == self.claims(),
    {
        proof {
            use_type_invariant(self);
        }
        self.claims
    }

    /// Whether the native start-up call has to be made before the next claim
    /// is taken: it has, exactly when no claim is live.
    pub fn needs_startup(&self) -> (needed: bool)
        ensures
            needed == starts_subsystem(self.claims() as int),
    {
        self.claims == 0
    }

    /// Takes a claim. `startup` is the outcome of the native start-up call,
    /// which the caller makes beforehand exactly when [`Self::needs_startup`]
    /// says so, and `None` otherwise.
    ///
    /// While a claim is live the new one shares the running subsystem and
    /// `startup` is not looked at. With none live, the claim is granted only
    /// on a successful start-up: a failed one is handed back with its code
    /// as it came, a missing one is `Unknown`, and either way no claim is
    /// registered.
    pub fn acquire(
        &mut self,
        startup: Option<Result<(), i32>>,
    ) -> (claim: Result<Context, VoiceLibError>)
        requires
            old(self).claims() < usize::MAX,
        ensures
            final(self).well_formed(),
            final(self).claims() == claims_after_acquire(old(self).claims(), startup),
            final(self).history() == history_after_acquire(old(self).history(), startup),
            match acquire_failure(old(self).claims(), startup) {
                None => claim is Ok,
                Some(error) => claim == Err::<Context, VoiceLibError>(error),
            },
    {
        proof {
            use_type_invariant(&*self);
        }
        if self.claims == 0 {
            match startup {
                Some(Ok(())) => {},
                Some(Err(code)) => {
                    return Err(
                        VoiceLibError::PlatformSpecific(
                            PlatformError { call: NativeCall::Startup, code },
                        ),
                    );
                },
                None => {
                    return Err(VoiceLibError::Unknown);
                },
            }
        }
        proof {
            lemma_admissible_push(self.history@, ClaimOp::Acquire);
        }
        *self = Initialization {
            claims: self.claims + 1,
            history: Ghost(self.history@.push(ClaimOp::Acquire)),
        };
        Ok(Context { _initialization: () })
    }

    /// Gives a claim up. Returns whether the native shutdown call is due:
    /// it is, exactly when this was the last live claim.
    #[must_use]
    pub fn release(&mut self, context: Context) -> (shutdown: bool)
        requires
            old(self).claims() > 0,
        ensures
            final(self).well_formed(),
            final(self).claims() == old(self).claims() - 1,
            final(self).history() == old(self).history().push(ClaimOp::Release),
            shutdown == stops_subsystem(old(self).claims() as int),
    {
        let _ = context;
        proof {
            use_type_invariant(&*self);
            lemma_admissible_push(self.history@, ClaimOp::Release);
        }
        *self = Initialization {
            claims: self.claims - 1,
            history: Ghost(self.history@.push(ClaimOp::Release)),
        };
        self.claims == 0
    }
}

impl Context {
    /// Takes a claim on the subsystem that `initialization` tracks; see
    /// [`Initialization::acquire`].
    pub fn new(
        initialization: &mut Initialization,
        startup: Option<Result<(), i32>>,
    ) -> (claim: Result<Self, VoiceLibError>)
        requires
            old(initialization).claims() < usize::MAX,
        ensures
            final(initialization).well_formed(),
            final(initialization).claims() == claims_after_acquire(
                old(initialization).claims(),
                startup,
            ),
            final(initialization).history() == history_after_acquire(
                old(initialization).history(),
                startup,
            ),
            match acquire_failure(old(initialization).claims(), startup) {
                None => claim is Ok,
                Some(error) => claim == Err::<Context, VoiceLibError>(error),
            },
    {
        initialization.acquire(startup)
    }
}

proof fn lemma_prefix_of_prefix(ops: Seq<ClaimOp>, k: int)
    requires
        0 <= k < ops.len(),
    ensures
        ops.drop_last().take(k) == ops.take(k),
        ops.take(ops.len() as int) == ops,
        ops.take(ops.len() - 1) == ops.drop_last(),
{
}

proof fn lemma_admissible_prefix(ops: Seq<ClaimOp>)
    requires
        admissible(ops),
        ops.len() > 0,
    ensures
        admissible(ops.drop_last()),
        held(ops) >= 0,
        held(ops.drop_last()) >= 0,
{
    let shorter = ops.drop_last();
    assert forall|k: int| 0 <= k <= shorter.len() implies held(#[trigger] shorter.take(k))
        >= 0 by {
        lemma_prefix_of_prefix(ops, k);
    }
    lemma_prefix_of_prefix(ops, 0);
}

proof fn lemma_admissible_push(ops: Seq<ClaimOp>, op: ClaimOp)
    requires
        admissible(ops),
        op is Release ==> held(ops) > 0,
    ensures
        admissible(ops.push(op)),
        held(ops.push(op)) == held(ops) + if op is Acquire {
            1int
        } else {
            -1int
        },
{
    let longer = ops.push(op);
    assert(longer.drop_last() =~= ops);
    assert(ops.take(ops.len() as int) =~= ops);
    assert forall|k: int| 0 <= k <= longer.len() implies held(#[trigger] longer.take(k))
        >= 0 by {
        if k == longer.len() {
            assert(longer.take(k) =~= longer);
        } else {
            assert(longer.take(k) =~= ops.take(k));
        }
    }
}

proof fn lemma_admissible_take(ops: Seq<ClaimOp>, k: int)
    requires
        admissible(ops),
        0 <= k <= ops.len(),
    ensures
        admissible(ops.take(k)),
{
    let prefix = ops.take(k);
    assert forall|j: int| 0 <= j <= prefix.len() implies held(#[trigger] prefix.take(j)) >= 0 by {
        assert(prefix.take(j) =~= ops.take(j));
    }
}

proof fn lemma_startups_grow(ops: Seq<ClaimOp>, k: int)
    requires
        0 <= k <= ops.len(),
    ensures
        startups(ops.take(k)) <= startups(ops),
    decreases ops.len(),
{
    if k == ops.len() {
        assert(ops.take(k) =~= ops);
    } else {
        lemma_prefix_of_prefix(ops, k);
        lemma_startups_grow(ops.drop_last(), k);
    }
}

proof fn lemma_first_step_starts(ops: Seq<ClaimOp>)
    requires
        admissible(ops),
        ops.len() > 0,
    ensures
        startups(ops) >= 1,
    decreases ops.len(),
{
    lemma_admissible_prefix(ops);
    if ops.len() > 1 {
        lemma_first_step_starts(ops.drop_last());
    }
}

/// Started while claimed. After any history that never gives up a claim it
/// does not hold, the subsystem has been started once more than it has been
/// stopped if a claim is live, and exactly as often if none is: every
/// start-up but the current one has met its shutdown.
pub proof fn lemma_started_while_claimed(ops: Seq<ClaimOp>)
    requires
        admissible(ops),
    ensures
        held(ops) >= 0,
        startups(ops) == shutdowns(ops) + if held(ops) > 0 {
            1nat
        } else {
            0nat
        },
    decreases ops.len(),
{
    if ops.len() > 0 {
        lemma_admissible_prefix(ops);
        lemma_started_while_claimed(ops.drop_last());
    }
}

/// One session. In a history that never gives up a claim it does not hold
/// and that leaves a claim live from its first step up to its last, the
/// subsystem is started exactly once, by the first step, and is stopped
/// exactly once if the history ends with no claim live, and not at all
/// otherwise.
pub proof fn lemma_one_session(ops: Seq<ClaimOp>)
    requires
        admissible(ops),
        never_idle(ops),
    ensures
        startups(ops) == if ops.len() > 0 {
            1nat
        } else {
            0nat
        },
        shutdowns(ops) == if ops.len() > 0 && held(ops) == 0 {
            1nat
        } else {
            0nat
        },
    decreases ops.len(),
{
    if ops.len() > 0 {
        let shorter = ops.drop_last();
        lemma_admissible_prefix(ops);
        assert forall|k: int| 0 < k < shorter.len() implies held(#[trigger] shorter.take(k))
            > 0 by {
            lemma_prefix_of_prefix(ops, k);
        }
        lemma_one_session(shorter);
        if ops.len() > 1 {
            lemma_prefix_of_prefix(ops, 0);
        }
    }
}

/// The gap that restarts. In a history that never gives up a claim it does
/// not hold, a moment with no claim live that is followed by a further step
/// costs a second start-up: leaving a claim live throughout is not only
/// enough for a single start-up, it is needed.
pub proof fn lemma_idle_gap_restarts(ops: Seq<ClaimOp>)
    requires
        admissible(ops),
        !never_idle(ops),
    ensures
        startups(ops) >= 2,
{
    let k = choose|k: int| 0 < k < ops.len() && !(held(#[trigger] ops.take(k)) > 0);
    let idle = ops.take(k);
    let resumed = ops.take(k + 1);
    lemma_admissible_take(ops, k);
    lemma_admissible_take(ops, k + 1);
    lemma_first_step_starts(idle);
    lemma_admissible_prefix(idle);
    lemma_admissible_prefix(resumed);
    assert(resumed.drop_last() =~= idle);
    lemma_startups_grow(ops, k + 1);
}

/// Start-ups and shutdowns pair up. At every moment of a history that never
/// gives up a claim it does not hold, the subsystem has been started as
/// often as it has been stopped, or once more: it is never started twice
/// with no shutdown between, however the steps of different callers
/// interleave. Once no claim is live, every start-up has met its shutdown.
pub proof fn lemma_startups_paired(ops: Seq<ClaimOp>, k: int)
    requires
        admissible(ops),
        0 <= k <= ops.len(),
    ensures
        shutdowns(ops.take(k)) <= startups(ops.take(k)) <= shutdowns(ops.take(k)) + 1,
        held(ops) == 0 ==> startups(ops) == shutdowns(ops),
        ops.len() > 0 ==> startups(ops) >= 1,
{
    lemma_admissible_take(ops, k);
    lemma_started_while_claimed(ops.take(k));
    lemma_started_while_claimed(ops);
    if ops.len() > 0 {
        lemma_first_step_starts(ops);
    }
}

} // verus!
