//! One recipient's transfer, as a machine that says what to do next.
//!
//! The caller performs the action that the machine asks for and reports
//! whether it succeeded; the machine answers with the next action. Proofs are
//! staged in three context records before the transfer and every record that
//! was created is closed again, whether the transfer went through or not.

use vstd::prelude::*;
use crate::context::{ContextKind, CONTEXT_RECORDS};
use crate::error::{ErrorKind, StealthLaunchError};

verus! {

/// Where a transfer stands.
#[derive(Clone, Copy, Debug, PartialEq, Eq, Structural)]
pub enum Phase {
    /// The amount is covered by the source balance; nothing was sent yet.
    BalanceVerified,
    /// The proof bundle exists; context records are being created.
    ProofsGenerated,
    /// All three context records exist.
    ContextsCreated,
    /// The transfer is final; context records are being closed.
    TransferExecuted,
    /// The transfer is final and a close was attempted on every record.
    ContextsClosed,
    /// The transfer did not happen and a close was attempted on every record.
    Aborted,
}

/// What the caller has to do next.
#[derive(Clone, Copy, Debug, PartialEq, Eq, Structural)]
pub enum Action {
    /// Produce the proof bundle from the freshly fetched source state.
    GenerateProofs,
    /// Create the context record of this kind and write its proof.
    CreateContext(ContextKind),
    /// Submit the transfer that refers to the three records.
    ExecuteTransfer,
    /// Close the context record of this kind and reclaim its deposit.
    CloseContext(ContextKind),
    /// Nothing: the machine has reached a final phase.
    Finished,
}

/// The machine as a mathematical value.
pub struct SequencerModel {
    pub phase: Phase,
    /// Amount to move.
    pub amount: u64,
    /// Plaintext of the source's available balance when the transfer began.
    pub available: u64,
    /// Context records created so far.
    pub created: nat,
    /// Records whose close succeeded.
    pub closed: nat,
    /// Records whose close was attempted and failed.
    pub close_failed: nat,
    /// The failure that stopped the transfer, if one did.
    pub failure: Option<ErrorKind>,
}

impl Phase {
    /// Position of the phase in the order of the protocol.
    pub open spec fn rank(self) -> nat {
        match self {
            Phase::BalanceVerified => 0,
            Phase::ProofsGenerated => 1,
            Phase::ContextsCreated => 2,
            Phase::TransferExecuted => 3,
            Phase::ContextsClosed => 4,
            Phase::Aborted => 4,
        }
    }
}

impl SequencerModel {
    /// The machine for a transfer of `amount` out of a balance of `available`.
    pub open spec fn begin(amount: u64, available: u64) -> SequencerModel {
        SequencerModel {
            phase: if amount <= available { Phase::BalanceVerified } else { Phase::Aborted },
            amount,
            available,
            created: 0,
            closed: 0,
            close_failed: 0,
            failure: if amount <= available { None } else { Some(ErrorKind::InsufficientBalance) },
        }
    }

    /// Records on which a close was attempted.
    pub open spec fn close_attempts(self) -> nat {
        self.closed + self.close_failed
    }

    /// Whether the machine is in a final phase.
    pub open spec fn is_terminal(self) -> bool {
        self.phase == Phase::ContextsClosed || self.phase == Phase::Aborted
    }

    /// Whether the transfer itself went through.
    pub open spec fn transferred(self) -> bool {
        self.phase == Phase::TransferExecuted || self.phase == Phase::ContextsClosed
    }

    /// The states that a machine can be in.
    pub open spec fn wf(self) -> bool {
        &&& self.created <= CONTEXT_RECORDS
        &&& self.close_attempts() <= self.created
        &&& self.phase != Phase::Aborted ==> self.amount <= self.available
        &&& match self.phase {
            Phase::BalanceVerified => self.created == 0 && self.failure is None,
            Phase::ProofsGenerated => {
                &&& self.created < CONTEXT_RECORDS
                &&& self.failure is None ==> self.close_attempts() == 0
                &&& self.failure is Some ==> {
                    &&& self.close_attempts() < self.created
                    &&& self.failure == Some(ErrorKind::ContextAccountCreationFailed)
                }
            },
            Phase::ContextsCreated => {
                &&& self.created == CONTEXT_RECORDS
                &&& self.failure is None ==> self.close_attempts() == 0
                &&& self.failure is Some ==> {
                    &&& self.close_attempts() < self.created
                    &&& self.failure == Some(ErrorKind::TransferExecutionFailed)
                }
            },
            Phase::TransferExecuted => {
                &&& self.created == CONTEXT_RECORDS
                &&& self.close_attempts() < self.created
                &&& self.failure is None
            },
            Phase::ContextsClosed => {
                &&& self.created == CONTEXT_RECORDS
                &&& self.close_attempts() == self.created
                &&& self.failure is None
            },
            Phase::Aborted => {
                &&& self.failure is Some
                &&& self.close_attempts() == self.created
            },
        }
    }

    /// Whether the machine is closing records rather than moving forward.
    pub open spec fn closing(self) -> bool {
        match self.phase {
            Phase::ProofsGenerated | Phase::ContextsCreated => self.failure is Some,
            Phase::TransferExecuted => true,
            _ => false,
        }
    }

    /// The action that the machine waits for.
    pub open spec fn pending(self) -> Action {
        if self.closing() {
            Action::CloseContext(ContextKind::at(self.close_attempts()))
        } else {
            match self.phase {
                Phase::BalanceVerified => Action::GenerateProofs,
                Phase::ProofsGenerated => Action::CreateContext(ContextKind::at(self.created)),
                Phase::ContextsCreated => Action::ExecuteTransfer,
                _ => Action::Finished,
            }
        }
    }

    /// The machine after a close that succeeded (`ok`) or failed.
    pub open spec fn after_close(self, ok: bool) -> SequencerModel {
        let counted = if ok {
            SequencerModel { closed: self.closed + 1, ..self }
        } else {
            SequencerModel { close_failed: self.close_failed + 1, ..self }
        };
        if counted.close_attempts() >= counted.created {
            SequencerModel {
                phase: if self.failure is None { Phase::ContextsClosed } else { Phase::Aborted },
                ..counted
            }
        } else {
            counted
        }
    }

    /// The machine after a failure of the pending forward action.
    pub open spec fn after_failure(self, kind: ErrorKind) -> SequencerModel {
        if self.created == 0 {
            SequencerModel { phase: Phase::Aborted, failure: Some(kind), ..self }
        } else {
            SequencerModel { failure: Some(kind), ..self }
        }
    }

    /// The machine after the pending action succeeded (`ok`) or failed.
    pub open spec fn step(self, ok: bool) -> SequencerModel {
        if self.closing() {
            self.after_close(ok)
        } else {
            match self.phase {
                Phase::BalanceVerified => if ok {
                    SequencerModel { phase: Phase::ProofsGenerated, ..self }
                } else {
                    self.after_failure(ErrorKind::ProofGenerationFailed)
                },
                Phase::ProofsGenerated => if ok {
                    SequencerModel {
                        phase: if self.created + 1 >= CONTEXT_RECORDS {
                            Phase::ContextsCreated
                        } else {
                            Phase::ProofsGenerated
                        },
                        created: self.created + 1,
                        ..self
                    }
                } else {
                    self.after_failure(ErrorKind::ContextAccountCreationFailed)
                },
                Phase::ContextsCreated => if ok {
                    SequencerModel { phase: Phase::TransferExecuted, ..self }
                } else {
                    self.after_failure(ErrorKind::TransferExecutionFailed)
                },
                _ => self,
            }
        }
    }

    /// The machine after the preparation of the proofs failed with `kind`:
    /// before the proofs exist the transfer is given up with that failure;
    /// later a failure is that of the pending action.
    pub open spec fn abort(self, kind: ErrorKind) -> SequencerModel {
        if self.phase == Phase::BalanceVerified {
            self.after_failure(kind)
        } else {
            self.step(false)
        }
    }

    /// The machine after a run of reported outcomes, oldest first.
    pub open spec fn run(self, outcomes: Seq<bool>) -> SequencerModel
        decreases outcomes.len(),
    {
        if outcomes.len() == 0 {
            self
        } else {
            self.step(outcomes[0]).run(outcomes.drop_first())
        }
    }

    /// Balance that the source holds once the machine is final.
    pub open spec fn remaining(self) -> int {
        if self.transferred() {
            self.available - self.amount
        } else {
            self.available as int
        }
    }
}

impl SequencerModel {
    /// Upper bound on the number of outcomes that the machine still waits for.
    pub open spec fn steps_left(self) -> nat {
        if self.closing() {
            (self.created - self.close_attempts()) as nat
        } else {
            match self.phase {
                Phase::BalanceVerified => 8,
                Phase::ProofsGenerated => (7 - self.created) as nat,
                Phase::ContextsCreated => 4,
                _ => 0,
            }
        }
    }

    /// Whether every close that the run asks for is reported as a success.
    pub open spec fn closes_succeed(self, outcomes: Seq<bool>) -> bool
        decreases outcomes.len(),
    {
        outcomes.len() == 0 || {
            &&& self.closing() ==> outcomes[0]
            &&& self.step(outcomes[0]).closes_succeed(outcomes.drop_first())
        }
    }
}

/// A new machine is a valid one. It waits for the proof bundle when the
/// balance covers the amount; otherwise it is final at once, with
/// `InsufficientBalance`, and nothing was created.
pub proof fn lemma_begin(amount: u64, available: u64)
    ensures
        SequencerModel::begin(amount, available).wf(),
        amount <= available ==> SequencerModel::begin(amount, available).pending()
            == Action::GenerateProofs,
        amount > available ==> {
            &&& SequencerModel::begin(amount, available).phase == Phase::Aborted
            &&& SequencerModel::begin(amount, available).failure == Some(
                ErrorKind::InsufficientBalance,
            )
            &&& SequencerModel::begin(amount, available).pending() == Action::Finished
            &&& SequencerModel::begin(amount, available).created == 0
        },
{
}

/// Every step leads from a valid machine to a valid machine.
pub proof fn lemma_step_preserves_wf(m: SequencerModel, ok: bool)
    requires
        m.wf(),
    ensures
        m.step(ok).wf(),
{
}

/// Giving a transfer up before its proofs exist creates nothing and ends it
/// with the failure that was named.
pub proof fn lemma_abort(m: SequencerModel, kind: ErrorKind)
    requires
        m.wf(),
    ensures
        m.abort(kind).wf(),
        m.phase == Phase::BalanceVerified ==> {
            &&& m.abort(kind).phase == Phase::Aborted
            &&& m.abort(kind).failure == Some(kind)
            &&& m.abort(kind).created == 0
            &&& m.abort(kind).pending() == Action::Finished
        },
        m.phase != Phase::BalanceVerified ==> m.abort(kind) == m.step(false),
{
}

/// Phases are passed in order and never again: a step keeps the phase or moves
/// to a later one, and a final machine does not change.
pub proof fn lemma_phase_never_goes_back(m: SequencerModel, ok: bool)
    requires
        m.wf(),
    ensures
        m.step(ok).phase.rank() >= m.phase.rank(),
        m.is_terminal() ==> m.step(ok) == m,
{
}

/// The transfer is asked for only when all three records exist, and a record
/// is closed only if it was created.
pub proof fn lemma_pending_is_possible(m: SequencerModel)
    requires
        m.wf(),
    ensures
        m.pending() == Action::ExecuteTransfer ==> m.created == CONTEXT_RECORDS
            && m.close_attempts() == 0,
        m.pending() matches Action::CloseContext(k) ==> k.ordinal() < m.created
            && k.ordinal() == m.close_attempts(),
        m.pending() matches Action::CreateContext(k) ==> k.ordinal() == m.created
            && m.close_attempts() == 0,
        m.pending() == Action::Finished <==> m.is_terminal(),
{
}

/// What a step counts: a success of `CreateContext` is one record more, an
/// answer to `CloseContext` is one close attempt more, and nothing else
/// touches the counters.
pub proof fn lemma_step_counts(m: SequencerModel, ok: bool)
    requires
        m.wf(),
    ensures
        m.step(ok).created == m.created + if m.pending() is CreateContext && ok {
            1nat
        } else {
            0nat
        },
        m.step(ok).closed == m.closed + if m.pending() is CloseContext && ok {
            1nat
        } else {
            0nat
        },
        m.step(ok).close_failed == m.close_failed + if m.pending() is CloseContext && !ok {
            1nat
        } else {
            0nat
        },
        m.step(ok).amount == m.amount,
        m.step(ok).available == m.available,
{
}

/// A final machine has attempted to close every record that it created, on
/// the path of success and on every path of failure.
pub proof fn lemma_final_machine_leaves_no_record(m: SequencerModel)
    requires
        m.wf(),
        m.is_terminal(),
    ensures
        m.closed + m.close_failed == m.created,
        m.phase == Phase::ContextsClosed <==> m.failure is None,
        m.phase == Phase::ContextsClosed ==> m.created == CONTEXT_RECORDS,
{
}

/// Each step of a machine that is not final brings it nearer to a final phase.
pub proof fn lemma_step_makes_progress(m: SequencerModel, ok: bool)
    requires
        m.wf(),
        !m.is_terminal(),
    ensures
        m.step(ok).steps_left() < m.steps_left(),
        m.steps_left() <= 8,
{
}

/// A run keeps the machine valid, and a run of at least `steps_left`
/// outcomes ends in a final phase.
pub proof fn lemma_run(m: SequencerModel, outcomes: Seq<bool>)
    requires
        m.wf(),
    ensures
        m.run(outcomes).wf(),
        outcomes.len() >= m.steps_left() ==> m.run(outcomes).is_terminal(),
        m.run(outcomes).amount == m.amount,
        m.run(outcomes).available == m.available,
    decreases outcomes.len(),
{
    if outcomes.len() > 0 {
        lemma_step_preserves_wf(m, outcomes[0]);
        lemma_step_counts(m, outcomes[0]);
        if !m.is_terminal() {
            lemma_step_makes_progress(m, outcomes[0]);
        }
        lemma_run(m.step(outcomes[0]), outcomes.drop_first());
    }
}

/// For every transfer attempt and whatever fails in it, eight outcomes bring
/// the machine to a final phase in which a close was attempted on exactly the
/// records that were created.
pub proof fn lemma_every_attempt_closes_its_records(
    amount: u64,
    available: u64,
    outcomes: Seq<bool>,
)
    requires
        outcomes.len() >= 8,
    ensures
        SequencerModel::begin(amount, available).run(outcomes).is_terminal(),
        SequencerModel::begin(amount, available).run(outcomes).closed + SequencerModel::begin(
            amount,
            available,
        ).run(outcomes).close_failed == SequencerModel::begin(amount, available).run(
            outcomes,
        ).created,
{
    let m = SequencerModel::begin(amount, available);
    lemma_begin(amount, available);
    lemma_run(m, outcomes);
    lemma_final_machine_leaves_no_record(m.run(outcomes));
}

/// A run in which no close fails records no failed close.
pub proof fn lemma_no_failed_close(m: SequencerModel, outcomes: Seq<bool>)
    requires
        m.wf(),
        m.closes_succeed(outcomes),
    ensures
        m.run(outcomes).close_failed == m.close_failed,
    decreases outcomes.len(),
{
    if outcomes.len() > 0 {
        lemma_step_preserves_wf(m, outcomes[0]);
        lemma_step_counts(m, outcomes[0]);
        lemma_no_failed_close(m.step(outcomes[0]), outcomes.drop_first());
    }
}

/// No record leaks: when every close that is asked for succeeds, the number
/// of records closed equals the number created, wherever the attempt failed.
pub proof fn lemma_no_leaked_record(amount: u64, available: u64, outcomes: Seq<bool>)
    requires
        outcomes.len() >= 8,
        SequencerModel::begin(amount, available).closes_succeed(outcomes),
    ensures
        SequencerModel::begin(amount, available).run(outcomes).closed == SequencerModel::begin(
            amount,
            available,
        ).run(outcomes).created,
{
    let m = SequencerModel::begin(amount, available);
    lemma_begin(amount, available);
    lemma_every_attempt_closes_its_records(amount, available, outcomes);
    lemma_no_failed_close(m, outcomes);
}

/// The balance goes down by the amount exactly when the transfer went
/// through, and a failed close does not undo a transfer.
pub proof fn lemma_remaining(m: SequencerModel)
    requires
        m.wf(),
        m.is_terminal(),
    ensures
        m.failure is None ==> m.remaining() == m.available - m.amount,
        m.failure is Some ==> m.remaining() == m.available,
        0 <= m.remaining() <= m.available,
{
}

/// The machine that drives one recipient's transfer.
#[derive(Debug)]
pub struct TransferSequencer {
    phase: Phase,
    amount: u64,
    available: u64,
    created: u8,
    closed: u8,
    close_failed: u8,
    failure: Option<ErrorKind>,
}

impl View for TransferSequencer {
    type V = SequencerModel;

    closed spec fn view(&self) -> SequencerModel {
        SequencerModel {
            phase: self.phase,
            amount: self.amount,
            available: self.available,
            created: self.created as nat,
            closed: self.closed as nat,
            close_failed: self.close_failed as nat,
            failure: self.failure,
        }
    }
}

impl TransferSequencer {
    #[verifier::type_invariant]
    spec fn inv(self) -> bool {
        self@.wf()
    }

    /// Starts a transfer of `amount` out of an available balance of
    /// `available`. An amount that the balance does not cover gives a machine
    /// that is final at once, with `InsufficientBalance`.
    pub fn begin(amount: u64, available: u64) -> (s: TransferSequencer)
        ensures
            s@ == SequencerModel::begin(amount, available),
            s@.wf(),
    {
        if amount <= available {
            TransferSequencer {
                phase: Phase::BalanceVerified,
                amount,
                available,
                created: 0,
                closed: 0,
                close_failed: 0,
                failure: None,
            }
        } else {
            TransferSequencer {
                phase: Phase::Aborted,
                amount,
                available,
                created: 0,
                closed: 0,
                close_failed: 0,
                failure: Some(ErrorKind::InsufficientBalance),
            }
        }
    }

    /// The phase that the transfer is in.
    pub fn phase(&self) -> (p: Phase)
        ensures
            p == self@.phase,
    {
        self.phase
    }

    /// The amount to move.
    pub fn amount(&self) -> (a: u64)
        ensures
            a == self@.amount,
    {
        self.amount
    }

    /// Plaintext of the source's available balance when the transfer began.
    pub fn available(&self) -> (a: u64)
        ensures
            a == self@.available,
    {
        self.available
    }

    /// Context records created so far.
    pub fn created(&self) -> (n: u8)
        ensures
            n == self@.created,
            self@.wf(),
    {
        proof {
            use_type_invariant(self);
        }
        self.created
    }

    /// Context records closed so far.
    pub fn closed(&self) -> (n: u8)
        ensures
            n == self@.closed,
    {
        self.closed
    }

    /// Closes that were attempted and failed: each is a warning for the
    /// operator, none undoes a transfer.
    pub fn close_failures(&self) -> (n: u8)
        ensures
            n == self@.close_failed,
    {
        self.close_failed
    }

    /// The warning that a finished transfer leaves: a context record whose
    /// close failed keeps its deposit until it is closed by hand.
    pub fn cleanup_warning(&self) -> (w: Option<StealthLaunchError>)
        ensures
            w is Some <==> self@.close_failed > 0,
            w matches Some(e) ==> e is ContextAccountCloseFailed,
    {
        if self.close_failed > 0 {
            Some(StealthLaunchError::ContextAccountCloseFailed)
        } else {
            None
        }
    }

    /// The failure that stopped the transfer, if one did.
    pub fn failure(&self) -> (f: Option<ErrorKind>)
        ensures
            f == self@.failure,
    {
        self.failure
    }

    /// Whether the machine has reached a final phase.
    pub fn is_finished(&self) -> (b: bool)
        ensures
            b == self@.is_terminal(),
            self@.wf(),
    {
        proof {
            use_type_invariant(self);
        }
        match self.phase {
            Phase::ContextsClosed | Phase::Aborted => true,
            _ => false,
        }
    }

    /// Whether the transfer itself went through.
    pub fn transferred(&self) -> (b: bool)
        ensures
            b == self@.transferred(),
    {
        match self.phase {
            Phase::TransferExecuted | Phase::ContextsClosed => true,
            _ => false,
        }
    }

    /// Balance of the source after this transfer: lower by the amount if the
    /// transfer went through, unchanged if not.
    pub fn remaining_balance(&self) -> (b: u64)
        ensures
            b == self@.remaining(),
    {
        proof {
            use_type_invariant(self);
        }
        if self.transferred() {
            self.available - self.amount
        } else {
            self.available
        }
    }

    /// Whether the machine is closing records.
    fn is_closing(&self) -> (b: bool)
        ensures
            b == self@.closing(),
    {
        match self.phase {
            Phase::ProofsGenerated | Phase::ContextsCreated => self.failure.is_some(),
            Phase::TransferExecuted => true,
            _ => false,
        }
    }

    /// The action that the machine waits for.
    pub fn pending(&self) -> (a: Action)
        ensures
            a == self@.pending(),
    {
        proof {
            use_type_invariant(self);
        }
        if self.is_closing() {
            Action::CloseContext(ContextKind::from_index(self.closed + self.close_failed))
        } else {
            match self.phase {
                Phase::BalanceVerified => Action::GenerateProofs,
                Phase::ProofsGenerated => Action::CreateContext(
                    ContextKind::from_index(self.created),
                ),
                Phase::ContextsCreated => Action::ExecuteTransfer,
                _ => Action::Finished,
            }
        }
    }

    /// The machine with the same transfer and the given progress.
    fn with(
        &self,
        phase: Phase,
        created: u8,
        closed: u8,
        close_failed: u8,
        failure: Option<ErrorKind>,
    ) -> (s: TransferSequencer)
        requires
            (SequencerModel {
                phase,
                created: created as nat,
                closed: closed as nat,
                close_failed: close_failed as nat,
                failure,
                ..self@
            }).wf(),
        ensures
            s@ == (SequencerModel {
                phase,
                created: created as nat,
                closed: closed as nat,
                close_failed: close_failed as nat,
                failure,
                ..self@
            }),
    {
        TransferSequencer {
            phase,
            amount: self.amount,
            available: self.available,
            created,
            closed,
            close_failed,
            failure,
        }
    }

    /// The machine after a close was counted.
    fn after_close(&self, ok: bool) -> (s: TransferSequencer)
        requires
            self@.wf(),
            self@.closing(),
        ensures
            s@ == self@.after_close(ok),
    {
        proof {
            lemma_step_preserves_wf(self@, ok);
        }
        let closed: u8 = if ok { self.closed + 1 } else { self.closed };
        let close_failed: u8 = if ok { self.close_failed } else { self.close_failed + 1 };
        let phase = if closed + close_failed >= self.created {
            if self.failure.is_none() {
                Phase::ContextsClosed
            } else {
                Phase::Aborted
            }
        } else {
            self.phase
        };
        self.with(phase, self.created, closed, close_failed, self.failure)
    }

    /// The machine after the pending forward action failed.
    fn after_failure(&self, kind: ErrorKind) -> (s: TransferSequencer)
        requires
            self@.wf(),
            !self@.closing(),
            !self@.is_terminal(),
            self@.step(false) == self@.after_failure(kind),
        ensures
            s@ == self@.after_failure(kind),
    {
        proof {
            lemma_step_preserves_wf(self@, false);
        }
        let phase = if self.created == 0 { Phase::Aborted } else { self.phase };
        self.with(phase, self.created, self.closed, self.close_failed, Some(kind))
    }

    /// The machine after the pending forward action succeeded.
    fn after_success(&self) -> (s: TransferSequencer)
        requires
            self@.wf(),
            !self@.closing(),
        ensures
            s@ == self@.step(true),
    {
        proof {
            lemma_step_preserves_wf(self@, true);
        }
        match self.phase {
            Phase::BalanceVerified => self.with(
                Phase::ProofsGenerated,
                self.created,
                self.closed,
                self.close_failed,
                self.failure,
            ),
            Phase::ProofsGenerated => {
                let created: u8 = self.created + 1;
                let phase = if created >= CONTEXT_RECORDS {
                    Phase::ContextsCreated
                } else {
                    Phase::ProofsGenerated
                };
                self.with(phase, created, self.closed, self.close_failed, self.failure)
            },
            Phase::ContextsCreated => self.with(
                Phase::TransferExecuted,
                self.created,
                self.closed,
                self.close_failed,
                self.failure,
            ),
            _ => self.with(
                self.phase,
                self.created,
                self.closed,
                self.close_failed,
                self.failure,
            ),
        }
    }

    /// Gives the transfer up because its proofs could not be prepared, for
    /// the reason `kind`: an account that is missing or not configured, a
    /// balance that does not open. Once the proofs exist this is a failure
    /// of the pending action, like `step(false)`.
    pub fn abort(&mut self, kind: ErrorKind) -> (next: Action)
        ensures
            final(self)@ == old(self)@.abort(kind),
            next == final(self)@.pending(),
            final(self)@.wf(),
    {
        proof {
            use_type_invariant(&*self);
            lemma_abort(self@, kind);
        }
        match self.phase {
            Phase::BalanceVerified => {
                let next = self.with(
                    Phase::Aborted,
                    self.created,
                    self.closed,
                    self.close_failed,
                    Some(kind),
                );
                *self = next;
                self.pending()
            },
            _ => self.step(false),
        }
    }

    /// Takes the outcome of the pending action, `ok` for success, and gives
    /// the action to perform next. A final machine stays as it is.
    pub fn step(&mut self, ok: bool) -> (next: Action)
        ensures
            final(self)@ == old(self)@.step(ok),
            next == final(self)@.pending(),
            final(self)@.wf(),
    {
        proof {
            use_type_invariant(&*self);
            lemma_step_preserves_wf(self@, ok);
        }
        let next = if self.is_closing() {
            self.after_close(ok)
        } else if ok {
            self.after_success()
        } else {
            match self.phase {
                Phase::BalanceVerified => self.after_failure(ErrorKind::ProofGenerationFailed),
                Phase::ProofsGenerated => self.after_failure(
                    ErrorKind::ContextAccountCreationFailed,
                ),
                Phase::ContextsCreated => self.after_failure(ErrorKind::TransferExecutionFailed),
                _ => self.after_success(),
            }
        };
        *self = next;
        self.pending()
    }
}

} // verus!
