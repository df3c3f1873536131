//! A batch of transfers out of one source account, one recipient after the
//! other, with the source balance that is left kept up to date locally.

use vstd::prelude::*;
use crate::error::{ErrorKind, StealthLaunchError};
use crate::ledger::{address_of_text, parse_address};
use crate::sequencer::{SequencerModel, TransferSequencer};

verus! {

/// One row of the recipient list, as it was read.
#[derive(Debug)]
pub struct Recipient {
    /// Wallet address, in base 58.
    pub wallet: String,
    /// Amount in base units of the token.
    pub amount: u64,
}

/// A recipient whose wallet address was read.
#[derive(Clone, Debug)]
pub struct Payee {
    /// Wallet address as it was written, in base 58.
    pub wallet: String,
    /// Wallet address.
    pub address: [u8; 32],
    /// Amount in base units of the token.
    pub amount: u64,
}

/// Whether `payee` is what the row `row` stands for.
pub open spec fn payee_of(row: Recipient, payee: Payee) -> bool {
    &&& payee.wallet@ == row.wallet@
    &&& address_of_text(row.wallet@) == Some(payee.address@)
    &&& payee.amount == row.amount
}

/// Whether every row has a wallet address that can be read.
pub open spec fn rows_valid(rows: Seq<Recipient>) -> bool {
    forall|i: int| 0 <= i < rows.len() ==> address_of_text(#[trigger] rows[i].wallet@) is Some
}

/// Reads the wallet address of every row, before any transfer begins. An
/// empty list and a list with a wallet that is no address are refused whole;
/// otherwise the payees come in the order of the rows.
pub fn parse_recipients(rows: &Vec<Recipient>) -> (r: Result<Vec<Payee>, StealthLaunchError>)
    ensures
        r is Ok <==> rows@.len() > 0 && rows_valid(rows@),
        r matches Ok(payees) ==> {
            &&& payees@.len() == rows@.len()
            &&& forall|i: int| 0 <= i < rows@.len() ==> payee_of(rows@[i], #[trigger] payees@[i])
        },
        r matches Err(e) ==> e is InvalidRecipientCsv,
{
    if rows.len() == 0 {
        return Err(
            StealthLaunchError::InvalidRecipientCsv("No recipients found in CSV file".to_owned()),
        );
    }
    let mut payees: Vec<Payee> = Vec::new();
    let mut i: usize = 0;
    while i < rows.len()
        invariant
            i <= rows@.len(),
            payees@.len() == i,
            forall|j: int| 0 <= j < i ==> payee_of(rows@[j], #[trigger] payees@[j]),
            forall|j: int| 0 <= j < i ==> address_of_text(#[trigger] rows@[j].wallet@) is Some,
        decreases rows@.len() - i,
    {
        match parse_address(rows[i].wallet.as_str()) {
            Some(address) => {
                let wallet = rows[i].wallet.clone();
                payees.push(Payee { wallet, address, amount: rows[i].amount });
            },
            None => {
                return Err(
                    StealthLaunchError::InvalidRecipientCsv("Invalid wallet address".to_owned()),
                );
            },
        }
        i = i + 1;
    }
    Ok(payees)
}

/// Sum of the first `n` amounts.
pub open spec fn total(amounts: Seq<u64>, n: nat) -> nat
    decreases n,
{
    if n == 0 || n > amounts.len() {
        0
    } else {
        total(amounts, (n - 1) as nat) + amounts[n - 1] as nat
    }
}

/// The amounts of a recipient list, in its order.
pub open spec fn amounts_of(recipients: Seq<Payee>) -> Seq<u64> {
    Seq::new(recipients.len(), |i: int| recipients[i].amount)
}

/// A batch as a mathematical value.
pub struct BatchModel {
    /// Amounts of the recipients, in input order.
    pub amounts: Seq<u64>,
    /// Source balance when the batch began.
    pub initial: u64,
    /// Number of recipients paid; also the position of the one in turn.
    pub next: nat,
    /// Source balance that is left.
    pub balance: u64,
    /// The failure that halted the batch, if one did.
    pub halted: Option<ErrorKind>,
    /// Whether a transfer of the recipient in turn is under way.
    pub in_flight: bool,
}

impl BatchModel {
    /// The batch before its first transfer.
    pub open spec fn begin(amounts: Seq<u64>, balance: u64) -> BatchModel {
        BatchModel { amounts, initial: balance, next: 0, balance, halted: None, in_flight: false }
    }

    /// The states that a batch can be in.
    pub open spec fn wf(self) -> bool {
        &&& self.amounts.len() > 0
        &&& self.next <= self.amounts.len()
        &&& self.balance + total(self.amounts, self.next) == self.initial
        &&& self.halted is Some ==> self.next < self.amounts.len()
        &&& self.in_flight ==> !self.is_done()
    }

    /// Whether nothing is left to do: all are paid, or the batch has halted.
    pub open spec fn is_done(self) -> bool {
        self.next >= self.amounts.len() || self.halted is Some
    }

    /// The machine for the recipient in turn.
    pub open spec fn next_machine(self) -> SequencerModel {
        SequencerModel::begin(self.amounts[self.next as int], self.balance)
    }

    /// Whether a transfer can begin: the batch is not done and no transfer
    /// is under way.
    pub open spec fn can_begin(self) -> bool {
        !self.is_done() && !self.in_flight
    }

    /// The batch once the transfer of the recipient in turn has begun.
    pub open spec fn begun(self) -> BatchModel {
        if self.can_begin() {
            BatchModel { in_flight: true, ..self }
        } else {
            self
        }
    }

    /// Whether `s` is the finished transfer to the recipient in turn, begun
    /// on the balance that is left now.
    pub open spec fn settles(self, s: SequencerModel) -> bool {
        &&& self.in_flight
        &&& !self.is_done()
        &&& s.wf()
        &&& s.is_terminal()
        &&& s.amount == self.amounts[self.next as int]
        &&& s.available == self.balance
    }

    /// The batch after a failure `kind` outside any transfer: it halts on the
    /// recipient in turn, unless it is done already.
    pub open spec fn halt(self, kind: ErrorKind) -> BatchModel {
        if self.is_done() {
            self
        } else {
            BatchModel { halted: Some(kind), in_flight: false, ..self }
        }
    }

    /// Number of recipients that have not received funds.
    pub open spec fn unpaid(self) -> nat {
        (self.amounts.len() - self.next) as nat
    }

    /// The batch after the transfer `s` of the recipient in turn. A transfer
    /// that went through lowers the balance by its amount and passes the turn;
    /// one that failed halts the batch and leaves the balance alone; anything
    /// else is not taken.
    pub open spec fn record(self, s: SequencerModel) -> BatchModel {
        if !self.settles(s) {
            self
        } else if s.failure is None {
            BatchModel {
                next: self.next + 1,
                balance: (self.balance - s.amount) as u64,
                in_flight: false,
                ..self
            }
        } else {
            BatchModel { halted: s.failure, in_flight: false, ..self }
        }
    }
}

/// The sum grows by one amount with each recipient.
pub proof fn lemma_total_step(amounts: Seq<u64>, n: nat)
    requires
        n < amounts.len(),
    ensures
        total(amounts, n + 1) == total(amounts, n) + amounts[n as int],
{
}

/// A batch begins valid on any list that is not empty.
pub proof fn lemma_batch_begin(amounts: Seq<u64>, balance: u64)
    requires
        amounts.len() > 0,
    ensures
        BatchModel::begin(amounts, balance).wf(),
        BatchModel::begin(amounts, balance).can_begin(),
{
}

/// One transfer at a time: once a transfer has begun, none can begin until
/// it is recorded or the batch is halted, and beginning changes nothing
/// else.
pub proof fn lemma_one_transfer_at_a_time(b: BatchModel, s: SequencerModel, kind: ErrorKind)
    requires
        b.wf(),
    ensures
        b.begun().wf(),
        !b.begun().can_begin(),
        b.begun().balance == b.balance && b.begun().next == b.next && b.begun().halted == b.halted,
        !b.record(s).in_flight || b.record(s) == b,
        !b.halt(kind).in_flight,
{
    lemma_record_preserves_wf(b, s);
}

/// Recording a transfer keeps the batch valid: the balance that is left plus
/// what was paid is always the balance that the batch began with.
pub proof fn lemma_record_preserves_wf(b: BatchModel, s: SequencerModel)
    requires
        b.wf(),
    ensures
        b.record(s).wf(),
        b.record(s).balance + total(b.record(s).amounts, b.record(s).next) == b.initial,
{
    if b.settles(s) && s.failure is None {
        lemma_total_step(b.amounts, b.next);
    }
}

/// A transfer that went through lowers the running balance by exactly its
/// amount, strictly so for an amount above zero, and passes the turn.
pub proof fn lemma_success_lowers_balance(b: BatchModel, s: SequencerModel)
    requires
        b.wf(),
        b.settles(s),
        s.failure is None,
    ensures
        s.amount <= b.balance,
        b.record(s).balance == b.balance - s.amount,
        s.amount > 0 ==> b.record(s).balance < b.balance,
        b.record(s).next == b.next + 1,
        b.record(s).halted is None,
{
}

/// A transfer that failed leaves the running balance as it was, halts the
/// batch on that recipient, and pays no one after it.
pub proof fn lemma_failure_halts(b: BatchModel, s: SequencerModel, later: SequencerModel)
    requires
        b.wf(),
        b.settles(s),
        s.failure is Some,
    ensures
        b.record(s).balance == b.balance,
        b.record(s).next == b.next,
        b.record(s).halted == s.failure,
        b.record(s).is_done(),
        b.record(s).record(later) == b.record(s),
{
}

/// Halting keeps the books: the balance and the recipients paid stay as
/// they are, and the batch is done.
pub proof fn lemma_halt(b: BatchModel, kind: ErrorKind)
    requires
        b.wf(),
    ensures
        b.halt(kind).wf(),
        b.halt(kind).is_done(),
        b.halt(kind).balance == b.balance,
        b.halt(kind).next == b.next,
        !b.is_done() ==> b.halt(kind).halted == Some(kind),
{
}

/// For every recipient whose amount the running balance covers, a run of the
/// transfer that ends without a failure is taken into the books and lowers
/// the running balance by exactly the amount; it lowers it strictly unless
/// the amount is zero.
pub proof fn lemma_successful_run_lowers_balance(b: BatchModel, outcomes: Seq<bool>)
    requires
        b.wf(),
        b.in_flight,
        b.amounts[b.next as int] <= b.balance,
        outcomes.len() >= 8,
        b.next_machine().run(outcomes).failure is None,
    ensures
        b.settles(b.next_machine().run(outcomes)),
        b.next_machine().run(outcomes).transferred(),
        b.record(b.next_machine().run(outcomes)).balance == b.balance - b.amounts[b.next as int],
        b.amounts[b.next as int] > 0 ==> b.record(b.next_machine().run(outcomes)).balance
            < b.balance,
        b.record(b.next_machine().run(outcomes)).next == b.next + 1,
{
    let amount = b.amounts[b.next as int];
    crate::sequencer::lemma_begin(amount, b.balance);
    crate::sequencer::lemma_run(b.next_machine(), outcomes);
    crate::sequencer::lemma_final_machine_leaves_no_record(b.next_machine().run(outcomes));
}

/// A run of the transfer that ends with a failure leaves the running
/// balance as it was and halts the batch, wherever the failure struck.
pub proof fn lemma_failed_run_keeps_balance(b: BatchModel, outcomes: Seq<bool>)
    requires
        b.wf(),
        b.in_flight,
        outcomes.len() >= 8,
        b.next_machine().run(outcomes).failure is Some,
    ensures
        b.settles(b.next_machine().run(outcomes)),
        !b.next_machine().run(outcomes).transferred(),
        b.record(b.next_machine().run(outcomes)).balance == b.balance,
        b.record(b.next_machine().run(outcomes)).next == b.next,
        b.record(b.next_machine().run(outcomes)).is_done(),
{
    let amount = b.amounts[b.next as int];
    crate::sequencer::lemma_begin(amount, b.balance);
    crate::sequencer::lemma_run(b.next_machine(), outcomes);
    crate::sequencer::lemma_final_machine_leaves_no_record(b.next_machine().run(outcomes));
}

/// A batch that is done without a failure has paid every recipient, and
/// what is left is the initial balance less the sum of all amounts. One that
/// halted has paid exactly the recipients before the one it halted on.
pub proof fn lemma_done_batch(b: BatchModel)
    requires
        b.wf(),
        b.is_done(),
    ensures
        b.halted is None ==> b.next == b.amounts.len() && b.balance == b.initial - total(
            b.amounts,
            b.amounts.len(),
        ),
        b.halted is Some ==> b.next < b.amounts.len() && b.balance == b.initial - total(
            b.amounts,
            b.next,
        ),
{
}

/// An amount above the balance that is left fails before any proof or
/// network work: the machine for it is final at once.
pub proof fn lemma_uncovered_amount_halts(b: BatchModel)
    requires
        b.wf(),
        b.in_flight,
        b.amounts[b.next as int] > b.balance,
    ensures
        b.settles(b.next_machine()),
        b.record(b.next_machine()).halted == Some(ErrorKind::InsufficientBalance),
        b.record(b.next_machine()).balance == b.balance,
{
    crate::sequencer::lemma_begin(b.amounts[b.next as int], b.balance);
}

/// Where a batch stands, in one value.
#[derive(Clone, Copy, Debug)]
pub struct Progress {
    /// Number of recipients paid.
    pub paid: usize,
    /// Source balance that is left.
    pub balance: u64,
    /// The failure that halted the batch, if one did.
    pub halted: Option<ErrorKind>,
    /// Whether a transfer of the recipient in turn is under way.
    pub in_flight: bool,
}

/// Distributes to a list of recipients, in its order, one transfer at a
/// time.
#[derive(Debug)]
pub struct BatchDistributor {
    recipients: Vec<Payee>,
    initial: u64,
    progress: Progress,
}

impl View for BatchDistributor {
    type V = BatchModel;

    closed spec fn view(&self) -> BatchModel {
        BatchModel {
            amounts: amounts_of(self.recipients@),
            initial: self.initial,
            next: self.progress.paid as nat,
            balance: self.progress.balance,
            halted: self.progress.halted,
            in_flight: self.progress.in_flight,
        }
    }
}

impl BatchDistributor {
    #[verifier::type_invariant]
    spec fn inv(self) -> bool {
        self@.wf()
    }

    /// The recipients of the batch, paid or not.
    pub closed spec fn spec_recipients(&self) -> Seq<Payee> {
        self.recipients@
    }

    /// A batch for `recipients` out of a source balance of `balance`. An
    /// empty list is refused.
    pub fn new(recipients: Vec<Payee>, balance: u64) -> (r: Result<
        BatchDistributor,
        StealthLaunchError,
    >)
        ensures
            recipients@.len() == 0 <==> r is Err,
            r matches Err(e) ==> e is InvalidRecipientCsv && e.spec_kind()
                == ErrorKind::InvalidInput,
            r matches Ok(b) ==> {
                &&& b@ == BatchModel::begin(amounts_of(recipients@), balance)
                &&& b.spec_recipients() == recipients@
                &&& b@.wf()
            },
    {
        if recipients.len() == 0 {
            return Err(StealthLaunchError::InvalidRecipientCsv(
                    "No recipients found in CSV file".to_owned(),
                ));
        }
        Ok(
            BatchDistributor {
                recipients,
                initial: balance,
                progress: Progress { paid: 0, balance, halted: None, in_flight: false },
            },
        )
    }

    /// Where the batch stands.
    pub fn progress(&self) -> (p: Progress)
        ensures
            p.paid == self@.next,
            p.balance == self@.balance,
            p.halted == self@.halted,
            p.in_flight == self@.in_flight,
            self@.wf(),
    {
        proof {
            use_type_invariant(self);
        }
        self.progress
    }

    /// Source balance that is left.
    pub fn running_balance(&self) -> (b: u64)
        ensures
            b == self@.balance,
    {
        self.progress.balance
    }

    /// Whether nothing is left to do.
    pub fn is_done(&self) -> (b: bool)
        ensures
            b == self@.is_done(),
    {
        self.progress.paid >= self.recipients.len() || self.progress.halted.is_some()
    }

    /// The whole list, in input order. The recipients from `progress().paid`
    /// on have not received funds.
    pub fn recipients(&self) -> (v: &Vec<Payee>)
        ensures
            v@ == self.spec_recipients(),
            amounts_of(v@) == self@.amounts,
    {
        &self.recipients
    }

    /// The recipient in turn, if the batch is not done.
    pub fn current(&self) -> (r: Option<&Payee>)
        ensures
            r is None <==> self@.is_done(),
            r matches Some(c) ==> *c == self.spec_recipients()[self@.next as int] && c.amount
                == self@.amounts[self@.next as int],
    {
        proof {
            use_type_invariant(self);
        }
        if self.is_done() {
            None
        } else {
            Some(&self.recipients[self.progress.paid])
        }
    }

    /// The failure that halted the batch, with the recipient that it halted
    /// on: what that recipient needed and what was left for an amount that
    /// was not covered, the wallet of the recipient where the failure holds
    /// a text.
    pub fn failure(&self) -> (r: Option<StealthLaunchError>)
        ensures
            r is Some <==> self@.halted is Some,
            r matches Some(e) ==> {
                &&& e.spec_kind() == self@.halted->0
                &&& e matches StealthLaunchError::InsufficientBalance { need, have } ==> need
                    == self@.amounts[self@.next as int] && have == self@.balance
                &&& e matches StealthLaunchError::TokenAccountNotFound { wallet } ==> wallet@
                    == self.spec_recipients()[self@.next as int].wallet@
                &&& e matches StealthLaunchError::DecryptionFailed(text) ==> text@
                    == self.spec_recipients()[self@.next as int].wallet@
                &&& e matches StealthLaunchError::TransactionFailed(text) ==> text@
                    == self.spec_recipients()[self@.next as int].wallet@
                &&& e matches StealthLaunchError::InvalidRecipientCsv(text) ==> text@
                    == self.spec_recipients()[self@.next as int].wallet@
                &&& !(e is KeypairLoad) && !(e is InvalidKeypair) && !(e is Rpc)
                    && !(e is InvalidAuditorPubkey)
            },
    {
        proof {
            use_type_invariant(self);
        }
        let kind = match self.progress.halted {
            Some(kind) => kind,
            None => {
                return None;
            },
        };
        let payee = &self.recipients[self.progress.paid];
        Some(
            match kind {
                ErrorKind::AccountNotFound => StealthLaunchError::TokenAccountNotFound {
                    wallet: payee.wallet.clone(),
                },
                ErrorKind::ExtensionMissing => StealthLaunchError::ConfidentialTransferNotConfigured,
                ErrorKind::DecryptionFailed => StealthLaunchError::DecryptionFailed(
                    payee.wallet.clone(),
                ),
                ErrorKind::InsufficientBalance => StealthLaunchError::InsufficientBalance {
                    need: payee.amount,
                    have: self.progress.balance,
                },
                ErrorKind::KeyDerivationFailed => StealthLaunchError::KeyDerivationFailed,
                ErrorKind::ProofGenerationFailed => StealthLaunchError::ProofGenerationFailed,
                ErrorKind::ContextAccountCreationFailed => {
                    StealthLaunchError::ContextAccountCreationFailed
                },
                ErrorKind::ContextAccountCloseFailed => StealthLaunchError::ContextAccountCloseFailed,
                ErrorKind::TransferExecutionFailed => StealthLaunchError::TransactionFailed(
                    payee.wallet.clone(),
                ),
                ErrorKind::InvalidInput => StealthLaunchError::InvalidRecipientCsv(
                    payee.wallet.clone(),
                ),
            },
        )
    }

    /// Begins the transfer of the recipient in turn and gives its machine,
    /// begun on the balance that is left; the machine is final at once if
    /// that balance does not cover the amount. No machine is given while a
    /// transfer is under way or when the batch is done.
    pub fn next_transfer(&mut self) -> (r: Option<TransferSequencer>)
        ensures
            r is Some <==> old(self)@.can_begin(),
            r matches Some(s) ==> s@ == old(self)@.next_machine() && s@.wf(),
            final(self)@ == old(self)@.begun(),
            final(self).spec_recipients() == old(self).spec_recipients(),
            final(self)@.wf(),
    {
        proof {
            use_type_invariant(&*self);
        }
        if self.is_done() || self.progress.in_flight {
            None
        } else {
            self.progress = Progress { in_flight: true, ..self.progress };
            Some(
                TransferSequencer::begin(
                    self.recipients[self.progress.paid].amount,
                    self.progress.balance,
                ),
            )
        }
    }

    /// Halts the batch on the recipient in turn for a failure outside any
    /// transfer. A batch that is done stays as it is.
    pub fn halt(&mut self, kind: ErrorKind)
        ensures
            final(self)@ == old(self)@.halt(kind),
            final(self).spec_recipients() == old(self).spec_recipients(),
            final(self)@.wf(),
    {
        proof {
            use_type_invariant(&*self);
            lemma_halt(self@, kind);
        }
        if !self.is_done() {
            self.progress = Progress { halted: Some(kind), in_flight: false, ..self.progress };
        }
    }

    /// Number of recipients that have not received funds: those from the one
    /// in turn on.
    pub fn unpaid(&self) -> (n: usize)
        ensures
            n == self@.unpaid(),
            self@.next + n == self@.amounts.len(),
    {
        proof {
            use_type_invariant(self);
        }
        self.recipients.len() - self.progress.paid
    }

    /// Takes the finished transfer of the recipient in turn into the books.
    /// Returns whether it was taken: a machine that is not final, or that was
    /// not begun for this recipient on this balance, changes nothing.
    pub fn record(&mut self, transfer: &TransferSequencer) -> (taken: bool)
        ensures
            taken == old(self)@.settles(transfer@),
            final(self)@ == old(self)@.record(transfer@),
            final(self).spec_recipients() == old(self).spec_recipients(),
            final(self)@.wf(),
    {
        proof {
            use_type_invariant(&*self);
            lemma_record_preserves_wf(self@, transfer@);
        }
        let finished = transfer.is_finished();
        if !self.progress.in_flight || self.is_done() || !finished {
            return false;
        }
        if transfer.amount() != self.recipients[self.progress.paid].amount
            || transfer.available() != self.progress.balance {
            return false;
        }
        let failure = transfer.failure();
        let count = self.recipients.len();
        assert(self.progress.paid < count);
        if failure.is_none() {
            self.progress = Progress {
                paid: self.progress.paid + 1,
                balance: self.progress.balance - transfer.amount(),
                halted: None,
                in_flight: false,
            };
        } else {
            self.progress = Progress { halted: failure, in_flight: false, ..self.progress };
        }
        true
    }
}

} // verus!
