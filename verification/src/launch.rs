//! The commands that set up a mint and a token account: which ledger
//! operations each consists of, in which order, and what a failure stops.

use vstd::prelude::*;
use crate::cli::CreateArgs;
use crate::crypto::{base58_decoded, is_elgamal_pubkey, parse_elgamal_pubkey, ELGAMAL_PUBKEY_LEN};
use crate::error::StealthLaunchError;

verus! {

/// One ledger operation of a command.
#[derive(Clone, Copy, Debug, PartialEq, Eq, Structural)]
pub enum Step {
    /// Create the mint with its confidential-transfer extension.
    CreateMint,
    /// Create the owner's token account for the mint.
    CreateTokenAccount,
    /// Make room in the token account for the confidential extension.
    Reallocate,
    /// Configure the token account for confidential transfers.
    ConfigureAccount,
    /// Mint the supply to the token account, in plain sight.
    MintTo,
    /// Move the minted supply into the pending confidential balance.
    Deposit,
    /// Make the pending balance available.
    ApplyPendingBalance,
}

/// The operations that create a token: the mint, the creator's account and
/// its configuration, and, for a supply above zero, minting and depositing.
pub open spec fn create_steps(supply: u64) -> Seq<Step> {
    if supply > 0 {
        seq![
            Step::CreateMint,
            Step::CreateTokenAccount,
            Step::Reallocate,
            Step::ConfigureAccount,
            Step::MintTo,
            Step::Deposit,
            Step::ApplyPendingBalance,
        ]
    } else {
        seq![Step::CreateMint, Step::CreateTokenAccount, Step::Reallocate, Step::ConfigureAccount]
    }
}

/// The operations that configure a wallet's token account: it is created
/// first unless the ledger has it already.
pub open spec fn configure_steps(account_exists: bool) -> Seq<Step> {
    if account_exists {
        seq![Step::Reallocate, Step::ConfigureAccount]
    } else {
        seq![Step::CreateTokenAccount, Step::Reallocate, Step::ConfigureAccount]
    }
}

/// A command under way, as a mathematical value.
pub struct LaunchModel {
    /// The operations of the command, in order.
    pub steps: Seq<Step>,
    /// How many of them have succeeded.
    pub done: nat,
    /// Whether the operation in turn has failed.
    pub failed: bool,
}

impl LaunchModel {
    /// The command before its first operation.
    pub open spec fn begin(steps: Seq<Step>) -> LaunchModel {
        LaunchModel { steps, done: 0, failed: false }
    }

    /// The states that a command can be in.
    pub open spec fn wf(self) -> bool {
        self.done <= self.steps.len() && (self.failed ==> self.done < self.steps.len())
    }

    /// The operation to perform next; none once all are done or one failed.
    pub open spec fn pending(self) -> Option<Step> {
        if self.failed || self.done >= self.steps.len() {
            None
        } else {
            Some(self.steps[self.done as int])
        }
    }

    /// Whether every operation has succeeded.
    pub open spec fn succeeded(self) -> bool {
        !self.failed && self.done >= self.steps.len()
    }

    /// The operation that failed, if one did.
    pub open spec fn failed_step(self) -> Option<Step> {
        if self.failed {
            Some(self.steps[self.done as int])
        } else {
            None
        }
    }

    /// The command after the pending operation succeeded (`ok`) or failed.
    pub open spec fn advance(self, ok: bool) -> LaunchModel {
        if self.pending() is None {
            self
        } else if ok {
            LaunchModel { done: self.done + 1, ..self }
        } else {
            LaunchModel { failed: true, ..self }
        }
    }
}

/// Operations run in their order, one at a time, and the first failure is
/// the end: after it nothing is pending and nothing changes.
pub proof fn lemma_advance(m: LaunchModel, ok: bool)
    requires
        m.wf(),
    ensures
        m.advance(ok).wf(),
        m.advance(ok).steps == m.steps,
        m.pending() is Some && ok ==> m.advance(ok).done == m.done + 1,
        m.pending() is Some && !ok ==> m.advance(ok).failed_step() == m.pending()
            && m.advance(ok).pending() is None,
        m.pending() is None ==> m.advance(ok) == m,
        m.failed ==> m.pending() is None,
{
}

/// A token with a supply is minted and deposited after its account is
/// configured; one without a supply is not minted at all.
pub proof fn lemma_create_steps(supply: u64)
    ensures
        create_steps(supply).len() == if supply > 0 {
            7nat
        } else {
            4nat
        },
        create_steps(supply)[0] == Step::CreateMint,
        create_steps(supply)[3] == Step::ConfigureAccount,
        supply > 0 ==> create_steps(supply)[4] == Step::MintTo,
        forall|i: int|
            0 <= i < create_steps(supply).len() && create_steps(supply)[i] == Step::MintTo
                ==> supply > 0,
{
}

/// Where a command stands.
#[derive(Clone, Copy, Debug)]
pub struct Cursor {
    /// Operations that have succeeded.
    pub done: usize,
    /// Whether the operation in turn has failed.
    pub failed: bool,
}

/// A command under way.
#[derive(Debug)]
pub struct Launch {
    steps: Vec<Step>,
    cursor: Cursor,
}

impl View for Launch {
    type V = LaunchModel;

    closed spec fn view(&self) -> LaunchModel {
        LaunchModel {
            steps: self.steps@,
            done: self.cursor.done as nat,
            failed: self.cursor.failed,
        }
    }
}

impl Launch {
    #[verifier::type_invariant]
    spec fn inv(self) -> bool {
        self@.wf()
    }

    fn begin(steps: Vec<Step>) -> (l: Launch)
        ensures
            l@ == LaunchModel::begin(steps@),
    {
        Launch { steps, cursor: Cursor { done: 0, failed: false } }
    }

    /// The command that creates a token with the given supply.
    pub fn create(supply: u64) -> (l: Launch)
        ensures
            l@ == LaunchModel::begin(create_steps(supply)),
            l@.wf(),
    {
        let mut steps: Vec<Step> = Vec::new();
        steps.push(Step::CreateMint);
        steps.push(Step::CreateTokenAccount);
        steps.push(Step::Reallocate);
        steps.push(Step::ConfigureAccount);
        if supply > 0 {
            steps.push(Step::MintTo);
            steps.push(Step::Deposit);
            steps.push(Step::ApplyPendingBalance);
        }
        assert(steps@ =~= create_steps(supply));
        Launch::begin(steps)
    }

    /// The command that configures a token account which the ledger has
    /// (`account_exists`) or has not yet.
    pub fn configure(account_exists: bool) -> (l: Launch)
        ensures
            l@ == LaunchModel::begin(configure_steps(account_exists)),
            l@.wf(),
    {
        let mut steps: Vec<Step> = Vec::new();
        if !account_exists {
            steps.push(Step::CreateTokenAccount);
        }
        steps.push(Step::Reallocate);
        steps.push(Step::ConfigureAccount);
        assert(steps@ =~= configure_steps(account_exists));
        Launch::begin(steps)
    }

    /// The operation to perform next.
    pub fn pending(&self) -> (s: Option<Step>)
        ensures
            s == self@.pending(),
            self@.wf(),
    {
        proof {
            use_type_invariant(self);
        }
        if self.cursor.failed || self.cursor.done >= self.steps.len() {
            None
        } else {
            Some(self.steps[self.cursor.done])
        }
    }

    /// Whether every operation has succeeded.
    pub fn succeeded(&self) -> (b: bool)
        ensures
            b == self@.succeeded(),
    {
        !self.cursor.failed && self.cursor.done >= self.steps.len()
    }

    /// The operation that failed, if one did.
    pub fn failed_step(&self) -> (s: Option<Step>)
        ensures
            s == self@.failed_step(),
    {
        proof {
            use_type_invariant(self);
        }
        if self.cursor.failed {
            Some(self.steps[self.cursor.done])
        } else {
            None
        }
    }

    /// Takes the outcome of the pending operation and gives the next one.
    pub fn advance(&mut self, ok: bool) -> (next: Option<Step>)
        ensures
            final(self)@ == old(self)@.advance(ok),
            next == final(self)@.pending(),
            final(self)@.wf(),
    {
        proof {
            use_type_invariant(&*self);
            lemma_advance(self@, ok);
        }
        let count = self.steps.len();
        if !self.cursor.failed && self.cursor.done < count {
            if ok {
                self.cursor = Cursor { done: self.cursor.done + 1, failed: false };
            } else {
                self.cursor = Cursor { done: self.cursor.done, failed: true };
            }
        }
        self.pending()
    }
}

/// What the creation of a token needs besides its arguments as given.
#[derive(Debug)]
pub struct CreatePlan {
    /// ElGamal public key of the auditor, if one was named.
    pub auditor: Option<[u8; 32]>,
    /// The operations to perform.
    pub launch: Launch,
}

/// Whether `text` is the base-58 text of an ElGamal public key.
pub open spec fn is_auditor_text(text: Seq<char>) -> bool {
    base58_decoded(text) matches Some(bytes) && bytes.len() == ELGAMAL_PUBKEY_LEN
        && is_elgamal_pubkey(bytes)
}

/// Plans the creation of a token from the arguments of the command. An
/// auditor that is named must be a valid key; the plan mints and deposits
/// only a supply above zero.
pub fn plan_create(args: &CreateArgs) -> (r: Result<CreatePlan, StealthLaunchError>)
    ensures
        r is Ok <==> (args.auditor matches Some(text) ==> is_auditor_text(text@)),
        r matches Ok(plan) ==> {
            &&& plan.launch@ == LaunchModel::begin(create_steps(args.supply))
            &&& plan.auditor is Some == args.auditor is Some
            &&& plan.auditor matches Some(key) ==> base58_decoded(args.auditor->0@) == Some(key@)
        },
        r matches Err(e) ==> e is InvalidAuditorPubkey,
{
    let auditor = match &args.auditor {
        Some(text) => match parse_elgamal_pubkey(text.as_str()) {
            Ok(key) => Some(key),
            Err(e) => {
                return Err(e);
            },
        },
        None => None,
    };
    Ok(CreatePlan { auditor, launch: Launch::create(args.supply) })
}

} // verus!
