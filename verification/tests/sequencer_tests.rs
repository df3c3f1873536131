use stealth_launch::context::{ContextKind, ContextRecord};
use stealth_launch::error::ErrorKind;
use stealth_launch::sequencer::{Action, Phase, TransferSequencer};

fn drive(seq: &mut TransferSequencer, outcomes: &[bool]) -> Vec<Action> {
    let mut asked = vec![seq.pending()];
    for ok in outcomes {
        asked.push(seq.step(*ok));
    }
    asked
}

#[test]
fn transfer_runs_through_every_phase_in_order() {
    let mut seq = TransferSequencer::begin(300, 1000);
    assert_eq!(seq.phase(), Phase::BalanceVerified);
    let asked = drive(&mut seq, &[true; 8]);
    assert_eq!(
        asked,
        vec![
            Action::GenerateProofs,
            Action::CreateContext(ContextKind::Equality),
            Action::CreateContext(ContextKind::Validity),
            Action::CreateContext(ContextKind::Range),
            Action::ExecuteTransfer,
            Action::CloseContext(ContextKind::Equality),
            Action::CloseContext(ContextKind::Validity),
            Action::CloseContext(ContextKind::Range),
            Action::Finished,
        ]
    );
    assert_eq!(seq.phase(), Phase::ContextsClosed);
    assert!(seq.is_finished());
    assert!(seq.transferred());
    assert_eq!(seq.failure(), None);
    assert_eq!((seq.created(), seq.closed(), seq.close_failures()), (3, 3, 0));
    assert_eq!(seq.remaining_balance(), 700);
    assert!(seq.cleanup_warning().is_none());
}

#[test]
fn phases_follow_the_protocol() {
    let mut seq = TransferSequencer::begin(1, 1);
    seq.step(true);
    assert_eq!(seq.phase(), Phase::ProofsGenerated);
    seq.step(true);
    seq.step(true);
    assert_eq!(seq.phase(), Phase::ProofsGenerated);
    seq.step(true);
    assert_eq!(seq.phase(), Phase::ContextsCreated);
    seq.step(true);
    assert_eq!(seq.phase(), Phase::TransferExecuted);
    assert!(seq.transferred());
    assert_eq!(seq.remaining_balance(), 0);
    seq.step(true);
    seq.step(true);
    assert_eq!(seq.phase(), Phase::TransferExecuted);
    seq.step(true);
    assert_eq!(seq.phase(), Phase::ContextsClosed);
}

#[test]
fn failed_transfer_still_closes_all_three_records() {
    let mut seq = TransferSequencer::begin(300, 1000);
    let asked = drive(&mut seq, &[true, true, true, true, false, true, true, true]);
    assert_eq!(
        &asked[5..],
        &[
            Action::CloseContext(ContextKind::Equality),
            Action::CloseContext(ContextKind::Validity),
            Action::CloseContext(ContextKind::Range),
            Action::Finished,
        ]
    );
    assert_eq!(seq.phase(), Phase::Aborted);
    assert_eq!(seq.failure(), Some(ErrorKind::TransferExecutionFailed));
    assert_eq!(seq.created(), 3);
    assert_eq!(seq.closed(), seq.created());
    assert!(!seq.transferred());
    assert_eq!(seq.remaining_balance(), 1000);
}

#[test]
fn failed_creation_closes_the_records_made_before_it() {
    let mut seq = TransferSequencer::begin(300, 1000);
    let asked = drive(&mut seq, &[true, true, true, false, true, true]);
    assert_eq!(
        &asked[4..],
        &[
            Action::CloseContext(ContextKind::Equality),
            Action::CloseContext(ContextKind::Validity),
            Action::Finished,
        ]
    );
    assert_eq!(seq.phase(), Phase::Aborted);
    assert_eq!(seq.failure(), Some(ErrorKind::ContextAccountCreationFailed));
    assert_eq!((seq.created(), seq.closed(), seq.close_failures()), (2, 2, 0));
}

#[test]
fn failed_first_creation_has_nothing_to_close() {
    let mut seq = TransferSequencer::begin(300, 1000);
    assert_eq!(seq.step(true), Action::CreateContext(ContextKind::Equality));
    assert_eq!(seq.step(false), Action::Finished);
    assert_eq!(seq.phase(), Phase::Aborted);
    assert_eq!(seq.failure(), Some(ErrorKind::ContextAccountCreationFailed));
    assert_eq!((seq.created(), seq.closed()), (0, 0));
}

#[test]
fn failed_proof_generation_aborts_before_any_record() {
    let mut seq = TransferSequencer::begin(300, 1000);
    assert_eq!(seq.step(false), Action::Finished);
    assert_eq!(seq.phase(), Phase::Aborted);
    assert_eq!(seq.failure(), Some(ErrorKind::ProofGenerationFailed));
    assert_eq!(seq.created(), 0);
    assert_eq!(seq.remaining_balance(), 1000);
}

#[test]
fn failed_close_after_the_transfer_is_a_warning() {
    let mut seq = TransferSequencer::begin(300, 1000);
    let asked = drive(&mut seq, &[true, true, true, true, true, true, false, true]);
    assert_eq!(asked[8], Action::Finished);
    assert_eq!(seq.phase(), Phase::ContextsClosed);
    assert_eq!(seq.failure(), None);
    assert!(seq.transferred());
    assert_eq!((seq.created(), seq.closed(), seq.close_failures()), (3, 2, 1));
    assert_eq!(seq.remaining_balance(), 700);
    let warning = seq.cleanup_warning().unwrap();
    assert_eq!(warning.kind(), ErrorKind::ContextAccountCloseFailed);
}

#[test]
fn failed_close_on_the_failure_path_keeps_the_first_failure() {
    let mut seq = TransferSequencer::begin(300, 1000);
    drive(&mut seq, &[true, true, true, true, false, false, true, false]);
    assert_eq!(seq.phase(), Phase::Aborted);
    assert_eq!(seq.failure(), Some(ErrorKind::TransferExecutionFailed));
    assert_eq!((seq.created(), seq.closed(), seq.close_failures()), (3, 1, 2));
}

#[test]
fn amount_above_the_balance_is_refused_at_once() {
    let mut seq = TransferSequencer::begin(800, 700);
    assert_eq!(seq.phase(), Phase::Aborted);
    assert_eq!(seq.pending(), Action::Finished);
    assert_eq!(seq.failure(), Some(ErrorKind::InsufficientBalance));
    assert_eq!(seq.created(), 0);
    assert_eq!(seq.step(true), Action::Finished);
    assert_eq!(seq.phase(), Phase::Aborted);
    assert_eq!(seq.remaining_balance(), 700);
}

#[test]
fn amount_equal_to_the_balance_is_accepted() {
    let seq = TransferSequencer::begin(700, 700);
    assert_eq!(seq.phase(), Phase::BalanceVerified);
    assert_eq!(seq.pending(), Action::GenerateProofs);
    assert_eq!((seq.amount(), seq.available()), (700, 700));
}

#[test]
fn finished_machine_ignores_further_outcomes() {
    let mut seq = TransferSequencer::begin(5, 10);
    drive(&mut seq, &[true; 8]);
    assert_eq!(seq.step(false), Action::Finished);
    assert_eq!(seq.phase(), Phase::ContextsClosed);
    assert_eq!((seq.created(), seq.closed(), seq.close_failures()), (3, 3, 0));
}

#[test]
fn every_run_of_eight_outcomes_closes_what_it_created() {
    for bits in 0u32..256 {
        let mut seq = TransferSequencer::begin(1, 2);
        for i in 0..8 {
            seq.step(bits & (1 << i) != 0);
        }
        assert!(seq.is_finished());
        assert_eq!(seq.closed() + seq.close_failures(), seq.created());
    }
}

#[test]
fn only_the_equality_record_is_made_in_one_transaction() {
    assert!(!ContextKind::Equality.two_phase());
    assert!(ContextKind::Validity.two_phase());
    assert!(ContextKind::Range.two_phase());
    assert_eq!(ContextKind::from_index(ContextKind::Range.index()), ContextKind::Range);
    assert_eq!(ContextKind::Validity.index(), 1);
}

#[test]
fn transfer_given_up_before_the_proofs_keeps_its_reason() {
    let mut seq = TransferSequencer::begin(300, 1000);
    assert_eq!(seq.abort(ErrorKind::ExtensionMissing), Action::Finished);
    assert_eq!(seq.phase(), Phase::Aborted);
    assert_eq!(seq.failure(), Some(ErrorKind::ExtensionMissing));
    assert_eq!(seq.created(), 0);
    assert_eq!(seq.remaining_balance(), 1000);
}

#[test]
fn giving_up_later_is_a_failure_of_the_pending_action() {
    let mut seq = TransferSequencer::begin(300, 1000);
    seq.step(true);
    seq.step(true);
    assert_eq!(
        seq.abort(ErrorKind::AccountNotFound),
        Action::CloseContext(ContextKind::Equality)
    );
    assert_eq!(seq.failure(), Some(ErrorKind::ContextAccountCreationFailed));
    assert_eq!(seq.step(true), Action::Finished);
    assert_eq!((seq.created(), seq.closed()), (1, 1));
}

#[test]
fn context_record_is_funded_and_owned_by_its_creator_and_closed_by_its_owner() {
    let record = ContextRecord::new(ContextKind::Range, [9; 32], [1; 32]);
    assert_eq!(record.kind, ContextKind::Range);
    assert_eq!(record.address, [9; 32]);
    assert_eq!(record.funded_by, [1; 32]);
    assert_eq!(record.owner, [1; 32]);
    assert!(record.two_phase());
    assert!(!ContextRecord::new(ContextKind::Equality, [8; 32], [1; 32]).two_phase());
    let request = record.close_request([7; 32]);
    assert_eq!(request.record, [9; 32]);
    assert_eq!(request.refund_destination, [7; 32]);
    assert_eq!(request.authority, [1; 32]);
}
