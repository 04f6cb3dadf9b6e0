//! The decorator's relay: lifecycle, order preservation across drops,
//! drop transparency, and exactly-once replies over whole batches.

use malus::interceptor::{Decision, Identity, InterceptedSubsystem, RelayState};
use malus::messages::{
    AllMessages, ApprovalDistributionMessage, ApprovalVote, CandidateBackingMessage,
    CandidateDescriptor, CandidateReceipt, CandidateValidationMessage, DisputeCoordinatorMessage,
    FromOverseer, InvalidCandidate, OverseerSignal, Reply, ReplySlot, ValidationResult,
};
use malus::policies::{
    FakeCandidateValidation, ReplaceApprovalsWithDisputes, ReplaceValidationResult,
};

fn receipt(para_id: u32, para_head: u64) -> CandidateReceipt {
    CandidateReceipt {
        descriptor: CandidateDescriptor { para_id, para_head },
        commitments_hash: 0,
    }
}

fn request(id: u64) -> FromOverseer<CandidateValidationMessage> {
    FromOverseer::Communication {
        msg: CandidateValidationMessage::ValidateFromExhaustive {
            descriptor: CandidateDescriptor { para_id: 1, para_head: id },
            reply: ReplySlot { id },
        },
    }
}

#[test]
fn decorator_lifecycle_runs_initializing_running_stopped() {
    let mut d = InterceptedSubsystem::new((), Identity);
    assert_eq!(d.state, RelayState::Initializing);
    d.start();
    assert_eq!(d.state, RelayState::Running);
    d.stop();
    assert_eq!(d.state, RelayState::Stopped);
}

#[test]
fn identity_relay_forwards_whole_batch_in_order() {
    let mut d = InterceptedSubsystem::new((), Identity);
    d.start();
    let inputs: Vec<FromOverseer<CandidateBackingMessage>> = vec![
        FromOverseer::Signal(OverseerSignal::ActiveLeaves(1)),
        FromOverseer::Communication { msg: CandidateBackingMessage::Second(receipt(1, 2)) },
        FromOverseer::Signal(OverseerSignal::Conclude),
    ];
    let (forwarded, replies) = d.relay_incoming(inputs);
    let expected: Vec<FromOverseer<CandidateBackingMessage>> = vec![
        FromOverseer::Signal(OverseerSignal::ActiveLeaves(1)),
        FromOverseer::Communication { msg: CandidateBackingMessage::Second(receipt(1, 2)) },
        FromOverseer::Signal(OverseerSignal::Conclude),
    ];
    assert_eq!(forwarded, expected);
    assert!(replies.is_empty());
}

#[test]
fn active_validation_relay_answers_each_request_once_and_keeps_order() {
    let mut d = InterceptedSubsystem::new(
        (),
        ReplaceValidationResult(FakeCandidateValidation::InvalidOutputs),
    );
    d.start();
    let inputs = vec![
        request(10),
        FromOverseer::Signal(OverseerSignal::ActiveLeaves(5)),
        request(11),
        FromOverseer::Signal(OverseerSignal::BlockFinalized(4)),
    ];
    let (forwarded, replies) = d.relay_incoming(inputs);
    // The requests never reach the subsystem; the signals pass, in order.
    let expected_forwarded: Vec<FromOverseer<CandidateValidationMessage>> = vec![
        FromOverseer::Signal(OverseerSignal::ActiveLeaves(5)),
        FromOverseer::Signal(OverseerSignal::BlockFinalized(4)),
    ];
    assert_eq!(forwarded, expected_forwarded);
    // Each dropped request was answered exactly once, in arrival order.
    let expected_replies = vec![
        Reply { id: 10, result: ValidationResult::Invalid(InvalidCandidate::InvalidOutputs) },
        Reply { id: 11, result: ValidationResult::Invalid(InvalidCandidate::InvalidOutputs) },
    ];
    assert_eq!(replies, expected_replies);
}

#[test]
fn disabled_validation_relay_is_pure_pass_through() {
    let mut d = InterceptedSubsystem::new(
        (),
        ReplaceValidationResult(FakeCandidateValidation::Disabled),
    );
    d.start();
    let inputs = vec![request(10), request(11)];
    let (forwarded, replies) = d.relay_incoming(inputs);
    assert_eq!(forwarded, vec![request(10), request(11)]);
    assert!(replies.is_empty());
}

#[test]
fn dispute_relay_drops_approvals_and_rewrites_imports_preserving_order() {
    let mut d = InterceptedSubsystem::new((), ReplaceApprovalsWithDisputes);
    d.start();
    let outputs = vec![
        AllMessages::CandidateBacking(CandidateBackingMessage::Second(receipt(1, 1))),
        AllMessages::ApprovalDistribution(ApprovalDistributionMessage::DistributeApproval(
            ApprovalVote { candidate_hash: 50, validator_index: 2 },
        )),
        AllMessages::DisputeCoordinator(DisputeCoordinatorMessage::ImportStatements {
            candidate_hash: 60,
            candidate_receipt: receipt(2, 60),
            session: 3,
        }),
        AllMessages::CandidateBacking(CandidateBackingMessage::Statement(receipt(1, 1), true)),
    ];
    let (forwarded, replies) = d.relay_outgoing::<CandidateBackingMessage>(outputs);
    let expected = vec![
        AllMessages::CandidateBacking(CandidateBackingMessage::Second(receipt(1, 1))),
        AllMessages::DisputeCoordinator(DisputeCoordinatorMessage::IssueLocalStatement(
            3,
            60,
            receipt(2, 60),
            false,
        )),
        AllMessages::CandidateBacking(CandidateBackingMessage::Statement(receipt(1, 1), true)),
    ];
    assert_eq!(forwarded, expected);
    assert!(replies.is_empty());
    // The dropped approval reaches nothing: no forwarded message mentions
    // candidate 50.
    for m in &forwarded {
        if let AllMessages::ApprovalDistribution(_) = m {
            panic!("a dropped approval-distribution message was forwarded");
        }
    }
}

#[test]
fn dispute_relay_forwards_nothing_from_all_approvals() {
    let mut d = InterceptedSubsystem::new((), ReplaceApprovalsWithDisputes);
    d.start();
    let outputs = vec![
        AllMessages::ApprovalDistribution(ApprovalDistributionMessage::DistributeApproval(
            ApprovalVote { candidate_hash: 1, validator_index: 1 },
        )),
        AllMessages::ApprovalDistribution(ApprovalDistributionMessage::DistributeApproval(
            ApprovalVote { candidate_hash: 2, validator_index: 2 },
        )),
    ];
    let (forwarded, replies) = d.relay_outgoing::<CandidateBackingMessage>(outputs);
    assert!(forwarded.is_empty());
    assert!(replies.is_empty());
}

#[test]
fn decision_variants_compare_by_contents() {
    let a: Decision<FromOverseer<CandidateValidationMessage>> = Decision::Dropped;
    let b: Decision<FromOverseer<CandidateValidationMessage>> = Decision::Dropped;
    assert_eq!(a, b);
    assert_ne!(
        Decision::<FromOverseer<CandidateValidationMessage>>::Answered(Reply {
            id: 1,
            result: ValidationResult::Valid,
        }),
        Decision::<FromOverseer<CandidateValidationMessage>>::Answered(Reply {
            id: 2,
            result: ValidationResult::Valid,
        })
    );
}
