//! The policy library: concrete adversarial interceptors built on the
//! generic capability. One disputes valid work on the way out of the
//! backing subsystem; the other fabricates negative validation verdicts
//! before requests ever reach the real validation subsystem.

use vstd::prelude::*;

use crate::interceptor::{
    answers_dropped_requests, answers_dropped_requests_outgoing, decision_answers,
    decision_answers_outgoing, Decision, MessageInterceptor,
};
use crate::messages::{
    AllMessages, ApprovalDistributionMessage, CandidateBackingMessage, CandidateValidationMessage,
    DisputeCoordinatorMessage, FromOverseer, InvalidCandidate, Reply, ValidationResult,
};

verus! {

/// Whether the validation-result policy is fabricating verdicts, and what
/// it fabricates. When disabled the policy is a pure pass-through.
#[derive(Clone, Copy, PartialEq, Eq, Structural, Debug)]
pub enum FakeCandidateValidation {
    /// Pass everything through unchanged.
    Disabled,
    /// Answer every validation request with an invalid-outputs verdict.
    InvalidOutputs,
}

/// Outbound-only policy on the backing subsystem: drop every approval the
/// subsystem tries to distribute, and turn every statement import into a
/// local statement disputing the same candidate in the same session.
#[derive(Clone, Copy, PartialEq, Eq, Structural, Debug)]
pub struct ReplaceApprovalsWithDisputes;

impl MessageInterceptor<CandidateBackingMessage> for ReplaceApprovalsWithDisputes {
    /// Inbound messages pass through unchanged.
    open spec fn incoming_spec(&self, env: FromOverseer<CandidateBackingMessage>) -> Decision<
        FromOverseer<CandidateBackingMessage>,
    > {
        Decision::Forward(env)
    }

    /// Approvals are dropped; statement imports become adverse local
    /// statements about the same candidate and session, with the validity
    /// flag negated to false; everything else passes through unchanged.
    open spec fn outgoing_spec(&self, msg: AllMessages) -> Decision<AllMessages> {
        match msg {
            AllMessages::ApprovalDistribution(
                ApprovalDistributionMessage::DistributeApproval(_),
            ) => Decision::Dropped,
            AllMessages::DisputeCoordinator(
                DisputeCoordinatorMessage::ImportStatements {
                    candidate_hash,
                    candidate_receipt,
                    session,
                },
            ) => Decision::Forward(
                AllMessages::DisputeCoordinator(
                    DisputeCoordinatorMessage::IssueLocalStatement(
                        session,
                        candidate_hash,
                        candidate_receipt,
                        false,
                    ),
                ),
            ),
            _ => Decision::Forward(msg),
        }
    }

    fn intercept_incoming(&self, env: FromOverseer<CandidateBackingMessage>) -> (r: Decision<
        FromOverseer<CandidateBackingMessage>,
    >) {
        Decision::Forward(env)
    }

    fn intercept_outgoing(&self, msg: AllMessages) -> (r: Decision<AllMessages>) {
        match msg {
            AllMessages::ApprovalDistribution(
                ApprovalDistributionMessage::DistributeApproval(_),
            ) => Decision::Dropped,
            AllMessages::DisputeCoordinator(
                DisputeCoordinatorMessage::ImportStatements {
                    candidate_hash,
                    candidate_receipt,
                    session,
                },
            ) => Decision::Forward(
                AllMessages::DisputeCoordinator(
                    DisputeCoordinatorMessage::IssueLocalStatement(
                        session,
                        candidate_hash,
                        candidate_receipt,
                        false,
                    ),
                ),
            ),
            other => Decision::Forward(other),
        }
    }
}

/// Inbound-only policy on the validation subsystem: when active, every
/// validation request is answered immediately through its reply slot with
/// an invalid-outputs verdict and then dropped, so the real subsystem
/// never validates anything; when disabled it is a pure pass-through.
#[derive(Clone, Copy, PartialEq, Eq, Structural, Debug)]
pub struct ReplaceValidationResult(pub FakeCandidateValidation);

impl MessageInterceptor<CandidateValidationMessage> for ReplaceValidationResult {
    /// When disabled, everything passes through unchanged. When active, a
    /// validation request (either variant) is dropped after its reply
    /// slot is answered with an invalid-outputs verdict; lifecycle
    /// signals still pass through.
    open spec fn incoming_spec(&self, env: FromOverseer<CandidateValidationMessage>) -> Decision<
        FromOverseer<CandidateValidationMessage>,
    > {
        if self.0 == FakeCandidateValidation::Disabled {
            Decision::Forward(env)
        } else {
            match env {
                FromOverseer::Communication {
                    msg: CandidateValidationMessage::ValidateFromExhaustive { descriptor: _, reply },
                } => Decision::Answered(
                    Reply {
                        id: reply.id,
                        result: ValidationResult::Invalid(InvalidCandidate::InvalidOutputs),
                    },
                ),
                FromOverseer::Communication {
                    msg: CandidateValidationMessage::ValidateFromChainState { descriptor: _, reply },
                } => Decision::Answered(
                    Reply {
                        id: reply.id,
                        result: ValidationResult::Invalid(InvalidCandidate::InvalidOutputs),
                    },
                ),
                other => Decision::Forward(other),
            }
        }
    }

    /// Outbound messages pass through unchanged.
    open spec fn outgoing_spec(&self, msg: AllMessages) -> Decision<AllMessages> {
        Decision::Forward(msg)
    }

    fn intercept_incoming(&self, env: FromOverseer<CandidateValidationMessage>) -> (r: Decision<
        FromOverseer<CandidateValidationMessage>,
    >) {
        if self.0 == FakeCandidateValidation::Disabled {
            return Decision::Forward(env);
        }
        match env {
            FromOverseer::Communication {
                msg: CandidateValidationMessage::ValidateFromExhaustive { descriptor: _, reply },
            } => {
                // Without checking the candidate, answer at once: faster
                // than any honest validator.
                let reply = reply.send(ValidationResult::Invalid(InvalidCandidate::InvalidOutputs));
                Decision::Answered(reply)
            },
            FromOverseer::Communication {
                msg: CandidateValidationMessage::ValidateFromChainState { descriptor: _, reply },
            } => {
                let reply = reply.send(ValidationResult::Invalid(InvalidCandidate::InvalidOutputs));
                Decision::Answered(reply)
            },
            other => Decision::Forward(other),
        }
    }

    fn intercept_outgoing(&self, msg: AllMessages) -> (r: Decision<AllMessages>) {
        Decision::Forward(msg)
    }
}

/// The dispute policy leaves no request unanswered, in either direction:
/// inbound it forwards everything, and the only outbound messages it
/// drops are approval distributions, which are notifications.
pub proof fn lemma_dispute_policy_answers(f: ReplaceApprovalsWithDisputes)
    ensures
        answers_dropped_requests::<CandidateBackingMessage, ReplaceApprovalsWithDisputes>(f),
        answers_dropped_requests_outgoing::<CandidateBackingMessage, ReplaceApprovalsWithDisputes>(
            f,
        ),
{
    assert forall|env: FromOverseer<CandidateBackingMessage>|
        decision_answers(env, #[trigger] f.incoming_spec(env)) by {}
    assert forall|msg: AllMessages|
        decision_answers_outgoing(msg, #[trigger] f.outgoing_spec(msg)) by {}
}

/// The fabricated-validation policy leaves no request unanswered, in
/// either direction, whether active or disabled: every request it drops
/// is answered through that request's own reply slot first.
pub proof fn lemma_validation_policy_answers(f: ReplaceValidationResult)
    ensures
        answers_dropped_requests::<CandidateValidationMessage, ReplaceValidationResult>(f),
        answers_dropped_requests_outgoing::<CandidateValidationMessage, ReplaceValidationResult>(f),
{
    assert forall|env: FromOverseer<CandidateValidationMessage>|
        decision_answers(env, #[trigger] f.incoming_spec(env)) by {}
    assert forall|msg: AllMessages|
        decision_answers_outgoing(msg, #[trigger] f.outgoing_spec(msg)) by {}
}

} // verus!
