//! Dispatcher composition: construction completeness, last-write-wins
//! substitution, routing, and the generated adversarial overseer.

use malus::interceptor::{Decision, InterceptedSubsystem, MessageInterceptor, RelayState};
use malus::messages::{
    AllMessages, ApprovalDistributionMessage, ApprovalVote, CandidateBackingMessage,
    CandidateDescriptor, CandidateValidationMessage, DisputeCoordinatorMessage, FromOverseer,
    InvalidCandidate, Reply, ReplySlot, ValidationResult,
};
use malus::overseer::{
    ApprovalDistributionSubsystem, BackingSlot, CandidateBackingSubsystem,
    CandidateValidationSubsystem, ConfigError, DisputeCoordinatorSubsystem, DisputeValidCandidates,
    Overseer, OverseerBuilder, SlotName, ValidationSlot,
};
use malus::policies::{
    FakeCandidateValidation, ReplaceApprovalsWithDisputes, ReplaceValidationResult,
};

#[test]
fn empty_builder_fails_naming_the_first_missing_slot() {
    let r = OverseerBuilder::empty().build();
    assert_eq!(r.err(), Some(ConfigError::MissingSlot(SlotName::CandidateValidation)));
}

#[test]
fn each_missing_slot_is_named() {
    let r = OverseerBuilder::empty()
        .replace_candidate_validation(ValidationSlot::Real(CandidateValidationSubsystem))
        .build();
    assert_eq!(r.err(), Some(ConfigError::MissingSlot(SlotName::CandidateBacking)));

    let r = OverseerBuilder::empty()
        .replace_candidate_validation(ValidationSlot::Real(CandidateValidationSubsystem))
        .replace_candidate_backing(BackingSlot::Real(CandidateBackingSubsystem))
        .build();
    assert_eq!(r.err(), Some(ConfigError::MissingSlot(SlotName::ApprovalDistribution)));

    let r = OverseerBuilder::empty()
        .replace_candidate_validation(ValidationSlot::Real(CandidateValidationSubsystem))
        .replace_candidate_backing(BackingSlot::Real(CandidateBackingSubsystem))
        .set_approval_distribution(ApprovalDistributionSubsystem)
        .build();
    assert_eq!(r.err(), Some(ConfigError::MissingSlot(SlotName::DisputeCoordinator)));
}

#[test]
fn fully_populated_builder_builds_before_anything_runs() {
    let r = OverseerBuilder::empty()
        .replace_candidate_validation(ValidationSlot::Real(CandidateValidationSubsystem))
        .replace_candidate_backing(BackingSlot::Real(CandidateBackingSubsystem))
        .set_approval_distribution(ApprovalDistributionSubsystem)
        .set_dispute_coordinator(DisputeCoordinatorSubsystem)
        .build();
    assert!(r.is_ok());
}

#[test]
fn prepared_builder_builds_with_real_slots() {
    let ov = OverseerBuilder::prepared().build().unwrap();
    assert!(matches!(ov.candidate_validation, ValidationSlot::Real(_)));
    assert!(matches!(ov.candidate_backing, BackingSlot::Real(_)));
}

#[test]
fn replacing_a_slot_twice_keeps_the_last_replacement() {
    let ov = OverseerBuilder::prepared()
        .replace_candidate_validation(ValidationSlot::Intercepted(InterceptedSubsystem::new(
            CandidateValidationSubsystem,
            ReplaceValidationResult(FakeCandidateValidation::Disabled),
        )))
        .replace_candidate_validation(ValidationSlot::Intercepted(InterceptedSubsystem::new(
            CandidateValidationSubsystem,
            ReplaceValidationResult(FakeCandidateValidation::InvalidOutputs),
        )))
        .build()
        .unwrap();
    match ov.candidate_validation {
        ValidationSlot::Intercepted(d) => {
            assert_eq!(d.filter, ReplaceValidationResult(FakeCandidateValidation::InvalidOutputs));
        }
        ValidationSlot::Real(_) => panic!("the slot was not replaced"),
    }
}

#[test]
fn routing_is_by_destination_and_ignores_decoration() {
    let m = AllMessages::ApprovalDistribution(ApprovalDistributionMessage::DistributeApproval(
        ApprovalVote { candidate_hash: 1, validator_index: 1 },
    ));
    assert_eq!(Overseer::route(&m), SlotName::ApprovalDistribution);
    let m = AllMessages::DisputeCoordinator(DisputeCoordinatorMessage::ImportStatements {
        candidate_hash: 1,
        candidate_receipt: malus::messages::CandidateReceipt {
            descriptor: CandidateDescriptor { para_id: 1, para_head: 1 },
            commitments_hash: 1,
        },
        session: 1,
    });
    assert_eq!(Overseer::route(&m), SlotName::DisputeCoordinator);
}

#[test]
fn default_generator_fabricates_nothing() {
    let gen = DisputeValidCandidates::default();
    assert_eq!(gen.fake_candidate_validation, FakeCandidateValidation::Disabled);
}

#[test]
fn new_keeps_the_fabrication_flag() {
    let gen = DisputeValidCandidates::new(FakeCandidateValidation::InvalidOutputs);
    assert_eq!(gen.fake_candidate_validation, FakeCandidateValidation::InvalidOutputs);
}

#[test]
fn generate_decorates_exactly_the_two_slots() {
    let ov = DisputeValidCandidates::new(FakeCandidateValidation::InvalidOutputs)
        .generate()
        .unwrap();
    match &ov.candidate_validation {
        ValidationSlot::Intercepted(d) => {
            assert_eq!(d.filter, ReplaceValidationResult(FakeCandidateValidation::InvalidOutputs));
            assert_eq!(d.state, RelayState::Initializing);
        }
        ValidationSlot::Real(_) => panic!("the validation slot was not decorated"),
    }
    match &ov.candidate_backing {
        BackingSlot::Intercepted(d) => {
            assert_eq!(d.filter, ReplaceApprovalsWithDisputes);
            assert_eq!(d.state, RelayState::Initializing);
        }
        BackingSlot::Real(_) => panic!("the backing slot was not decorated"),
    }
}

#[test]
fn generated_overseer_fabricates_invalid_outputs_for_validation_requests() {
    let ov = DisputeValidCandidates::new(FakeCandidateValidation::InvalidOutputs)
        .generate()
        .unwrap();
    let env = FromOverseer::Communication {
        msg: CandidateValidationMessage::ValidateFromExhaustive {
            descriptor: CandidateDescriptor { para_id: 4, para_head: 8 },
            reply: ReplySlot { id: 21 },
        },
    };
    assert_eq!(
        ov.deliver_validation(env),
        Decision::Answered(Reply {
            id: 21,
            result: ValidationResult::Invalid(InvalidCandidate::InvalidOutputs),
        })
    );
}

#[test]
fn generated_overseer_with_disabled_flag_passes_validation_through() {
    let ov = DisputeValidCandidates::new(FakeCandidateValidation::Disabled).generate().unwrap();
    let env = FromOverseer::Communication {
        msg: CandidateValidationMessage::ValidateFromChainState {
            descriptor: CandidateDescriptor { para_id: 4, para_head: 8 },
            reply: ReplySlot { id: 21 },
        },
    };
    let expected = FromOverseer::Communication {
        msg: CandidateValidationMessage::ValidateFromChainState {
            descriptor: CandidateDescriptor { para_id: 4, para_head: 8 },
            reply: ReplySlot { id: 21 },
        },
    };
    assert_eq!(ov.deliver_validation(env), Decision::Forward(expected));
}

#[test]
fn generated_overseer_drops_approvals_the_backing_subsystem_emits() {
    let ov = DisputeValidCandidates::new(FakeCandidateValidation::Disabled).generate().unwrap();
    let msg = AllMessages::ApprovalDistribution(ApprovalDistributionMessage::DistributeApproval(
        ApprovalVote { candidate_hash: 77, validator_index: 3 },
    ));
    assert_eq!(ov.backing_outgoing(msg), Decision::Dropped);
}

#[test]
fn undecorated_overseer_delivers_backing_messages_as_is() {
    let ov = OverseerBuilder::prepared().build().unwrap();
    let env = FromOverseer::Communication {
        msg: CandidateBackingMessage::Second(malus::messages::CandidateReceipt {
            descriptor: CandidateDescriptor { para_id: 1, para_head: 1 },
            commitments_hash: 1,
        }),
    };
    let expected = FromOverseer::Communication {
        msg: CandidateBackingMessage::Second(malus::messages::CandidateReceipt {
            descriptor: CandidateDescriptor { para_id: 1, para_head: 1 },
            commitments_hash: 1,
        }),
    };
    assert_eq!(ov.deliver_backing(env), Decision::Forward(expected));

    let policy = ReplaceValidationResult(FakeCandidateValidation::InvalidOutputs);
    let out = AllMessages::CandidateBacking(CandidateBackingMessage::Statement(
        malus::messages::CandidateReceipt {
            descriptor: CandidateDescriptor { para_id: 1, para_head: 1 },
            commitments_hash: 1,
        },
        true,
    ));
    // An outbound pass-through policy leaves even a decorated slot's
    // emissions unchanged.
    let expected_out = AllMessages::CandidateBacking(CandidateBackingMessage::Statement(
        malus::messages::CandidateReceipt {
            descriptor: CandidateDescriptor { para_id: 1, para_head: 1 },
            commitments_hash: 1,
        },
        true,
    ));
    assert_eq!(policy.intercept_outgoing(out), Decision::Forward(expected_out));
}
