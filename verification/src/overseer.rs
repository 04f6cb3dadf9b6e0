//! Dispatcher composition: the fixed set of named subsystem slots, the
//! builder that populates them (with a substitution operation that swaps
//! a slot's constructor for a user-supplied one), the built overseer with
//! its routing, and the generator that assembles an overseer whose
//! backing and validation slots are decorated with the adversarial
//! policies.

use vstd::prelude::*;

use crate::interceptor::{Decision, InterceptedSubsystem, MessageInterceptor, RelayState};
use crate::messages::{AllMessages, CandidateBackingMessage, CandidateValidationMessage,
    FromOverseer};
use crate::policies::{FakeCandidateValidation, ReplaceApprovalsWithDisputes,
    ReplaceValidationResult};

verus! {

/// Stand-in for the real candidate-validation subsystem, an external
/// collaborator whose implementation is out of scope here.
#[derive(Clone, Copy, PartialEq, Eq, Structural, Debug)]
pub struct CandidateValidationSubsystem;

/// Stand-in for the real candidate-backing subsystem.
#[derive(Clone, Copy, PartialEq, Eq, Structural, Debug)]
pub struct CandidateBackingSubsystem;

/// Stand-in for the real approval-distribution subsystem.
#[derive(Clone, Copy, PartialEq, Eq, Structural, Debug)]
pub struct ApprovalDistributionSubsystem;

/// Stand-in for the real dispute-coordinator subsystem.
#[derive(Clone, Copy, PartialEq, Eq, Structural, Debug)]
pub struct DisputeCoordinatorSubsystem;

/// What the validation slot holds: the real subsystem, or the real
/// subsystem decorated with the fabricated-validation-result policy. The
/// slot's message contract is the same either way.
pub enum ValidationSlot {
    /// The undecorated subsystem.
    Real(CandidateValidationSubsystem),
    /// The subsystem wrapped in an interceptor.
    Intercepted(InterceptedSubsystem<CandidateValidationSubsystem, ReplaceValidationResult>),
}

/// What the backing slot holds: real, or decorated with the
/// selective-dispute policy.
pub enum BackingSlot {
    /// The undecorated subsystem.
    Real(CandidateBackingSubsystem),
    /// The subsystem wrapped in an interceptor.
    Intercepted(InterceptedSubsystem<CandidateBackingSubsystem, ReplaceApprovalsWithDisputes>),
}

/// The names of the dispatcher's required slots.
#[derive(Clone, Copy, PartialEq, Eq, Structural, Debug)]
pub enum SlotName {
    /// The candidate-validation slot.
    CandidateValidation,
    /// The candidate-backing slot.
    CandidateBacking,
    /// The approval-distribution slot.
    ApprovalDistribution,
    /// The dispute-coordinator slot.
    DisputeCoordinator,
}

/// A fatal construction-time error: the graph cannot be built.
#[derive(Clone, Copy, PartialEq, Eq, Structural, Debug)]
pub enum ConfigError {
    /// A required slot was never populated.
    MissingSlot(SlotName),
}

/// The dispatcher builder: one field per required slot, each holding
/// either nothing yet or the subsystem (real or decorated) that will
/// occupy the slot. Replacement is a configuration-time operation; once
/// [`OverseerBuilder::build`] succeeds, the slot assignment is fixed for
/// the life of the graph.
pub struct OverseerBuilder {
    /// The candidate-validation slot, if populated.
    pub candidate_validation: Option<ValidationSlot>,
    /// The candidate-backing slot, if populated.
    pub candidate_backing: Option<BackingSlot>,
    /// The approval-distribution slot, if populated.
    pub approval_distribution: Option<ApprovalDistributionSubsystem>,
    /// The dispute-coordinator slot, if populated.
    pub dispute_coordinator: Option<DisputeCoordinatorSubsystem>,
}

/// The built dispatcher graph: every required slot populated, fixed for
/// the process lifetime.
pub struct Overseer {
    /// The candidate-validation slot.
    pub candidate_validation: ValidationSlot,
    /// The candidate-backing slot.
    pub candidate_backing: BackingSlot,
    /// The approval-distribution slot.
    pub approval_distribution: ApprovalDistributionSubsystem,
    /// The dispute-coordinator slot.
    pub dispute_coordinator: DisputeCoordinatorSubsystem,
}

impl OverseerBuilder {
    /// A builder with no slot populated.
    pub fn empty() -> (r: Self)
        ensures
            r.candidate_validation is None,
            r.candidate_backing is None,
            r.approval_distribution is None,
            r.dispute_coordinator is None,
    {
        OverseerBuilder {
            candidate_validation: None,
            candidate_backing: None,
            approval_distribution: None,
            dispute_coordinator: None,
        }
    }

    /// A builder with every slot populated by its default (real)
    /// subsystem, as the node would run it without interception.
    pub fn prepared() -> (r: Self)
        ensures
            r.candidate_validation == Some(ValidationSlot::Real(CandidateValidationSubsystem)),
            r.candidate_backing == Some(BackingSlot::Real(CandidateBackingSubsystem)),
            r.approval_distribution == Some(ApprovalDistributionSubsystem),
            r.dispute_coordinator == Some(DisputeCoordinatorSubsystem),
    {
        OverseerBuilder {
            candidate_validation: Some(ValidationSlot::Real(CandidateValidationSubsystem)),
            candidate_backing: Some(BackingSlot::Real(CandidateBackingSubsystem)),
            approval_distribution: Some(ApprovalDistributionSubsystem),
            dispute_coordinator: Some(DisputeCoordinatorSubsystem),
        }
    }

    /// Replace what the candidate-validation slot will hold. Purely
    /// structural: no other slot and no routing changes; a second
    /// replacement overwrites the first (last write wins).
    pub fn replace_candidate_validation(self, slot: ValidationSlot) -> (r: Self)
        ensures
            r.candidate_validation == Some(slot),
            r.candidate_backing == self.candidate_backing,
            r.approval_distribution == self.approval_distribution,
            r.dispute_coordinator == self.dispute_coordinator,
    {
        OverseerBuilder { candidate_validation: Some(slot), ..self }
    }

    /// Replace what the candidate-backing slot will hold. Purely
    /// structural, last write wins.
    pub fn replace_candidate_backing(self, slot: BackingSlot) -> (r: Self)
        ensures
            r.candidate_backing == Some(slot),
            r.candidate_validation == self.candidate_validation,
            r.approval_distribution == self.approval_distribution,
            r.dispute_coordinator == self.dispute_coordinator,
    {
        OverseerBuilder { candidate_backing: Some(slot), ..self }
    }

    /// Populate the approval-distribution slot. Last write wins.
    pub fn set_approval_distribution(self, subsystem: ApprovalDistributionSubsystem) -> (r: Self)
        ensures
            r.approval_distribution == Some(subsystem),
            r.candidate_validation == self.candidate_validation,
            r.candidate_backing == self.candidate_backing,
            r.dispute_coordinator == self.dispute_coordinator,
    {
        OverseerBuilder { approval_distribution: Some(subsystem), ..self }
    }

    /// Populate the dispute-coordinator slot. Last write wins.
    pub fn set_dispute_coordinator(self, subsystem: DisputeCoordinatorSubsystem) -> (r: Self)
        ensures
            r.dispute_coordinator == Some(subsystem),
            r.candidate_validation == self.candidate_validation,
            r.candidate_backing == self.candidate_backing,
            r.approval_distribution == self.approval_distribution,
    {
        OverseerBuilder { dispute_coordinator: Some(subsystem), ..self }
    }

    /// Build the graph. Succeeds exactly when every required slot is
    /// populated, and then the graph holds exactly what the builder held;
    /// otherwise it fails before anything starts running, naming the
    /// first missing slot in declaration order.
    pub fn build(self) -> (r: Result<Overseer, ConfigError>)
        ensures
            r is Ok <==> {
                &&& self.candidate_validation is Some
                &&& self.candidate_backing is Some
                &&& self.approval_distribution is Some
                &&& self.dispute_coordinator is Some
            },
            r matches Ok(ov) ==> {
                &&& Some(ov.candidate_validation) == self.candidate_validation
                &&& Some(ov.candidate_backing) == self.candidate_backing
                &&& Some(ov.approval_distribution) == self.approval_distribution
                &&& Some(ov.dispute_coordinator) == self.dispute_coordinator
            },
            self.candidate_validation is None ==> r == Err::<Overseer, ConfigError>(
                ConfigError::MissingSlot(SlotName::CandidateValidation),
            ),
            self.candidate_validation is Some && self.candidate_backing is None ==> r == Err::<
                Overseer,
                ConfigError,
            >(ConfigError::MissingSlot(SlotName::CandidateBacking)),
            self.candidate_validation is Some && self.candidate_backing is Some
                && self.approval_distribution is None ==> r == Err::<Overseer, ConfigError>(
                ConfigError::MissingSlot(SlotName::ApprovalDistribution),
            ),
            self.candidate_validation is Some && self.candidate_backing is Some
                && self.approval_distribution is Some && self.dispute_coordinator is None ==> r
                == Err::<Overseer, ConfigError>(ConfigError::MissingSlot(
                SlotName::DisputeCoordinator,
            )),
    {
        let OverseerBuilder {
            candidate_validation,
            candidate_backing,
            approval_distribution,
            dispute_coordinator,
        } = self;
        let candidate_validation = match candidate_validation {
            Some(v) => v,
            None => {
                return Err(ConfigError::MissingSlot(SlotName::CandidateValidation));
            },
        };
        let candidate_backing = match candidate_backing {
            Some(b) => b,
            None => {
                return Err(ConfigError::MissingSlot(SlotName::CandidateBacking));
            },
        };
        let approval_distribution = match approval_distribution {
            Some(a) => a,
            None => {
                return Err(ConfigError::MissingSlot(SlotName::ApprovalDistribution));
            },
        };
        let dispute_coordinator = match dispute_coordinator {
            Some(d) => d,
            None => {
                return Err(ConfigError::MissingSlot(SlotName::DisputeCoordinator));
            },
        };
        Ok(
            Overseer {
                candidate_validation,
                candidate_backing,
                approval_distribution,
                dispute_coordinator,
            },
        )
    }
}

impl Overseer {
    /// Which slot a message is routed to, by its destination tag. Routing
    /// does not depend on whether the destination is decorated.
    pub open spec fn spec_route(msg: AllMessages) -> SlotName {
        match msg {
            AllMessages::CandidateValidation(_) => SlotName::CandidateValidation,
            AllMessages::CandidateBacking(_) => SlotName::CandidateBacking,
            AllMessages::ApprovalDistribution(_) => SlotName::ApprovalDistribution,
            AllMessages::DisputeCoordinator(_) => SlotName::DisputeCoordinator,
        }
    }

    /// Route a message to its destination slot.
    pub fn route(msg: &AllMessages) -> (r: SlotName)
        ensures
            r == Self::spec_route(*msg),
    {
        match msg {
            AllMessages::CandidateValidation(_) => SlotName::CandidateValidation,
            AllMessages::CandidateBacking(_) => SlotName::CandidateBacking,
            AllMessages::ApprovalDistribution(_) => SlotName::ApprovalDistribution,
            AllMessages::DisputeCoordinator(_) => SlotName::DisputeCoordinator,
        }
    }

    /// What delivering one envelope to the validation slot comes to: an
    /// undecorated slot receives it as-is, a decorated one receives what
    /// its policy decides.
    pub open spec fn spec_deliver_validation(
        self,
        env: FromOverseer<CandidateValidationMessage>,
    ) -> Decision<FromOverseer<CandidateValidationMessage>> {
        match self.candidate_validation {
            ValidationSlot::Real(_) => Decision::Forward(env),
            ValidationSlot::Intercepted(d) => d.filter.incoming_spec(env),
        }
    }

    /// Deliver one envelope toward the validation slot, through its
    /// interceptor if the slot is decorated.
    pub fn deliver_validation(&self, env: FromOverseer<CandidateValidationMessage>) -> (r: Decision<
        FromOverseer<CandidateValidationMessage>,
    >)
        ensures
            r == self.spec_deliver_validation(env),
    {
        match &self.candidate_validation {
            ValidationSlot::Real(_) => Decision::Forward(env),
            ValidationSlot::Intercepted(d) => d.filter.intercept_incoming(env),
        }
    }

    /// What delivering one envelope to the backing slot comes to.
    pub open spec fn spec_deliver_backing(self, env: FromOverseer<CandidateBackingMessage>) -> Decision<
        FromOverseer<CandidateBackingMessage>,
    > {
        match self.candidate_backing {
            BackingSlot::Real(_) => Decision::Forward(env),
            BackingSlot::Intercepted(d) => d.filter.incoming_spec(env),
        }
    }

    /// Deliver one envelope toward the backing slot, through its
    /// interceptor if the slot is decorated.
    pub fn deliver_backing(&self, env: FromOverseer<CandidateBackingMessage>) -> (r: Decision<
        FromOverseer<CandidateBackingMessage>,
    >)
        ensures
            r == self.spec_deliver_backing(env),
    {
        match &self.candidate_backing {
            BackingSlot::Real(_) => Decision::Forward(env),
            BackingSlot::Intercepted(d) => d.filter.intercept_incoming(env),
        }
    }

    /// What one message emitted by the backing subsystem comes to before
    /// the dispatcher routes it onward.
    pub open spec fn spec_backing_outgoing(self, msg: AllMessages) -> Decision<AllMessages> {
        match self.candidate_backing {
            BackingSlot::Real(_) => Decision::Forward(msg),
            BackingSlot::Intercepted(d) => d.filter.outgoing_spec(msg),
        }
    }

    /// Pass one message the backing subsystem emits through its slot's
    /// interceptor, if any, before routing.
    pub fn backing_outgoing(&self, msg: AllMessages) -> (r: Decision<AllMessages>)
        ensures
            r == self.spec_backing_outgoing(msg),
    {
        match &self.candidate_backing {
            BackingSlot::Real(_) => Decision::Forward(msg),
            BackingSlot::Intercepted(d) => d.filter.intercept_outgoing(msg),
        }
    }
}

/// Generates an overseer that disputes instead of approving valid
/// candidates: the backing slot is decorated with the selective-dispute
/// policy, the validation slot with the fabricated-validation-result
/// policy under the configured flag.
pub struct DisputeValidCandidates {
    /// Whether (and how) validation results are fabricated.
    pub fake_candidate_validation: FakeCandidateValidation,
}

impl Default for DisputeValidCandidates {
    /// The default generator fabricates nothing.
    fn default() -> (r: Self)
        ensures
            r.fake_candidate_validation == FakeCandidateValidation::Disabled,
    {
        DisputeValidCandidates { fake_candidate_validation: FakeCandidateValidation::Disabled }
    }
}

impl DisputeValidCandidates {
    /// A generator with the given fabrication flag.
    pub fn new(fake_candidate_validation: FakeCandidateValidation) -> (r: Self)
        ensures
            r.fake_candidate_validation == fake_candidate_validation,
    {
        DisputeValidCandidates { fake_candidate_validation }
    }

    /// Assemble the full graph from the prepared defaults, with exactly
    /// two substitutions: the backing slot decorated with the dispute
    /// policy and the validation slot decorated with the fabrication
    /// policy (carrying this generator's flag). Construction always
    /// succeeds, every slot is populated, no other slot is altered, and
    /// both decorators start out initializing.
    pub fn generate(&self) -> (r: Result<Overseer, ConfigError>)
        ensures
            r matches Ok(ov) && ov == (Overseer {
                candidate_validation: ValidationSlot::Intercepted(
                    InterceptedSubsystem {
                        subsystem: CandidateValidationSubsystem,
                        filter: ReplaceValidationResult(self.fake_candidate_validation),
                        state: RelayState::Initializing,
                    },
                ),
                candidate_backing: BackingSlot::Intercepted(
                    InterceptedSubsystem {
                        subsystem: CandidateBackingSubsystem,
                        filter: ReplaceApprovalsWithDisputes,
                        state: RelayState::Initializing,
                    },
                ),
                approval_distribution: ApprovalDistributionSubsystem,
                dispute_coordinator: DisputeCoordinatorSubsystem,
            }),
    {
        let backing_filter = ReplaceApprovalsWithDisputes;
        let validation_filter = ReplaceValidationResult(self.fake_candidate_validation);
        OverseerBuilder::prepared().replace_candidate_backing(
            BackingSlot::Intercepted(
                InterceptedSubsystem::new(CandidateBackingSubsystem, backing_filter),
            ),
        ).replace_candidate_validation(
            ValidationSlot::Intercepted(
                InterceptedSubsystem::new(CandidateValidationSubsystem, validation_filter),
            ),
        ).build()
    }
}

} // verus!
