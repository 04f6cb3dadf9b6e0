//! The message model: candidate identities, validation verdicts, the
//! per-subsystem message enums, the one-shot reply slot embedded in
//! request-style messages, and the envelope in which the dispatcher
//! delivers messages and lifecycle signals to a subsystem.

use vstd::prelude::*;

verus! {

/// Identifies the unit of work a candidate performs for a parachain.
#[derive(Clone, Copy, PartialEq, Eq, Structural, Debug)]
pub struct CandidateDescriptor {
    /// The parachain this candidate belongs to.
    pub para_id: u32,
    /// Hash of the parachain head data produced by this candidate.
    pub para_head: u64,
}

/// A candidate receipt: the descriptor plus a commitment to its outputs.
#[derive(Clone, Copy, PartialEq, Eq, Structural, Debug)]
pub struct CandidateReceipt {
    /// The descriptor of the candidate.
    pub descriptor: CandidateDescriptor,
    /// Hash of the candidate's output commitments.
    pub commitments_hash: u64,
}

/// The ways a candidate can be found invalid.
#[derive(Clone, Copy, PartialEq, Eq, Structural, Debug)]
pub enum InvalidCandidate {
    /// The outputs the candidate committed to are not the outputs of
    /// executing it.
    InvalidOutputs,
    /// Executing the candidate failed.
    ExecutionError,
}

/// The verdict of validating a candidate.
#[derive(Clone, Copy, PartialEq, Eq, Structural, Debug)]
pub enum ValidationResult {
    /// The candidate is valid.
    Valid,
    /// The candidate is invalid, for the given reason.
    Invalid(InvalidCandidate),
}

/// A single-use reply slot embedded in a request-style message. Whoever
/// consumes the request owes exactly one reply through this slot; the
/// slot is consumed by [`ReplySlot::send`], so a second send is a
/// compile-time impossibility, not a runtime check.
#[derive(PartialEq, Eq, Structural, Debug)]
pub struct ReplySlot {
    /// Identifies the caller waiting on this reply.
    pub id: u64,
}

/// The record of a reply having been written to a slot: the slot's
/// identity together with the verdict that was sent.
#[derive(PartialEq, Eq, Structural, Debug)]
pub struct Reply {
    /// The identity of the reply slot that was answered.
    pub id: u64,
    /// The verdict that was sent to the waiting caller.
    pub result: ValidationResult,
}

impl ReplySlot {
    /// Answer the request this slot belongs to. Consumes the slot, so the
    /// reply is written at most once; the returned [`Reply`] is the proof
    /// that it was written.
    pub fn send(self, result: ValidationResult) -> (r: Reply)
        ensures
            r == (Reply { id: self.id, result }),
    {
        Reply { id: self.id, result }
    }
}

/// Messages accepted by the candidate-validation subsystem. Both variants
/// are requests: they carry a reply slot that must be answered exactly
/// once.
#[derive(PartialEq, Eq, Structural, Debug)]
pub enum CandidateValidationMessage {
    /// Validate a candidate using validation data looked up from chain
    /// state.
    ValidateFromChainState {
        /// The candidate to validate.
        descriptor: CandidateDescriptor,
        /// Where the verdict is owed.
        reply: ReplySlot,
    },
    /// Validate a candidate from exhaustively supplied validation data.
    ValidateFromExhaustive {
        /// The candidate to validate.
        descriptor: CandidateDescriptor,
        /// Where the verdict is owed.
        reply: ReplySlot,
    },
}

/// Messages accepted by the candidate-backing subsystem.
#[derive(PartialEq, Eq, Structural, Debug)]
pub enum CandidateBackingMessage {
    /// Ask the subsystem to second the given candidate.
    Second(CandidateReceipt),
    /// A statement about a candidate, with its claimed validity.
    Statement(CandidateReceipt, bool),
}

/// An approval vote for a candidate, as distributed on the network.
#[derive(Clone, Copy, PartialEq, Eq, Structural, Debug)]
pub struct ApprovalVote {
    /// The candidate being approved.
    pub candidate_hash: u64,
    /// The validator issuing the approval.
    pub validator_index: u32,
}

/// Messages accepted by the approval-distribution subsystem.
#[derive(PartialEq, Eq, Structural, Debug)]
pub enum ApprovalDistributionMessage {
    /// Distribute an approval vote for a candidate to the network.
    DistributeApproval(ApprovalVote),
}

/// Messages accepted by the dispute-coordinator subsystem.
#[derive(PartialEq, Eq, Structural, Debug)]
pub enum DisputeCoordinatorMessage {
    /// Import statements made by validators about a candidate.
    ImportStatements {
        /// The candidate the statements are about.
        candidate_hash: u64,
        /// The receipt of that candidate.
        candidate_receipt: CandidateReceipt,
        /// The session the statements belong to.
        session: u32,
    },
    /// Issue a local statement about the candidate: session, candidate
    /// hash, receipt, and the claimed validity.
    IssueLocalStatement(u32, u64, CandidateReceipt, bool),
}

/// The closed set of messages that can travel between subsystems, tagged
/// by destination.
#[derive(PartialEq, Eq, Structural, Debug)]
pub enum AllMessages {
    /// A message for the candidate-validation subsystem.
    CandidateValidation(CandidateValidationMessage),
    /// A message for the candidate-backing subsystem.
    CandidateBacking(CandidateBackingMessage),
    /// A message for the approval-distribution subsystem.
    ApprovalDistribution(ApprovalDistributionMessage),
    /// A message for the dispute-coordinator subsystem.
    DisputeCoordinator(DisputeCoordinatorMessage),
}

/// A lifecycle signal from the dispatcher, distinct from communication
/// payloads.
#[derive(Clone, Copy, PartialEq, Eq, Structural, Debug)]
pub enum OverseerSignal {
    /// A new active block to work on.
    ActiveLeaves(u64),
    /// A block was finalized.
    BlockFinalized(u64),
    /// One-way shutdown signal.
    Conclude,
}

/// What the dispatcher delivers to a subsystem: either a lifecycle signal
/// or a communication payload of the subsystem's own message type.
#[derive(PartialEq, Eq, Structural, Debug)]
pub enum FromOverseer<M> {
    /// A lifecycle signal.
    Signal(OverseerSignal),
    /// A communication payload.
    Communication {
        /// The payload.
        msg: M,
    },
}

/// A member of a subsystem's closed message set. The one thing the
/// interception layer needs to know of a message type is which of its
/// values are requests, and through which reply slot they expect their
/// answer.
pub trait SubsystemMessage: Sized {
    /// The identity of the reply slot this message carries, if it is a
    /// request-style message.
    spec fn request_id(&self) -> Option<u64>;
}

impl SubsystemMessage for CandidateValidationMessage {
    open spec fn request_id(&self) -> Option<u64> {
        match *self {
            CandidateValidationMessage::ValidateFromChainState { descriptor: _, reply } => Some(
                reply.id,
            ),
            CandidateValidationMessage::ValidateFromExhaustive { descriptor: _, reply } => Some(
                reply.id,
            ),
        }
    }
}

impl SubsystemMessage for CandidateBackingMessage {
    open spec fn request_id(&self) -> Option<u64> {
        None
    }
}

impl SubsystemMessage for ApprovalDistributionMessage {
    open spec fn request_id(&self) -> Option<u64> {
        None
    }
}

impl SubsystemMessage for DisputeCoordinatorMessage {
    open spec fn request_id(&self) -> Option<u64> {
        None
    }
}

impl SubsystemMessage for AllMessages {
    open spec fn request_id(&self) -> Option<u64> {
        match *self {
            AllMessages::CandidateValidation(m) => m.request_id(),
            AllMessages::CandidateBacking(m) => m.request_id(),
            AllMessages::ApprovalDistribution(m) => m.request_id(),
            AllMessages::DisputeCoordinator(m) => m.request_id(),
        }
    }
}

/// The identity of the reply slot an envelope carries: lifecycle signals
/// are never requests.
pub open spec fn envelope_request_id<M: SubsystemMessage>(env: FromOverseer<M>) -> Option<u64> {
    match env {
        FromOverseer::Signal(_) => None,
        FromOverseer::Communication { msg } => msg.request_id(),
    }
}

} // verus!
