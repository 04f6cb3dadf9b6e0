//! The interception capability: the decision an interceptor takes on each
//! message, the interceptor interface itself, the identity policy, and the
//! decorator that owns a wrapped subsystem together with its interceptor
//! and relays messages in both directions through the policy.

use vstd::prelude::*;

use crate::messages::{envelope_request_id, AllMessages, FromOverseer, Reply, SubsystemMessage};

verus! {

/// What an interceptor decided to do with one message: forward it
/// (possibly rewritten), drop it silently, or drop it after answering its
/// reply slot. A request may only be dropped the third way; the carried
/// [`Reply`] is the record of the slot having been written.
#[derive(PartialEq, Eq, Structural, Debug)]
pub enum Decision<T> {
    /// Deliver this (possibly rewritten) message in the original's place.
    Forward(T),
    /// Drop the message; nothing reaches the destination.
    Dropped,
    /// Drop the message after answering its reply slot with the carried
    /// reply.
    Answered(Reply),
}

/// A policy bound to one subsystem whose inbound message type is `M`.
/// `incoming_spec` and `outgoing_spec` are the policy's mathematical
/// description; the two executable hooks are held to them exactly, so a
/// caller generic over the policy knows precisely what each message
/// becomes.
pub trait MessageInterceptor<M: SubsystemMessage>: Sized {
    /// What this policy does with a message the dispatcher is about to
    /// deliver to the wrapped subsystem.
    spec fn incoming_spec(&self, env: FromOverseer<M>) -> Decision<FromOverseer<M>>;

    /// What this policy does with a message the wrapped subsystem is
    /// attempting to send to the rest of the graph.
    spec fn outgoing_spec(&self, msg: AllMessages) -> Decision<AllMessages>;

    /// Run the policy on a message bound for the wrapped subsystem.
    fn intercept_incoming(&self, env: FromOverseer<M>) -> (r: Decision<FromOverseer<M>>)
        ensures
            r == self.incoming_spec(env),
    ;

    /// Run the policy on a message the wrapped subsystem is sending out.
    fn intercept_outgoing(&self, msg: AllMessages) -> (r: Decision<AllMessages>)
        ensures
            r == self.outgoing_spec(msg),
    ;
}

/// A decision is accounted for when it never leaves a request without its
/// answer: a silent drop is only taken on non-requests, and an answer
/// goes to the reply slot of the very message that was dropped.
pub open spec fn decision_answers<M: SubsystemMessage>(
    env: FromOverseer<M>,
    d: Decision<FromOverseer<M>>,
) -> bool {
    match d {
        Decision::Forward(_) => true,
        Decision::Dropped => envelope_request_id(env) is None,
        Decision::Answered(r) => envelope_request_id(env) == Some(r.id),
    }
}

/// As [`decision_answers`], for outbound messages.
pub open spec fn decision_answers_outgoing(msg: AllMessages, d: Decision<AllMessages>) -> bool {
    match d {
        Decision::Forward(_) => true,
        Decision::Dropped => msg.request_id() is None,
        Decision::Answered(r) => msg.request_id() == Some(r.id),
    }
}

/// A policy never leaves an inbound request unanswered: every decision it
/// takes on an inbound message is accounted for.
pub open spec fn answers_dropped_requests<M: SubsystemMessage, Fil: MessageInterceptor<M>>(
    f: Fil,
) -> bool {
    forall|env: FromOverseer<M>| decision_answers(env, #[trigger] f.incoming_spec(env))
}

/// A policy never leaves an outbound request unanswered.
pub open spec fn answers_dropped_requests_outgoing<
    M: SubsystemMessage,
    Fil: MessageInterceptor<M>,
>(f: Fil) -> bool {
    forall|msg: AllMessages| decision_answers_outgoing(msg, #[trigger] f.outgoing_spec(msg))
}

/// The identity policy: every message, in either direction, passes
/// through unchanged and nothing is dropped.
#[derive(Clone, Copy, PartialEq, Eq, Structural, Debug)]
pub struct Identity;

impl<M: SubsystemMessage> MessageInterceptor<M> for Identity {
    open spec fn incoming_spec(&self, env: FromOverseer<M>) -> Decision<FromOverseer<M>> {
        Decision::Forward(env)
    }

    open spec fn outgoing_spec(&self, msg: AllMessages) -> Decision<AllMessages> {
        Decision::Forward(msg)
    }

    fn intercept_incoming(&self, env: FromOverseer<M>) -> (r: Decision<FromOverseer<M>>) {
        Decision::Forward(env)
    }

    fn intercept_outgoing(&self, msg: AllMessages) -> (r: Decision<AllMessages>) {
        Decision::Forward(msg)
    }
}

/// The subsequence of inbound envelopes that the policy forwards, each as
/// the (possibly rewritten) envelope the policy turned it into, in the
/// order the inputs arrived.
pub open spec fn relayed_incoming<M: SubsystemMessage, Fil: MessageInterceptor<M>>(
    f: Fil,
    inputs: Seq<FromOverseer<M>>,
) -> Seq<FromOverseer<M>>
    decreases inputs.len(),
{
    if inputs.len() == 0 {
        Seq::empty()
    } else {
        match f.incoming_spec(inputs.first()) {
            Decision::Forward(m) => seq![m] + relayed_incoming(f, inputs.drop_first()),
            _ => relayed_incoming(f, inputs.drop_first()),
        }
    }
}

/// The replies the policy writes while relaying the given inbound
/// envelopes, in the order the inputs arrived.
pub open spec fn replies_incoming<M: SubsystemMessage, Fil: MessageInterceptor<M>>(
    f: Fil,
    inputs: Seq<FromOverseer<M>>,
) -> Seq<Reply>
    decreases inputs.len(),
{
    if inputs.len() == 0 {
        Seq::empty()
    } else {
        match f.incoming_spec(inputs.first()) {
            Decision::Answered(r) => seq![r] + replies_incoming(f, inputs.drop_first()),
            _ => replies_incoming(f, inputs.drop_first()),
        }
    }
}

/// The subsequence of outbound messages that the policy forwards, each as
/// what the policy turned it into, in order.
pub open spec fn relayed_outgoing<M: SubsystemMessage, Fil: MessageInterceptor<M>>(
    f: Fil,
    outputs: Seq<AllMessages>,
) -> Seq<AllMessages>
    decreases outputs.len(),
{
    if outputs.len() == 0 {
        Seq::empty()
    } else {
        match f.outgoing_spec(outputs.first()) {
            Decision::Forward(m) => seq![m] + relayed_outgoing(f, outputs.drop_first()),
            _ => relayed_outgoing(f, outputs.drop_first()),
        }
    }
}

/// The replies the policy writes while relaying the given outbound
/// messages, in order.
pub open spec fn replies_outgoing<M: SubsystemMessage, Fil: MessageInterceptor<M>>(
    f: Fil,
    outputs: Seq<AllMessages>,
) -> Seq<Reply>
    decreases outputs.len(),
{
    if outputs.len() == 0 {
        Seq::empty()
    } else {
        match f.outgoing_spec(outputs.first()) {
            Decision::Answered(r) => seq![r] + replies_outgoing(f, outputs.drop_first()),
            _ => replies_outgoing(f, outputs.drop_first()),
        }
    }
}

/// The lifecycle of a decorated subsystem: constructed but not yet
/// started, actively relaying, or shut down.
#[derive(Clone, Copy, PartialEq, Eq, Structural, Debug)]
pub enum RelayState {
    /// Constructed, not yet started.
    Initializing,
    /// Actively relaying messages in both directions.
    Running,
    /// The dispatcher issued a shutdown; no further forwarding.
    Stopped,
}

/// The decorator: exclusively owns one wrapped subsystem together with
/// one interceptor policy, and relays messages in both directions through
/// the policy. Decoration is transparent to every other slot: the
/// decorator accepts and emits exactly the message types the wrapped
/// subsystem does.
pub struct InterceptedSubsystem<Sub, Fil> {
    /// The wrapped subsystem.
    pub subsystem: Sub,
    /// The policy every message is run through.
    pub filter: Fil,
    /// Where in its lifecycle the decorator stands.
    pub state: RelayState,
}

impl<Sub, Fil> InterceptedSubsystem<Sub, Fil> {
    /// Wrap a subsystem with an interceptor policy. The decorator starts
    /// out initializing; it relays nothing until started.
    pub fn new(subsystem: Sub, filter: Fil) -> (r: Self)
        ensures
            r.subsystem == subsystem,
            r.filter == filter,
            r.state == RelayState::Initializing,
    {
        InterceptedSubsystem { subsystem, filter, state: RelayState::Initializing }
    }

    /// Start the decorator: activates the two relay directions. Driven by
    /// the dispatcher's lifecycle, once, before any message is relayed.
    pub fn start(&mut self)
        requires
            old(self).state == RelayState::Initializing,
        ensures
            final(self).state == RelayState::Running,
            final(self).subsystem == old(self).subsystem,
            final(self).filter == old(self).filter,
    {
        self.state = RelayState::Running;
    }

    /// Shut the decorator down. The signal is one-way and has priority
    /// over pending relay work: from here on nothing is forwarded.
    pub fn stop(&mut self)
        ensures
            final(self).state == RelayState::Stopped,
            final(self).subsystem == old(self).subsystem,
            final(self).filter == old(self).filter,
    {
        self.state = RelayState::Stopped;
    }

    /// Relay one batch of envelopes bound for the wrapped subsystem
    /// through the policy, in arrival order. Returns what reaches the
    /// subsystem and the replies the policy wrote while dropping
    /// requests; dropped messages appear in neither.
    pub fn relay_incoming<M: SubsystemMessage>(&self, inputs: Vec<FromOverseer<M>>) -> (r: (
        Vec<FromOverseer<M>>,
        Vec<Reply>,
    )) where Fil: MessageInterceptor<M>
        requires
            self.state == RelayState::Running,
        ensures
            r.0@ == relayed_incoming(self.filter, inputs@),
            r.1@ == replies_incoming(self.filter, inputs@),
    {
        let mut pending = inputs;
        let mut forwarded: Vec<FromOverseer<M>> = Vec::new();
        let mut replies: Vec<Reply> = Vec::new();
        let ghost all = pending@;
        while pending.len() > 0
            invariant
                relayed_incoming(self.filter, all) == forwarded@ + relayed_incoming(
                    self.filter,
                    pending@,
                ),
                replies_incoming(self.filter, all) == replies@ + replies_incoming(
                    self.filter,
                    pending@,
                ),
            decreases pending.len(),
        {
            let ghost before = pending@;
            let env = pending.remove(0);
            proof {
                assert(pending@ =~= before.drop_first());
                assert(env == before.first());
            }
            match self.filter.intercept_incoming(env) {
                Decision::Forward(m) => {
                    proof {
                        assert(relayed_incoming(self.filter, before) == seq![m]
                            + relayed_incoming(self.filter, pending@));
                        assert(forwarded@ + relayed_incoming(self.filter, before) =~= forwarded@.push(
                            m,
                        ) + relayed_incoming(self.filter, pending@));
                    }
                    forwarded.push(m);
                },
                Decision::Dropped => {
                    proof {
                        assert(relayed_incoming(self.filter, before) == relayed_incoming(
                            self.filter,
                            pending@,
                        ));
                        assert(replies_incoming(self.filter, before) == replies_incoming(
                            self.filter,
                            pending@,
                        ));
                    }
                },
                Decision::Answered(rep) => {
                    proof {
                        assert(replies_incoming(self.filter, before) == seq![rep]
                            + replies_incoming(self.filter, pending@));
                        assert(replies@ + replies_incoming(self.filter, before) =~= replies@.push(
                            rep,
                        ) + replies_incoming(self.filter, pending@));
                    }
                    replies.push(rep);
                },
            }
        }
        proof {
            assert(forwarded@ + relayed_incoming(self.filter, pending@) =~= forwarded@);
            assert(replies@ + replies_incoming(self.filter, pending@) =~= replies@);
        }
        (forwarded, replies)
    }

    /// Relay one batch of messages the wrapped subsystem is sending
    /// toward the rest of the graph, in emission order. Returns what goes
    /// on to the dispatcher and the replies the policy wrote while
    /// dropping requests.
    pub fn relay_outgoing<M: SubsystemMessage>(&self, outputs: Vec<AllMessages>) -> (r: (
        Vec<AllMessages>,
        Vec<Reply>,
    )) where Fil: MessageInterceptor<M>
        requires
            self.state == RelayState::Running,
        ensures
            r.0@ == relayed_outgoing::<M, Fil>(self.filter, outputs@),
            r.1@ == replies_outgoing::<M, Fil>(self.filter, outputs@),
    {
        let mut pending = outputs;
        let mut forwarded: Vec<AllMessages> = Vec::new();
        let mut replies: Vec<Reply> = Vec::new();
        let ghost all = pending@;
        while pending.len() > 0
            invariant
                relayed_outgoing::<M, Fil>(self.filter, all) == forwarded@
                    + relayed_outgoing::<M, Fil>(self.filter, pending@),
                replies_outgoing::<M, Fil>(self.filter, all) == replies@ + replies_outgoing::<
                    M,
                    Fil,
                >(self.filter, pending@),
            decreases pending.len(),
        {
            let ghost before = pending@;
            let msg = pending.remove(0);
            proof {
                assert(pending@ =~= before.drop_first());
                assert(msg == before.first());
            }
            match self.filter.intercept_outgoing(msg) {
                Decision::Forward(m) => {
                    proof {
                        assert(relayed_outgoing::<M, Fil>(self.filter, before) == seq![m]
                            + relayed_outgoing::<M, Fil>(self.filter, pending@));
                        assert(forwarded@ + relayed_outgoing::<M, Fil>(self.filter, before)
                            =~= forwarded@.push(m) + relayed_outgoing::<M, Fil>(
                            self.filter,
                            pending@,
                        ));
                    }
                    forwarded.push(m);
                },
                Decision::Dropped => {
                    proof {
                        assert(relayed_outgoing::<M, Fil>(self.filter, before)
                            == relayed_outgoing::<M, Fil>(self.filter, pending@));
                        assert(replies_outgoing::<M, Fil>(self.filter, before) == replies_outgoing::<
                            M,
                            Fil,
                        >(self.filter, pending@));
                    }
                },
                Decision::Answered(rep) => {
                    proof {
                        assert(replies_outgoing::<M, Fil>(self.filter, before) == seq![rep]
                            + replies_outgoing::<M, Fil>(self.filter, pending@));
                        assert(replies@ + replies_outgoing::<M, Fil>(self.filter, before)
                            =~= replies@.push(rep) + replies_outgoing::<M, Fil>(
                            self.filter,
                            pending@,
                        ));
                    }
                    replies.push(rep);
                },
            }
        }
        proof {
            assert(forwarded@ + relayed_outgoing::<M, Fil>(self.filter, pending@) =~= forwarded@);
            assert(replies@ + replies_outgoing::<M, Fil>(self.filter, pending@) =~= replies@);
        }
        (forwarded, replies)
    }
}

} // verus!
