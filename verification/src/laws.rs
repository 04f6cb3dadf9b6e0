//! The general laws of the interception layer, stated over the relay
//! model and proved once for every interceptor policy: identity
//! pass-through, exactly-once reply for dropped requests, order
//! preservation, and drop transparency.

use vstd::prelude::*;

use crate::interceptor::{
    answers_dropped_requests, answers_dropped_requests_outgoing, decision_answers,
    decision_answers_outgoing, relayed_incoming, relayed_outgoing, replies_incoming,
    replies_outgoing, Decision, Identity, MessageInterceptor,
};
use crate::messages::{envelope_request_id, AllMessages, FromOverseer, Reply, SubsystemMessage};

verus! {

/// The slot identities of a sequence of written replies, in order.
pub open spec fn reply_ids(replies: Seq<Reply>) -> Seq<u64>
    decreases replies.len(),
{
    if replies.len() == 0 {
        Seq::empty()
    } else {
        seq![replies.first().id] + reply_ids(replies.drop_first())
    }
}

/// The reply-slot identities of the inbound requests the policy drops
/// (does not forward), in arrival order.
pub open spec fn dropped_request_ids_incoming<M: SubsystemMessage, Fil: MessageInterceptor<M>>(
    f: Fil,
    inputs: Seq<FromOverseer<M>>,
) -> Seq<u64>
    decreases inputs.len(),
{
    if inputs.len() == 0 {
        Seq::empty()
    } else {
        let rest = dropped_request_ids_incoming(f, inputs.drop_first());
        match (f.incoming_spec(inputs.first()), envelope_request_id(inputs.first())) {
            (Decision::Forward(_), _) => rest,
            (_, Some(id)) => seq![id] + rest,
            _ => rest,
        }
    }
}

/// The reply-slot identities of the outbound requests the policy drops,
/// in emission order.
pub open spec fn dropped_request_ids_outgoing<M: SubsystemMessage, Fil: MessageInterceptor<M>>(
    f: Fil,
    outputs: Seq<AllMessages>,
) -> Seq<u64>
    decreases outputs.len(),
{
    if outputs.len() == 0 {
        Seq::empty()
    } else {
        let rest = dropped_request_ids_outgoing(f, outputs.drop_first());
        match (f.outgoing_spec(outputs.first()), outputs.first().request_id()) {
            (Decision::Forward(_), _) => rest,
            (_, Some(id)) => seq![id] + rest,
            _ => rest,
        }
    }
}

/// Pass-through identity, inbound: the identity policy forwards every
/// inbound envelope unchanged and writes no reply.
pub proof fn lemma_identity_pass_through_incoming<M: SubsystemMessage>(
    inputs: Seq<FromOverseer<M>>,
)
    ensures
        relayed_incoming(Identity, inputs) == inputs,
        replies_incoming(Identity, inputs) == Seq::<Reply>::empty(),
    decreases inputs.len(),
{
    if inputs.len() == 0 {
        assert(relayed_incoming(Identity, inputs) =~= inputs);
    } else {
        lemma_identity_pass_through_incoming::<M>(inputs.drop_first());
        assert(relayed_incoming(Identity, inputs) =~= inputs);
        assert(replies_incoming(Identity, inputs) =~= Seq::<Reply>::empty());
    }
}

/// Pass-through identity, outbound: the identity policy forwards every
/// outbound message unchanged and writes no reply.
pub proof fn lemma_identity_pass_through_outgoing<M: SubsystemMessage>(outputs: Seq<AllMessages>)
    ensures
        relayed_outgoing::<M, Identity>(Identity, outputs) == outputs,
        replies_outgoing::<M, Identity>(Identity, outputs) == Seq::<Reply>::empty(),
    decreases outputs.len(),
{
    if outputs.len() == 0 {
        assert(relayed_outgoing::<M, Identity>(Identity, outputs) =~= outputs);
    } else {
        lemma_identity_pass_through_outgoing::<M>(outputs.drop_first());
        assert(relayed_outgoing::<M, Identity>(Identity, outputs) =~= outputs);
        assert(replies_outgoing::<M, Identity>(Identity, outputs) =~= Seq::<Reply>::empty());
    }
}

/// Exactly-once reply, inbound: for a policy that answers every inbound
/// request it drops, the replies written while relaying a batch answer,
/// slot for slot and in arrival order, exactly the requests the policy
/// dropped — no dropped request goes unanswered, and no slot is written
/// that does not belong to a dropped request.
pub proof fn lemma_exactly_once_reply_incoming<M: SubsystemMessage, Fil: MessageInterceptor<M>>(
    f: Fil,
    inputs: Seq<FromOverseer<M>>,
)
    requires
        answers_dropped_requests(f),
    ensures
        reply_ids(replies_incoming(f, inputs)) == dropped_request_ids_incoming(f, inputs),
    decreases inputs.len(),
{
    if inputs.len() == 0 {
    } else {
        lemma_exactly_once_reply_incoming(f, inputs.drop_first());
        let head = inputs.first();
        let d = f.incoming_spec(head);
        assert(decision_answers(head, d));
        match d {
            Decision::Forward(_) => {},
            Decision::Dropped => {},
            Decision::Answered(r) => {
                let rest = replies_incoming(f, inputs.drop_first());
                let whole = replies_incoming(f, inputs);
                assert(whole == seq![r] + rest);
                assert(whole.first() == r);
                assert(whole.drop_first() =~= rest);
                assert(reply_ids(whole) == seq![r.id] + reply_ids(rest));
            },
        }
    }
}

/// Exactly-once reply, outbound: as the inbound law, for the outgoing
/// direction.
pub proof fn lemma_exactly_once_reply_outgoing<M: SubsystemMessage, Fil: MessageInterceptor<M>>(
    f: Fil,
    outputs: Seq<AllMessages>,
)
    requires
        answers_dropped_requests_outgoing(f),
    ensures
        reply_ids(replies_outgoing(f, outputs)) == dropped_request_ids_outgoing(f, outputs),
    decreases outputs.len(),
{
    if outputs.len() == 0 {
    } else {
        lemma_exactly_once_reply_outgoing(f, outputs.drop_first());
        let head = outputs.first();
        let d = f.outgoing_spec(head);
        assert(decision_answers_outgoing(head, d));
        match d {
            Decision::Forward(_) => {},
            Decision::Dropped => {},
            Decision::Answered(r) => {
                let rest = replies_outgoing(f, outputs.drop_first());
                let whole = replies_outgoing(f, outputs);
                assert(whole == seq![r] + rest);
                assert(whole.first() == r);
                assert(whole.drop_first() =~= rest);
                assert(reply_ids(whole) == seq![r.id] + reply_ids(rest));
            },
        }
    }
}

/// `idx` maps each relayed message back to the distinct input it came
/// from: indices are in range, strictly increasing (so relative order is
/// preserved and no input is used twice), and each output is exactly what
/// the policy forwarded that input as.
pub open spec fn order_embedding_incoming<M: SubsystemMessage, Fil: MessageInterceptor<M>>(
    f: Fil,
    inputs: Seq<FromOverseer<M>>,
    outputs: Seq<FromOverseer<M>>,
    idx: Seq<int>,
) -> bool {
    &&& idx.len() == outputs.len()
    &&& (forall|i: int| 0 <= i < idx.len() ==> 0 <= #[trigger] idx[i] < inputs.len())
    &&& (forall|i: int, j: int| 0 <= i < j < idx.len() ==> #[trigger] idx[i] < #[trigger] idx[j])
    &&& (forall|i: int|
        0 <= i < idx.len() ==> f.incoming_spec(inputs[#[trigger] idx[i]]) == Decision::Forward(
            outputs[i],
        ))
}

/// As [`order_embedding_incoming`], for the outgoing direction.
pub open spec fn order_embedding_outgoing<M: SubsystemMessage, Fil: MessageInterceptor<M>>(
    f: Fil,
    inputs: Seq<AllMessages>,
    outputs: Seq<AllMessages>,
    idx: Seq<int>,
) -> bool {
    &&& idx.len() == outputs.len()
    &&& (forall|i: int| 0 <= i < idx.len() ==> 0 <= #[trigger] idx[i] < inputs.len())
    &&& (forall|i: int, j: int| 0 <= i < j < idx.len() ==> #[trigger] idx[i] < #[trigger] idx[j])
    &&& (forall|i: int|
        0 <= i < idx.len() ==> f.outgoing_spec(inputs[#[trigger] idx[i]]) == Decision::Forward(
            outputs[i],
        ))
}

/// Order preservation, inbound: whatever the policy, the envelopes that
/// are forwarded out of a batch come from distinct inputs in their
/// original relative order — interception never reorders messages around
/// dropped ones.
pub proof fn lemma_order_preservation_incoming<M: SubsystemMessage, Fil: MessageInterceptor<M>>(
    f: Fil,
    inputs: Seq<FromOverseer<M>>,
)
    ensures
        exists|idx: Seq<int>|
            order_embedding_incoming(f, inputs, relayed_incoming(f, inputs), idx),
    decreases inputs.len(),
{
    if inputs.len() == 0 {
        let idx = Seq::<int>::empty();
        assert(order_embedding_incoming(f, inputs, relayed_incoming(f, inputs), idx));
    } else {
        let tail = inputs.drop_first();
        lemma_order_preservation_incoming(f, tail);
        let rest_out = relayed_incoming(f, tail);
        let idx_rest = choose|idx: Seq<int>| order_embedding_incoming(f, tail, rest_out, idx);
        let shifted = idx_rest.map_values(|k: int| k + 1);
        let out = relayed_incoming(f, inputs);
        match f.incoming_spec(inputs.first()) {
            Decision::Forward(m) => {
                let idx = seq![0int] + shifted;
                assert(out == seq![m] + rest_out);
                assert forall|i: int| 0 <= i < idx.len() implies {
                    &&& 0 <= #[trigger] idx[i] < inputs.len()
                    &&& f.incoming_spec(inputs[idx[i]]) == Decision::Forward(out[i])
                } by {
                    if i == 0 {
                        assert(idx[0] == 0);
                        assert(out[0] == m);
                        assert(inputs[0] == inputs.first());
                    } else {
                        assert(idx[i] == idx_rest[i - 1] + 1);
                        assert(0 <= idx_rest[i - 1] < tail.len());
                        assert(tail[idx_rest[i - 1]] == inputs[idx_rest[i - 1] + 1]);
                        assert(out[i] == rest_out[i - 1]);
                        assert(f.incoming_spec(tail[idx_rest[i - 1]]) == Decision::Forward(
                            rest_out[i - 1],
                        ));
                    }
                }
                assert forall|i: int, j: int| 0 <= i < j < idx.len() implies #[trigger] idx[i]
                    < #[trigger] idx[j] by {
                    if i == 0 {
                        assert(idx[j] == idx_rest[j - 1] + 1);
                        assert(idx_rest[j - 1] >= 0);
                    } else {
                        assert(idx[i] == idx_rest[i - 1] + 1);
                        assert(idx[j] == idx_rest[j - 1] + 1);
                        assert(idx_rest[i - 1] < idx_rest[j - 1]);
                    }
                }
                assert(order_embedding_incoming(f, inputs, out, idx));
            },
            Decision::Dropped => {
                assert(out == rest_out);
                lemma_shifted_embedding_incoming(f, inputs, out, idx_rest, shifted);
            },
            Decision::Answered(_) => {
                assert(out == rest_out);
                lemma_shifted_embedding_incoming(f, inputs, out, idx_rest, shifted);
            },
        }
    }
}

/// Lifting an embedding over the tail of `inputs` to the whole of
/// `inputs` by shifting every index up by one.
proof fn lemma_shifted_embedding_incoming<M: SubsystemMessage, Fil: MessageInterceptor<M>>(
    f: Fil,
    inputs: Seq<FromOverseer<M>>,
    outputs: Seq<FromOverseer<M>>,
    idx_rest: Seq<int>,
    shifted: Seq<int>,
)
    requires
        inputs.len() > 0,
        order_embedding_incoming(f, inputs.drop_first(), outputs, idx_rest),
        shifted == idx_rest.map_values(|k: int| k + 1),
    ensures
        exists|idx: Seq<int>| order_embedding_incoming(f, inputs, outputs, idx),
{
    let tail = inputs.drop_first();
    assert forall|i: int| 0 <= i < shifted.len() implies {
        &&& 0 <= #[trigger] shifted[i] < inputs.len()
        &&& f.incoming_spec(inputs[shifted[i]]) == Decision::Forward(outputs[i])
    } by {
        assert(shifted[i] == idx_rest[i] + 1);
        assert(0 <= idx_rest[i] < tail.len());
        assert(tail[idx_rest[i]] == inputs[idx_rest[i] + 1]);
        assert(f.incoming_spec(tail[idx_rest[i]]) == Decision::Forward(outputs[i]));
    }
    assert forall|i: int, j: int| 0 <= i < j < shifted.len() implies #[trigger] shifted[i]
        < #[trigger] shifted[j] by {
        assert(shifted[i] == idx_rest[i] + 1);
        assert(shifted[j] == idx_rest[j] + 1);
        assert(idx_rest[i] < idx_rest[j]);
    }
    assert(order_embedding_incoming(f, inputs, outputs, shifted));
}

/// Drop transparency, inbound: everything that comes out of the inbound
/// relay is something the policy explicitly forwarded; a message the
/// policy dropped contributes nothing to what the wrapped subsystem
/// sees.
pub proof fn lemma_drop_transparency_incoming<M: SubsystemMessage, Fil: MessageInterceptor<M>>(
    f: Fil,
    inputs: Seq<FromOverseer<M>>,
    m: FromOverseer<M>,
)
    requires
        relayed_incoming(f, inputs).contains(m),
    ensures
        exists|j: int|
            0 <= j < inputs.len() && #[trigger] f.incoming_spec(inputs[j]) == Decision::Forward(m),
    decreases inputs.len(),
{
    if inputs.len() == 0 {
        assert(false);
    } else {
        let tail = inputs.drop_first();
        let out = relayed_incoming(f, inputs);
        let rest_out = relayed_incoming(f, tail);
        match f.incoming_spec(inputs.first()) {
            Decision::Forward(m0) => {
                assert(out == seq![m0] + rest_out);
                if m == m0 {
                    assert(inputs[0] == inputs.first());
                    assert(f.incoming_spec(inputs[0]) == Decision::Forward(m));
                } else {
                    let k = choose|k: int| 0 <= k < out.len() && out[k] == m;
                    assert(out[k] == m);
                    assert(k != 0);
                    assert(rest_out[k - 1] == m);
                    assert(rest_out.contains(m));
                    lemma_drop_transparency_incoming(f, tail, m);
                    let j = choose|j: int|
                        0 <= j < tail.len() && #[trigger] f.incoming_spec(tail[j])
                            == Decision::Forward(m);
                    assert(tail[j] == inputs[j + 1]);
                    assert(f.incoming_spec(inputs[j + 1]) == Decision::Forward(m));
                }
            },
            Decision::Dropped => {
                assert(out == rest_out);
                lemma_drop_transparency_incoming(f, tail, m);
                let j = choose|j: int|
                    0 <= j < tail.len() && #[trigger] f.incoming_spec(tail[j]) == Decision::Forward(
                        m,
                    );
                assert(tail[j] == inputs[j + 1]);
                assert(f.incoming_spec(inputs[j + 1]) == Decision::Forward(m));
            },
            Decision::Answered(_) => {
                assert(out == rest_out);
                lemma_drop_transparency_incoming(f, tail, m);
                let j = choose|j: int|
                    0 <= j < tail.len() && #[trigger] f.incoming_spec(tail[j]) == Decision::Forward(
                        m,
                    );
                assert(tail[j] == inputs[j + 1]);
                assert(f.incoming_spec(inputs[j + 1]) == Decision::Forward(m));
            },
        }
    }
}

/// Order preservation, outbound: the messages the policy lets out of the
/// wrapped subsystem leave in the relative order the subsystem emitted
/// them.
pub proof fn lemma_order_preservation_outgoing<M: SubsystemMessage, Fil: MessageInterceptor<M>>(
    f: Fil,
    outputs: Seq<AllMessages>,
)
    ensures
        exists|idx: Seq<int>|
            order_embedding_outgoing(f, outputs, relayed_outgoing(f, outputs), idx),
    decreases outputs.len(),
{
    if outputs.len() == 0 {
        let idx = Seq::<int>::empty();
        assert(order_embedding_outgoing(f, outputs, relayed_outgoing(f, outputs), idx));
    } else {
        let tail = outputs.drop_first();
        lemma_order_preservation_outgoing(f, tail);
        let rest_out = relayed_outgoing(f, tail);
        let idx_rest = choose|idx: Seq<int>| order_embedding_outgoing(f, tail, rest_out, idx);
        let shifted = idx_rest.map_values(|k: int| k + 1);
        let out = relayed_outgoing(f, outputs);
        match f.outgoing_spec(outputs.first()) {
            Decision::Forward(m) => {
                let idx = seq![0int] + shifted;
                assert(out == seq![m] + rest_out);
                assert forall|i: int| 0 <= i < idx.len() implies {
                    &&& 0 <= #[trigger] idx[i] < outputs.len()
                    &&& f.outgoing_spec(outputs[idx[i]]) == Decision::Forward(out[i])
                } by {
                    if i == 0 {
                        assert(idx[0] == 0);
                        assert(out[0] == m);
                        assert(outputs[0] == outputs.first());
                    } else {
                        assert(idx[i] == idx_rest[i - 1] + 1);
                        assert(0 <= idx_rest[i - 1] < tail.len());
                        assert(tail[idx_rest[i - 1]] == outputs[idx_rest[i - 1] + 1]);
                        assert(out[i] == rest_out[i - 1]);
                        assert(f.outgoing_spec(tail[idx_rest[i - 1]]) == Decision::Forward(
                            rest_out[i - 1],
                        ));
                    }
                }
                assert forall|i: int, j: int| 0 <= i < j < idx.len() implies #[trigger] idx[i]
                    < #[trigger] idx[j] by {
                    if i == 0 {
                        assert(idx[j] == idx_rest[j - 1] + 1);
                        assert(idx_rest[j - 1] >= 0);
                    } else {
                        assert(idx[i] == idx_rest[i - 1] + 1);
                        assert(idx[j] == idx_rest[j - 1] + 1);
                        assert(idx_rest[i - 1] < idx_rest[j - 1]);
                    }
                }
                assert(order_embedding_outgoing(f, outputs, out, idx));
            },
            Decision::Dropped => {
                assert(out == rest_out);
                lemma_shifted_embedding_outgoing(f, outputs, out, idx_rest, shifted);
            },
            Decision::Answered(_) => {
                assert(out == rest_out);
                lemma_shifted_embedding_outgoing(f, outputs, out, idx_rest, shifted);
            },
        }
    }
}

/// Lifting an embedding over the tail of `inputs` to the whole of
/// `inputs` by shifting every index up by one, outgoing direction.
proof fn lemma_shifted_embedding_outgoing<M: SubsystemMessage, Fil: MessageInterceptor<M>>(
    f: Fil,
    inputs: Seq<AllMessages>,
    outputs: Seq<AllMessages>,
    idx_rest: Seq<int>,
    shifted: Seq<int>,
)
    requires
        inputs.len() > 0,
        order_embedding_outgoing(f, inputs.drop_first(), outputs, idx_rest),
        shifted == idx_rest.map_values(|k: int| k + 1),
    ensures
        exists|idx: Seq<int>| order_embedding_outgoing(f, inputs, outputs, idx),
{
    let tail = inputs.drop_first();
    assert forall|i: int| 0 <= i < shifted.len() implies {
        &&& 0 <= #[trigger] shifted[i] < inputs.len()
        &&& f.outgoing_spec(inputs[shifted[i]]) == Decision::Forward(outputs[i])
    } by {
        assert(shifted[i] == idx_rest[i] + 1);
        assert(0 <= idx_rest[i] < tail.len());
        assert(tail[idx_rest[i]] == inputs[idx_rest[i] + 1]);
        assert(f.outgoing_spec(tail[idx_rest[i]]) == Decision::Forward(outputs[i]));
    }
    assert forall|i: int, j: int| 0 <= i < j < shifted.len() implies #[trigger] shifted[i]
        < #[trigger] shifted[j] by {
        assert(shifted[i] == idx_rest[i] + 1);
        assert(shifted[j] == idx_rest[j] + 1);
        assert(idx_rest[i] < idx_rest[j]);
    }
    assert(order_embedding_outgoing(f, inputs, outputs, shifted));
}

/// Drop transparency, outbound: everything that leaves the outgoing relay
/// is something the policy explicitly forwarded; a message the policy
/// dropped reaches no other slot of the graph.
pub proof fn lemma_drop_transparency_outgoing<M: SubsystemMessage, Fil: MessageInterceptor<M>>(
    f: Fil,
    outputs: Seq<AllMessages>,
    m: AllMessages,
)
    requires
        relayed_outgoing(f, outputs).contains(m),
    ensures
        exists|j: int|
            0 <= j < outputs.len() && #[trigger] f.outgoing_spec(outputs[j]) == Decision::Forward(
                m,
            ),
    decreases outputs.len(),
{
    if outputs.len() == 0 {
        assert(false);
    } else {
        let tail = outputs.drop_first();
        let out = relayed_outgoing(f, outputs);
        let rest_out = relayed_outgoing(f, tail);
        match f.outgoing_spec(outputs.first()) {
            Decision::Forward(m0) => {
                assert(out == seq![m0] + rest_out);
                if m == m0 {
                    assert(outputs[0] == outputs.first());
                    assert(f.outgoing_spec(outputs[0]) == Decision::Forward(m));
                } else {
                    let k = choose|k: int| 0 <= k < out.len() && out[k] == m;
                    assert(out[k] == m);
                    assert(k != 0);
                    assert(rest_out[k - 1] == m);
                    assert(rest_out.contains(m));
                    lemma_drop_transparency_outgoing(f, tail, m);
                    let j = choose|j: int|
                        0 <= j < tail.len() && #[trigger] f.outgoing_spec(tail[j])
                            == Decision::Forward(m);
                    assert(tail[j] == outputs[j + 1]);
                    assert(f.outgoing_spec(outputs[j + 1]) == Decision::Forward(m));
                }
            },
            Decision::Dropped => {
                assert(out == rest_out);
                lemma_drop_transparency_outgoing(f, tail, m);
                let j = choose|j: int|
                    0 <= j < tail.len() && #[trigger] f.outgoing_spec(tail[j]) == Decision::Forward(
                        m,
                    );
                assert(tail[j] == outputs[j + 1]);
                assert(f.outgoing_spec(outputs[j + 1]) == Decision::Forward(m));
            },
            Decision::Answered(_) => {
                assert(out == rest_out);
                lemma_drop_transparency_outgoing(f, tail, m);
                let j = choose|j: int|
                    0 <= j < tail.len() && #[trigger] f.outgoing_spec(tail[j]) == Decision::Forward(
                        m,
                    );
                assert(tail[j] == outputs[j + 1]);
                assert(f.outgoing_spec(outputs[j + 1]) == Decision::Forward(m));
            },
        }
    }
}

} // verus!
