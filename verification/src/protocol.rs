//! Laws of the request/reply protocol between the network context, which
//! numbers and registers requests, and the network handler, which routes
//! replies back to them.
use vstd::prelude::*;
use crate::network_context::{RequestId, HELLO_REQUEST_ID};
use crate::network_handler::{handler_step, HandlerAction, NetworkInput};

verus! {

/// Every pending request has an id that was handed out: at least 1 and below
/// `next`, the id that the next request will get.
pub open spec fn ids_consistent<S>(next: nat, pending: Map<RequestId, S>) -> bool {
    &&& next >= 1
    &&& forall|k: RequestId| #[trigger] pending.contains_key(k) ==> 1 <= k < next
}

/// A fresh context with an empty table is consistent.
pub proof fn law_initial_state_consistent<S>()
    ensures
        ids_consistent(1, Map::<RequestId, S>::empty()),
{
}

/// The id a new request gets is never pending yet, so registering it
/// replaces no other request's channel; afterwards the state is consistent
/// again with the counter moved on by one.
pub proof fn law_new_request_is_fresh<S>(next: RequestId, pending: Map<RequestId, S>, sender: S)
    requires
        ids_consistent(next as nat, pending),
    ensures
        !pending.contains_key(next),
        ids_consistent(next as nat + 1, pending.insert(next, sender)),
{
}

/// Handling any network event keeps the pending requests consistent.
pub proof fn law_handler_keeps_ids_consistent<S, R, E>(
    next: nat,
    pending: Map<RequestId, S>,
    input: NetworkInput<R, E>,
)
    requires
        ids_consistent(next, pending),
    ensures
        ids_consistent(next, handler_step(pending, input).0),
{
}

/// The reply to a registered request goes to the channel it was registered
/// with, and the request stops waiting.
pub proof fn law_reply_reaches_registered_sender<S, R, E>(
    pending: Map<RequestId, S>,
    id: RequestId,
    sender: S,
    response: R,
)
    ensures
        handler_step(
            pending.insert(id, sender),
            (NetworkInput::<R, E>::RpcResponse { req_id: id, response }),
        ) == (pending.remove(id), (HandlerAction::<S, R, E>::Reply { sender, response })),
{
    assert(pending.insert(id, sender).remove(id) =~= pending.remove(id));
}

/// A reply to one request leaves every other pending request as it was.
pub proof fn law_reply_leaves_other_requests<S, R, E>(
    pending: Map<RequestId, S>,
    id: RequestId,
    other: RequestId,
    response: R,
)
    requires
        id != other,
    ensures
        handler_step(pending, (NetworkInput::<R, E>::RpcResponse { req_id: id, response })).0.contains_key(
            other,
        ) == pending.contains_key(other),
        pending.contains_key(other) ==> handler_step(
            pending,
            (NetworkInput::<R, E>::RpcResponse { req_id: id, response }),
        ).0[other] == pending[other],
{
}

/// Events that are not replies never touch the pending requests.
pub proof fn law_other_events_keep_requests<S, R, E>(
    pending: Map<RequestId, S>,
    input: NetworkInput<R, E>,
)
    requires
        (!(input is RpcResponse)),
    ensures
        handler_step(pending, input).0 == pending,
{
}

/// Hello messages go out under an id that no request ever waits under, so a
/// reply under that id finds no request.
pub proof fn law_hello_id_never_pending<S, R, E>(
    next: nat,
    pending: Map<RequestId, S>,
    response: R,
)
    requires
        ids_consistent(next, pending),
    ensures
        !pending.contains_key(HELLO_REQUEST_ID),
        handler_step(
            pending,
            (NetworkInput::<R, E>::RpcResponse { req_id: HELLO_REQUEST_ID, response }),
        ).1 == (HandlerAction::<S, R, E>::UnknownRequest { req_id: HELLO_REQUEST_ID, response }),
{
}

/// A reply goes to the channel of the request waiting under its id, which
/// then stops waiting; a reply under an id nobody waits for changes nothing
/// and is reported as unknown.
pub proof fn law_reply_goes_to_its_request<S, R, E>(
    pending: Map<RequestId, S>,
    id: RequestId,
    response: R,
)
    ensures
        pending.contains_key(id) ==> handler_step(
            pending,
            (NetworkInput::<R, E>::RpcResponse { req_id: id, response }),
        ) == (pending.remove(id), (HandlerAction::<S, R, E>::Reply { sender: pending[id], response })),
        !pending.contains_key(id) ==> handler_step(
            pending,
            (NetworkInput::<R, E>::RpcResponse { req_id: id, response }),
        ) == (pending, (HandlerAction::<S, R, E>::UnknownRequest { req_id: id, response })),
{
}

/// Whatever requests are pending, a hello message has its peer added and
/// then goes on to the event channel, and the pending requests stay.
pub proof fn law_hello_adds_peer_then_goes_on<S, R, E>(pending: Map<RequestId, S>, event: E)
    ensures
        handler_step(pending, NetworkInput::<R, E>::Hello(event)) == (
            pending,
            (HandlerAction::<S, R, E>::Forward { event, add_peer: true }),
        ),
{
}

/// Whatever requests are pending, any other event goes on to the event
/// channel without adding a peer, and the pending requests stay.
pub proof fn law_other_events_go_on<S, R, E>(pending: Map<RequestId, S>, event: E)
    ensures
        handler_step(pending, NetworkInput::<R, E>::Event(event)) == (
            pending,
            (HandlerAction::<S, R, E>::Forward { event, add_peer: false }),
        ),
{
}

/// The handler stops exactly when the event stream has ended.
pub proof fn law_stops_only_at_end_of_stream<S, R, E>(
    pending: Map<RequestId, S>,
    input: NetworkInput<R, E>,
)
    ensures
        (handler_step(pending, input).1 is Stop) <==> (input is Closed),
{
}

} // verus!
