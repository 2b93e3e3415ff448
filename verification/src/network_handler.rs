//! The decisions of the network handler: it routes each network event either
//! to the request that waits for it or on to the event channel.
use vstd::prelude::*;
use crate::network_context::RequestId;
use crate::request_table::RequestTable;

verus! {

/// A network event as the handler tells them apart.
pub enum NetworkInput<R, E> {
    /// The reply `response` to RPC request `req_id`.
    RpcResponse { req_id: RequestId, response: R },
    /// A hello message from a peer; the peer is added before the event goes on.
    Hello(E),
    /// Any other event.
    Event(E),
    /// The event stream has ended.
    Closed,
}

/// What the handler does with one event.
pub enum HandlerAction<S, R, E> {
    /// Send `response` through `sender`, the channel of the waiting request.
    Reply { sender: S, response: R },
    /// No request waits under `req_id`.
    UnknownRequest { req_id: RequestId, response: R },
    /// Pass `event` on to the event channel, after adding its peer if `add_peer`.
    Forward { event: E, add_peer: bool },
    /// Stop handling events.
    Stop,
}

/// The pending requests after the handler takes `input`, and its action.
pub open spec fn handler_step<S, R, E>(
    pending: Map<RequestId, S>,
    input: NetworkInput<R, E>,
) -> (Map<RequestId, S>, HandlerAction<S, R, E>) {
    match input {
        NetworkInput::RpcResponse { req_id, response } => if pending.contains_key(req_id) {
            (pending.remove(req_id), HandlerAction::Reply { sender: pending[req_id], response })
        } else {
            (pending, HandlerAction::UnknownRequest { req_id, response })
        },
        NetworkInput::Hello(event) => (pending, HandlerAction::Forward { event, add_peer: true }),
        NetworkInput::Event(event) => (pending, HandlerAction::Forward { event, add_peer: false }),
        NetworkInput::Closed => (pending, HandlerAction::Stop),
    }
}

/// Handles one network event: a reply goes to the channel of the request it
/// answers, which stops waiting; other events go on to the event channel.
pub fn handle_event<S, R, E>(table: &mut RequestTable<S>, input: NetworkInput<R, E>) -> (action:
    HandlerAction<S, R, E>)
    ensures
        (final(table)@, action) == handler_step(old(table)@, input),
{
    match input {
        NetworkInput::RpcResponse { req_id, response } => match table.remove(req_id) {
            Some(sender) => HandlerAction::Reply { sender, response },
            None => HandlerAction::UnknownRequest { req_id, response },
        },
        NetworkInput::Hello(event) => HandlerAction::Forward { event, add_peer: true },
        NetworkInput::Event(event) => HandlerAction::Forward { event, add_peer: false },
        NetworkInput::Closed => HandlerAction::Stop,
    }
}

} // verus!
