//! Request bookkeeping of the chain-sync network context: request numbering,
//! the blocksync requests it builds and how it reads the replies.
use vstd::prelude::*;
use vstd::string::StringExecFns;
use futures::channel::oneshot::Canceled;
use async_std::future::TimeoutError;

verus! {

/// Number that ties an RPC response to the request it answers.
pub type RequestId = usize;

/// Blocksync option bit: send the block headers.
pub const BLOCKS: u64 = 1;

/// Blocksync option bit: send the messages of the blocks.
pub const MESSAGES: u64 = 2;

/// Request id that hello messages are sent with; no reply is awaited for it.
pub const HELLO_REQUEST_ID: RequestId = 0;

/// Seconds to wait for the reply to an RPC request.
pub const RPC_TIMEOUT: u64 = 5;

#[verifier::external_type_specification]
#[verifier::external_body]
pub struct ExCanceled(Canceled);

#[verifier::external_type_specification]
#[verifier::external_body]
pub struct ExTimeoutError(TimeoutError);

/// A blocksync request: `request_len` tipsets walking back from the tipset
/// whose block cids are `start`, with the parts selected by `options`.
pub struct BlockSyncRequest<C> {
    pub start: Vec<C>,
    pub request_len: u64,
    pub options: u64,
}

/// The reply to an RPC request, by protocol.
pub enum RPCResponse<B, H> {
    BlockSync(B),
    Hello(H),
}

/// Text of the error for a reply of another protocol than blocksync.
pub open spec fn invalid_response_text() -> Seq<char> {
    "Invalid response type"@
}

/// Text of the error for a request whose reply did not come in time.
pub open spec fn timed_out_text() -> Seq<char> {
    "Request timed out"@
}

/// Text of the error for a request whose reply channel was dropped.
pub open spec fn canceled_text() -> Seq<char> {
    "oneshot canceled"@
}

/// Text of the error for a full-tipset reply that holds no tipset.
pub open spec fn no_full_tipset_text(keys_text: Seq<char>) -> Seq<char> {
    "No full tipset found for cid: "@ + keys_text
}

/// `Canceled::to_string` (futures): its `Display` writes "oneshot canceled".
#[verifier::external_body]
fn canceled_message(e: &Canceled) -> (s: String)
    ensures
        s@ == canceled_text(),
{
    e.to_string()
}

/// Context used in chain sync to number the network requests it sends.
pub struct SyncNetworkContext {
    rpc_request_id: RequestId,
}

impl SyncNetworkContext {
    /// The id that the next RPC request will be sent with.
    pub closed spec fn next_id(&self) -> nat {
        self.rpc_request_id as nat
    }

    /// A context whose first request gets id 1.
    pub fn new() -> (ctx: Self)
        ensures
            ctx.next_id() == 1,
    {
        SyncNetworkContext { rpc_request_id: 1 }
    }

    /// The id that the next RPC request will be sent with.
    pub fn next_request_id(&self) -> (id: RequestId)
        ensures
            id == self.next_id(),
    {
        self.rpc_request_id
    }

    /// Takes the id for a new RPC request: the current counter, which then
    /// moves on by one.
    pub fn start_rpc_request(&mut self) -> (id: RequestId)
        requires
            old(self).next_id() < usize::MAX,
        ensures
            id == old(self).next_id(),
            final(self).next_id() == old(self).next_id() + 1,
    {
        let id = self.rpc_request_id;
        self.rpc_request_id = self.rpc_request_id + 1;
        id
    }

    /// What a request ends with, from the reply channel awaited under the
    /// timeout: the reply, the channel's cancellation, or the timeout.
    pub fn rpc_result<R>(outcome: Result<Result<R, Canceled>, TimeoutError>) -> (res: Result<
        R,
        String,
    >)
        ensures
            match outcome {
                Ok(Ok(r)) => res == Ok::<R, String>(r),
                Ok(Err(_)) => res is Err && res->Err_0@ == canceled_text(),
                Err(_) => res is Err && res->Err_0@ == timed_out_text(),
            },
    {
        match outcome {
            Ok(Ok(resp)) => Ok(resp),
            Ok(Err(e)) => Err(canceled_message(&e)),
            Err(_) => Err("Request timed out".to_owned()),
        }
    }

    /// The blocksync request for only the block headers of `count` tipsets.
    pub fn headers_request<C>(start: Vec<C>, count: u64) -> (req: BlockSyncRequest<C>)
        ensures
            req.start@ == start@,
            req.request_len == count,
            req.options == BLOCKS,
    {
        BlockSyncRequest { start, request_len: count, options: BLOCKS }
    }

    /// The blocksync request for one full tipset, headers and messages.
    pub fn full_tipset_request<C>(start: Vec<C>) -> (req: BlockSyncRequest<C>)
        ensures
            req.start@ == start@,
            req.request_len == 1,
            req.options == BLOCKS + MESSAGES,
            req.options & BLOCKS == BLOCKS,
            req.options & MESSAGES == MESSAGES,
    {
        let options = BLOCKS | MESSAGES;
        assert(1u64 | 2u64 == 3u64 && 3u64 & 1u64 == 1u64 && 3u64 & 2u64 == 2u64) by (bit_vector);
        BlockSyncRequest { start, request_len: 1, options }
    }

    /// The blocksync reply carried by an RPC reply; any other reply is an
    /// error.
    pub fn blocksync_response<B, H>(response: RPCResponse<B, H>) -> (res: Result<B, String>)
        ensures
            match response {
                RPCResponse::BlockSync(b) => res == Ok::<B, String>(b),
                RPCResponse::Hello(_) => res is Err && res->Err_0@ == invalid_response_text(),
            },
    {
        match response {
            RPCResponse::BlockSync(b) => Ok(b),
            RPCResponse::Hello(_) => Err("Invalid response type".to_owned()),
        }
    }

    /// The first full tipset of a blocksync reply; an error naming the
    /// requested keys (`keys_text`) when the reply holds none.
    pub fn first_full_tipset<F>(tipsets: Vec<F>, keys_text: &str) -> (res: Result<F, String>)
        ensures
            tipsets@.len() > 0 ==> res == Ok::<F, String>(tipsets@[0]),
            tipsets@.len() == 0 ==> res is Err && res->Err_0@ == no_full_tipset_text(keys_text@),
    {
        let mut tipsets = tipsets;
        if tipsets.len() > 0 {
            Ok(tipsets.remove(0))
        } else {
            let msg = "No full tipset found for cid: ".to_owned();
            Err(msg.concat(keys_text))
        }
    }
}

} // verus!
