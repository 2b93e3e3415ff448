use forest_sync::network_context::{
    BlockSyncRequest, RPCResponse, SyncNetworkContext, BLOCKS, HELLO_REQUEST_ID, MESSAGES,
};
use forest_sync::network_handler::{handle_event, HandlerAction, NetworkInput};
use forest_sync::request_table::RequestTable;
use std::time::Duration;

#[test]
fn request_ids_start_at_one_and_count_up() {
    let mut ctx = SyncNetworkContext::new();
    assert_eq!(ctx.next_request_id(), 1);
    assert_eq!(ctx.start_rpc_request(), 1);
    assert_eq!(ctx.start_rpc_request(), 2);
    assert_eq!(ctx.start_rpc_request(), 3);
    assert_eq!(ctx.next_request_id(), 4);
}

#[test]
fn hello_id_is_never_a_request_id() {
    let mut ctx = SyncNetworkContext::new();
    for _ in 0..100 {
        assert_ne!(ctx.start_rpc_request(), HELLO_REQUEST_ID);
    }
}

#[test]
fn headers_request_asks_for_blocks_only() {
    let req: BlockSyncRequest<u32> = SyncNetworkContext::headers_request(vec![7, 8], 20);
    assert_eq!(req.start, vec![7, 8]);
    assert_eq!(req.request_len, 20);
    assert_eq!(req.options, BLOCKS);
    assert_eq!(req.options, 1);
}

#[test]
fn full_tipset_request_asks_for_blocks_and_messages() {
    let req: BlockSyncRequest<u32> = SyncNetworkContext::full_tipset_request(vec![5]);
    assert_eq!(req.start, vec![5]);
    assert_eq!(req.request_len, 1);
    assert_eq!(req.options, BLOCKS | MESSAGES);
    assert_eq!(req.options, 3);
}

#[test]
fn blocksync_response_accepts_blocksync_replies() {
    let r: RPCResponse<u32, String> = RPCResponse::BlockSync(42);
    assert_eq!(SyncNetworkContext::blocksync_response(r), Ok(42));
}

#[test]
fn blocksync_response_rejects_hello_replies() {
    let r: RPCResponse<u32, String> = RPCResponse::Hello("hi".to_string());
    assert_eq!(
        SyncNetworkContext::blocksync_response(r),
        Err("Invalid response type".to_string())
    );
}

#[test]
fn first_full_tipset_takes_the_first() {
    let res = SyncNetworkContext::first_full_tipset(vec![10, 20, 30], "[a]");
    assert_eq!(res, Ok(10));
}

#[test]
fn first_full_tipset_of_empty_reply_names_the_keys() {
    let res: Result<u32, String> = SyncNetworkContext::first_full_tipset(vec![], "TipsetKeys { cids: [] }");
    assert_eq!(
        res,
        Err("No full tipset found for cid: TipsetKeys { cids: [] }".to_string())
    );
}

#[test]
fn rpc_result_passes_the_reply_on() {
    let (tx, rx) = futures::channel::oneshot::channel::<u32>();
    tx.send(9).unwrap();
    let outcome = async_std::task::block_on(async_std::future::timeout(Duration::from_secs(5), rx));
    assert_eq!(SyncNetworkContext::rpc_result(outcome), Ok(9));
}

#[test]
fn rpc_result_reports_a_dropped_channel() {
    let (tx, rx) = futures::channel::oneshot::channel::<u32>();
    drop(tx);
    let outcome = async_std::task::block_on(async_std::future::timeout(Duration::from_secs(5), rx));
    assert_eq!(
        SyncNetworkContext::rpc_result(outcome),
        Err("oneshot canceled".to_string())
    );
}

#[test]
fn rpc_result_reports_a_timeout() {
    let (_tx, rx) = futures::channel::oneshot::channel::<u32>();
    let outcome = async_std::task::block_on(async_std::future::timeout(Duration::from_millis(10), rx));
    assert_eq!(
        SyncNetworkContext::rpc_result(outcome),
        Err("Request timed out".to_string())
    );
}

#[test]
fn reply_reaches_the_registered_sender() {
    let mut table: RequestTable<&str> = RequestTable::new();
    table.insert(1, "first");
    table.insert(2, "second");
    let action = handle_event::<&str, u32, ()>(
        &mut table,
        NetworkInput::RpcResponse { req_id: 2, response: 99 },
    );
    match action {
        HandlerAction::Reply { sender, response } => {
            assert_eq!(sender, "second");
            assert_eq!(response, 99);
        }
        _ => panic!("expected a reply"),
    }
    // The request no longer waits; the other one still does.
    let again = handle_event::<&str, u32, ()>(
        &mut table,
        NetworkInput::RpcResponse { req_id: 2, response: 5 },
    );
    assert!(matches!(again, HandlerAction::UnknownRequest { req_id: 2, response: 5 }));
    assert_eq!(table.remove(1), Some("first"));
    assert_eq!(table.remove(1), None);
}

#[test]
fn reply_to_hello_id_finds_no_request() {
    let mut ctx = SyncNetworkContext::new();
    let mut table: RequestTable<u8> = RequestTable::new();
    let id = ctx.start_rpc_request();
    table.insert(id, 7);
    let action = handle_event::<u8, u32, ()>(
        &mut table,
        NetworkInput::RpcResponse { req_id: HELLO_REQUEST_ID, response: 1 },
    );
    assert!(matches!(action, HandlerAction::UnknownRequest { req_id: 0, response: 1 }));
    assert_eq!(table.remove(id), Some(7));
}

#[test]
fn hello_events_add_the_peer_then_go_on() {
    let mut table: RequestTable<u8> = RequestTable::new();
    table.insert(3, 1);
    let action = handle_event::<u8, u32, &str>(&mut table, NetworkInput::Hello("hello"));
    assert!(matches!(action, HandlerAction::Forward { event: "hello", add_peer: true }));
    let action = handle_event::<u8, u32, &str>(&mut table, NetworkInput::Event("gossip"));
    assert!(matches!(action, HandlerAction::Forward { event: "gossip", add_peer: false }));
    let action = handle_event::<u8, u32, &str>(&mut table, NetworkInput::Closed);
    assert!(matches!(action, HandlerAction::Stop));
    assert_eq!(table.remove(3), Some(1));
}

#[test]
fn registering_an_id_again_replaces_the_channel() {
    let mut table: RequestTable<u8> = RequestTable::new();
    table.insert(4, 1);
    table.insert(4, 2);
    assert_eq!(table.remove(4), Some(2));
    assert_eq!(table.remove(4), None);
}
