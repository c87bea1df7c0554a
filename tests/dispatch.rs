use grpc_proxy::messages::{
    BlockProposal, ChainId, ChainInfoQuery, CrossChainInner, CrossChainRequest, Request,
};
use grpc_proxy::pool::ClientHandle;
use grpc_proxy::proxy::{GrpcProxy, Interface, ProxyError, PublicNetworkConfig, Step};
use grpc_proxy::shards::{ShardAddress, ShardMap};

const C1: u64 = 0xc1;
const C2: u64 = 0xc2;

fn shard_a() -> ShardAddress {
    ShardAddress::new("shard-a".to_string(), 19100)
}

fn proxy() -> GrpcProxy {
    let mut shards = ShardMap::new();
    shards.assign(ChainId(C1), shard_a());
    GrpcProxy::new(PublicNetworkConfig { host: "proxy".to_string(), port: 19000 }, shards)
}

fn query(chain: u64) -> Request {
    Request::ChainInfoQuery(ChainInfoQuery {
        chain_id: Some(chain.to_le_bytes().to_vec()),
        request_pending_messages: false,
    })
}

fn shard_of(step: &Step) -> &ShardAddress {
    match step {
        Step::Forward { shard, .. } | Step::Connect { shard } | Step::Wait { shard } => shard,
    }
}

#[test]
fn listens_on_all_interfaces_at_the_public_port() {
    let a = proxy().address();
    assert_eq!(a.ip, [0, 0, 0, 0]);
    assert_eq!(a.port, 19000);
}

#[test]
fn shard_for_resolves_the_request_chain() {
    let p = proxy();
    assert!(p.shard_for(&query(C1)).unwrap().same_as(&shard_a()));
    assert!(p.shard_for(&query(C2)).is_none());
}

#[test]
fn chain_info_query_is_forwarded_to_its_shard() {
    let mut p = proxy();
    let step = p.begin(Interface::Node, &query(C1)).unwrap();
    assert!(matches!(step, Step::Connect { .. }));
    assert!(shard_of(&step).same_as(&shard_a()));
    assert_eq!(p.connected(Interface::Node, &shard_a()), Some(ClientHandle { index: 0 }));
    let step = p.begin(Interface::Node, &query(C1)).unwrap();
    match step {
        Step::Forward { shard, handle } => {
            assert!(shard.same_as(&shard_a()));
            assert_eq!(handle, ClientHandle { index: 0 });
        }
        other => panic!("expected a forward, got {:?}", other),
    }
}

#[test]
fn invalid_proposal_has_no_route() {
    let mut p = proxy();
    let r = Request::BlockProposal(BlockProposal { content: vec![0xde, 0xad], signature: vec![] });
    assert_eq!(p.begin(Interface::Worker, &r).unwrap_err(), ProxyError::NoRoute);
    assert_eq!(p.begin(Interface::Node, &r).unwrap_err(), ProxyError::NoRoute);
    assert_eq!(p.connection_count(Interface::Worker), 0);
    assert_eq!(p.connection_count(Interface::Node), 0);
    // Nothing was left pending either: the next routable call connects.
    assert!(matches!(p.begin(Interface::Worker, &query(C1)).unwrap(), Step::Connect { .. }));
}

#[test]
fn proposal_is_routed_by_its_block_chain() {
    let mut p = proxy();
    let operations: Vec<Vec<u8>> = vec![];
    let content = bcs::to_bytes(&((C1, 0u64, operations), 0u64)).unwrap();
    let r = Request::BlockProposal(BlockProposal { content, signature: vec![] });
    let step = p.begin(Interface::Worker, &r).unwrap();
    assert!(shard_of(&step).same_as(&shard_a()));
}

#[test]
fn cross_chain_notify_to_unknown_chain_has_no_route() {
    let mut p = proxy();
    let r = Request::CrossChainRequest(CrossChainRequest {
        inner: Some(CrossChainInner::UpdateRecipient {
            sender: Some(C1.to_le_bytes().to_vec()),
            recipient: Some(C2.to_le_bytes().to_vec()),
            certificates: vec![],
        }),
    });
    assert_eq!(p.begin(Interface::Worker, &r).unwrap_err(), ProxyError::NoRoute);
    assert_eq!(p.connection_count(Interface::Worker), 0);
}

#[test]
fn unknown_chain_has_no_route() {
    let mut p = proxy();
    assert_eq!(p.begin(Interface::Node, &query(C2)).unwrap_err(), ProxyError::NoRoute);
    assert_eq!(p.begin(Interface::Worker, &query(C2)).unwrap_err(), ProxyError::NoRoute);
}

#[test]
fn failed_connection_is_unreachable_and_retried() {
    let mut p = proxy();
    let step = p.begin(Interface::Worker, &query(C1)).unwrap();
    assert!(matches!(step, Step::Connect { .. }));
    assert_eq!(p.connect_failed(Interface::Worker, shard_of(&step)), ProxyError::BackendUnreachable);
    let step = p.begin(Interface::Worker, &query(C1)).unwrap();
    assert!(matches!(step, Step::Connect { .. }));
    assert_eq!(p.connected(Interface::Worker, shard_of(&step)), Some(ClientHandle { index: 0 }));
    assert!(matches!(p.begin(Interface::Worker, &query(C1)).unwrap(), Step::Forward { .. }));
}

#[test]
fn concurrent_calls_open_one_connection() {
    let mut p = proxy();
    let mut connects = 0;
    let mut waits = 0;
    for _ in 0..8 {
        match p.begin(Interface::Worker, &query(C1)).unwrap() {
            Step::Connect { .. } => connects += 1,
            Step::Wait { .. } => waits += 1,
            Step::Forward { .. } => panic!("no connection is open yet"),
        }
    }
    assert_eq!(connects, 1);
    assert_eq!(waits, 7);
    assert_eq!(p.connected(Interface::Worker, &shard_a()), Some(ClientHandle { index: 0 }));
    assert_eq!(p.connection_count(Interface::Worker), 1);
}

#[test]
fn interfaces_do_not_share_connections() {
    let mut p = proxy();
    assert!(matches!(p.begin(Interface::Node, &query(C1)).unwrap(), Step::Connect { .. }));
    assert_eq!(p.connected(Interface::Node, &shard_a()), Some(ClientHandle { index: 0 }));
    assert_eq!(p.connection_count(Interface::Worker), 0);
    assert!(matches!(p.begin(Interface::Worker, &query(C1)).unwrap(), Step::Connect { .. }));
    assert_eq!(p.connected(Interface::Worker, &shard_a()), Some(ClientHandle { index: 0 }));
    assert_eq!(p.connection_count(Interface::Node), 1);
    assert_eq!(p.connection_count(Interface::Worker), 1);
}

#[test]
fn failure_on_one_interface_leaves_the_other() {
    let mut p = proxy();
    assert!(matches!(p.begin(Interface::Node, &query(C1)).unwrap(), Step::Connect { .. }));
    assert!(matches!(p.begin(Interface::Worker, &query(C1)).unwrap(), Step::Connect { .. }));
    p.connect_failed(Interface::Worker, &shard_a());
    assert!(matches!(p.begin(Interface::Node, &query(C1)).unwrap(), Step::Wait { .. }));
}
