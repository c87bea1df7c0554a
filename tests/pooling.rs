use grpc_proxy::pool::{Checkout, ClientHandle, ConnectionPool};
use grpc_proxy::shards::ShardAddress;

fn addr(host: &str, port: u16) -> ShardAddress {
    ShardAddress::new(host.to_string(), port)
}

#[test]
fn first_checkout_connects_and_later_ones_wait() {
    let mut pool = ConnectionPool::new();
    let a = addr("a", 1);
    assert_eq!(pool.checkout(&a), Checkout::Connect);
    for _ in 0..4 {
        assert_eq!(pool.checkout(&a), Checkout::Wait);
    }
    assert_eq!(pool.len(), 0);
}

#[test]
fn established_connection_is_reused() {
    let mut pool = ConnectionPool::new();
    let a = addr("a", 1);
    let b = addr("b", 1);
    assert_eq!(pool.checkout(&a), Checkout::Connect);
    assert_eq!(pool.checkout(&b), Checkout::Connect);
    assert_eq!(pool.established(&b), Some(ClientHandle { index: 0 }));
    assert_eq!(pool.established(&a), Some(ClientHandle { index: 1 }));
    assert_eq!(pool.checkout(&a), Checkout::Reuse(ClientHandle { index: 1 }));
    assert_eq!(pool.checkout(&b), Checkout::Reuse(ClientHandle { index: 0 }));
    assert_eq!(pool.len(), 2);
}

#[test]
fn unrequested_report_is_ignored() {
    let mut pool = ConnectionPool::new();
    let a = addr("a", 1);
    assert_eq!(pool.established(&a), None);
    assert_eq!(pool.len(), 0);
    assert_eq!(pool.checkout(&a), Checkout::Connect);
    assert_eq!(pool.established(&a), Some(ClientHandle { index: 0 }));
    assert_eq!(pool.established(&a), None);
    assert_eq!(pool.len(), 1);
}

#[test]
fn failure_is_not_cached() {
    let mut pool = ConnectionPool::new();
    let a = addr("a", 1);
    assert_eq!(pool.checkout(&a), Checkout::Connect);
    pool.failed(&a);
    assert_eq!(pool.checkout(&a), Checkout::Connect);
    assert_eq!(pool.established(&a), Some(ClientHandle { index: 0 }));
    assert_eq!(pool.checkout(&a), Checkout::Reuse(ClientHandle { index: 0 }));
}

#[test]
fn ports_tell_addresses_apart() {
    let mut pool = ConnectionPool::new();
    assert_eq!(pool.checkout(&addr("a", 1)), Checkout::Connect);
    assert_eq!(pool.checkout(&addr("a", 2)), Checkout::Connect);
    assert_eq!(pool.checkout(&addr("a", 1)), Checkout::Wait);
}
