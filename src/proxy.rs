//! The dispatcher: for every forwarded method on either service interface it
//! reads the request's chain, finds the shard that serves it, and obtains a
//! connection to that shard from the interface's own pool.
//!
//! Opening a connection and making the forwarded call are done by the caller:
//! `begin` says which shard a request goes to and whether a connection to it
//! is open, must be opened, or is being opened by another caller; `connected`
//! and `connect_failed` report how an opening went.

use vstd::prelude::*;

use crate::messages::{Method, Request};
use crate::pool::{
    checkout_step, established_step, failed_step, pool_wf, AddrView, Checkout, ClientHandle,
    ConnectionPool,
};
use crate::shards::{ShardAddress, ShardMap};

verus! {

/// The two service interfaces. Each has its own connection pool.
#[derive(Clone, Copy, Debug, PartialEq, Eq, Structural)]
pub enum Interface {
    /// The public interface, forwarded to the shards' node endpoints.
    Node,
    /// The internal interface, forwarded to the shards' worker endpoints.
    Worker,
}

impl Interface {
    /// Whether the interface offers `method`: the node interface has no
    /// cross-chain requests.
    pub open spec fn exposes(self, method: Method) -> bool {
        self == Interface::Worker || method != Method::CrossChainRequest
    }

    /// The other interface.
    pub open spec fn other(self) -> Interface {
        match self {
            Interface::Node => Interface::Worker,
            Interface::Worker => Interface::Node,
        }
    }
}

/// Why a request was not forwarded.
#[derive(Clone, Copy, Debug, PartialEq, Eq, Structural)]
pub enum ProxyError {
    /// The request's chain could not be read, or no shard serves it.
    NoRoute,
    /// The connection to the request's shard could not be opened.
    BackendUnreachable,
}

/// What the caller does next with a routed request.
#[derive(Clone, Debug)]
pub enum Step {
    /// Forward the request over the open connection `handle` to `shard`.
    Forward { shard: ShardAddress, handle: ClientHandle },
    /// Open a connection to `shard`, report the outcome, then forward.
    Connect { shard: ShardAddress },
    /// Another call is opening the connection to `shard`: ask again later.
    Wait { shard: ShardAddress },
}

impl Step {
    /// The shard the request goes to.
    pub open spec fn shard(&self) -> ShardAddress {
        match self {
            Step::Forward { shard, .. } => *shard,
            Step::Connect { shard } => *shard,
            Step::Wait { shard } => *shard,
        }
    }

    /// The pool's answer that the step carries out.
    pub open spec fn checkout(&self) -> Checkout {
        match self {
            Step::Forward { handle, .. } => Checkout::Reuse(*handle),
            Step::Connect { .. } => Checkout::Connect,
            Step::Wait { .. } => Checkout::Wait,
        }
    }
}

/// Where the proxy listens for both interfaces.
#[derive(Clone, Debug)]
pub struct PublicNetworkConfig {
    pub host: String,
    pub port: u16,
}

/// An IPv4 listening address.
#[derive(Clone, Copy, Debug)]
pub struct ListenAddress {
    pub ip: [u8; 4],
    pub port: u16,
}

/// The proxy: its listening configuration, the table of shards, and one
/// connection pool per interface.
pub struct GrpcProxy {
    public_config: PublicNetworkConfig,
    internal_config: ShardMap,
    node_connection_pool: ConnectionPool,
    worker_connection_pool: ConnectionPool,
}

impl GrpcProxy {
    pub closed spec fn wf(&self) -> bool {
        self.node_connection_pool.wf() && self.worker_connection_pool.wf()
    }

    /// The pool state of an interface's connections.
    pub closed spec fn pool(&self, iface: Interface) -> (Seq<AddrView>, Set<AddrView>) {
        match iface {
            Interface::Node => self.node_connection_pool@,
            Interface::Worker => self.worker_connection_pool@,
        }
    }

    /// The table of shards.
    pub closed spec fn shard_map(&self) -> ShardMap {
        self.internal_config
    }

    /// The port the proxy listens on.
    pub closed spec fn port(&self) -> u16 {
        self.public_config.port
    }

    /// The shard a request goes to: the one that serves its chain, if its
    /// chain can be read and a shard serves it.
    pub open spec fn route(&self, request: Request) -> Option<ShardAddress> {
        match request.routing_key() {
            Some(chain) => self.shard_map().shard_of(chain),
            None => None,
        }
    }

    /// A proxy with empty pools.
    pub fn new(public_config: PublicNetworkConfig, internal_config: ShardMap) -> (r: GrpcProxy)
        ensures
            r.wf(),
            r.port() == public_config.port,
            r.shard_map() == internal_config,
            r.pool(Interface::Node) == (Seq::<AddrView>::empty(), Set::<AddrView>::empty()),
            r.pool(Interface::Worker) == (Seq::<AddrView>::empty(), Set::<AddrView>::empty()),
    {
        GrpcProxy {
            public_config,
            internal_config,
            node_connection_pool: ConnectionPool::new(),
            worker_connection_pool: ConnectionPool::new(),
        }
    }

    /// The address both interfaces are served on: every IPv4 interface, at
    /// the configured port.
    pub fn address(&self) -> (r: ListenAddress)
        ensures
            r == (ListenAddress { ip: [0u8, 0u8, 0u8, 0u8], port: self.port() }),
    {
        ListenAddress { ip: [0u8, 0u8, 0u8, 0u8], port: self.public_config.port }
    }

    /// The number of connections opened so far on `iface`.
    pub fn connection_count(&self, iface: Interface) -> (r: usize)
        ensures
            r == self.pool(iface).0.len(),
    {
        match iface {
            Interface::Node => self.node_connection_pool.len(),
            Interface::Worker => self.worker_connection_pool.len(),
        }
    }

    /// The shard that `request` goes to, if any.
    pub fn shard_for(&self, request: &Request) -> (r: Option<ShardAddress>)
        ensures
            r == self.route(*request),
    {
        match request.chain_id() {
            Some(chain) => self.internal_config.resolve(chain),
            None => None,
        }
    }

    /// Asks the worker pool for a connection to `shard`.
    pub fn worker_client_for_shard(&mut self, shard: &ShardAddress) -> (r: Checkout)
        requires
            old(self).wf(),
        ensures
            final(self).wf(),
            (r, final(self).pool(Interface::Worker)) == checkout_step(
                old(self).pool(Interface::Worker),
                shard@,
            ),
            final(self).pool(Interface::Node) == old(self).pool(Interface::Node),
            final(self).shard_map() == old(self).shard_map(),
            final(self).port() == old(self).port(),
    {
        self.worker_connection_pool.checkout(shard)
    }

    /// Asks the node pool for a connection to `shard`.
    pub fn node_client_for_shard(&mut self, shard: &ShardAddress) -> (r: Checkout)
        requires
            old(self).wf(),
        ensures
            final(self).wf(),
            (r, final(self).pool(Interface::Node)) == checkout_step(
                old(self).pool(Interface::Node),
                shard@,
            ),
            final(self).pool(Interface::Worker) == old(self).pool(Interface::Worker),
            final(self).shard_map() == old(self).shard_map(),
            final(self).port() == old(self).port(),
    {
        self.node_connection_pool.checkout(shard)
    }

    /// Routes `request`, received on `iface`: fails with `NoRoute`, touching
    /// no pool, where it has no shard; otherwise names its shard and asks the
    /// interface's pool for a connection to it, leaving the other pool as it is.
    pub fn begin(&mut self, iface: Interface, request: &Request) -> (r: Result<Step, ProxyError>)
        requires
            old(self).wf(),
            iface.exposes(request.method()),
        ensures
            final(self).wf(),
            final(self).shard_map() == old(self).shard_map(),
            final(self).port() == old(self).port(),
            final(self).pool(iface.other()) == old(self).pool(iface.other()),
            match old(self).route(*request) {
                None => r == Err::<Step, ProxyError>(ProxyError::NoRoute) && final(self).pool(
                    iface,
                ) == old(self).pool(iface),
                Some(shard) => r matches Ok(step) && step.shard() == shard && (
                    step.checkout(),
                    final(self).pool(iface),
                ) == checkout_step(old(self).pool(iface), shard@),
            },
    {
        let shard = match self.shard_for(request) {
            Some(s) => s,
            None => return Err(ProxyError::NoRoute),
        };
        let answer = match iface {
            Interface::Node => self.node_client_for_shard(&shard),
            Interface::Worker => self.worker_client_for_shard(&shard),
        };
        match answer {
            Checkout::Reuse(handle) => Ok(Step::Forward { shard, handle }),
            Checkout::Connect => Ok(Step::Connect { shard }),
            Checkout::Wait => Ok(Step::Wait { shard }),
        }
    }

    /// Reports that the connection to `shard` on `iface`, which `begin` asked
    /// for, is open; gives its handle, or `None` where none was asked for.
    pub fn connected(&mut self, iface: Interface, shard: &ShardAddress) -> (r: Option<
        ClientHandle,
    >)
        requires
            old(self).wf(),
        ensures
            final(self).wf(),
            final(self).shard_map() == old(self).shard_map(),
            final(self).port() == old(self).port(),
            final(self).pool(iface.other()) == old(self).pool(iface.other()),
            (r, final(self).pool(iface)) == established_step(old(self).pool(iface), shard@),
    {
        match iface {
            Interface::Node => self.node_connection_pool.established(shard),
            Interface::Worker => self.worker_connection_pool.established(shard),
        }
    }

    /// Reports that the connection to `shard` on `iface` could not be opened:
    /// the request fails with `BackendUnreachable`, and the failure is not
    /// remembered.
    pub fn connect_failed(&mut self, iface: Interface, shard: &ShardAddress) -> (r: ProxyError)
        requires
            old(self).wf(),
        ensures
            r == ProxyError::BackendUnreachable,
            final(self).wf(),
            final(self).shard_map() == old(self).shard_map(),
            final(self).port() == old(self).port(),
            final(self).pool(iface.other()) == old(self).pool(iface.other()),
            final(self).pool(iface) == failed_step(old(self).pool(iface), shard@),
    {
        match iface {
            Interface::Node => self.node_connection_pool.failed(shard),
            Interface::Worker => self.worker_connection_pool.failed(shard),
        }
        ProxyError::BackendUnreachable
    }
}

} // verus!
