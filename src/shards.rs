//! Shard addresses and the table that assigns chains to shards.

use std::collections::HashMap;
use vstd::prelude::*;

use crate::messages::ChainId;

verus! {

broadcast use vstd::std_specs::hash::group_hash_axioms;

/// The network address of one shard.
#[derive(Clone, Debug)]
pub struct ShardAddress {
    pub host: String,
    pub port: u16,
}

impl View for ShardAddress {
    type V = (Seq<char>, u16);

    open spec fn view(&self) -> (Seq<char>, u16) {
        (self.host@, self.port)
    }
}

impl ShardAddress {
    pub fn new(host: String, port: u16) -> (r: ShardAddress)
        ensures
            r.host == host,
            r.port == port,
    {
        ShardAddress { host, port }
    }

    /// A copy of the address.
    pub fn duplicate(&self) -> (r: ShardAddress)
        ensures
            r == *self,
    {
        ShardAddress { host: self.host.clone(), port: self.port }
    }

    /// Whether two addresses name the same host and port.
    pub fn same_as(&self, other: &ShardAddress) -> (r: bool)
        ensures
            r == (self@ == other@),
    {
        self.port == other.port && self.host == other.host
    }
}

/// Assigns chains to shards. A lookup depends on the table alone.
pub struct ShardMap {
    shards: HashMap<u64, ShardAddress>,
}

impl ShardMap {
    /// The shard of each assigned chain, keyed by the chain's number.
    pub closed spec fn assignment(&self) -> Map<u64, ShardAddress> {
        self.shards@
    }

    /// The shard that serves `chain`, if one is assigned.
    pub open spec fn shard_of(&self, chain: ChainId) -> Option<ShardAddress> {
        if self.assignment().contains_key(chain.0) {
            Some(self.assignment()[chain.0])
        } else {
            None
        }
    }

    /// A table that assigns no chain.
    pub fn new() -> (r: ShardMap)
        ensures
            r.assignment() == Map::<u64, ShardAddress>::empty(),
    {
        ShardMap { shards: HashMap::new() }
    }

    /// Assigns `chain` to `shard`, replacing an earlier assignment.
    pub fn assign(&mut self, chain: ChainId, shard: ShardAddress)
        ensures
            final(self).assignment() == old(self).assignment().insert(chain.0, shard),
    {
        self.shards.insert(chain.0, shard);
    }

    /// Looks up the shard that serves `chain`; `None` where none is assigned.
    pub fn resolve(&self, chain: ChainId) -> (r: Option<ShardAddress>)
        ensures
            r == self.shard_of(chain),
    {
        match self.shards.get(&chain.0) {
            Some(a) => Some(a.duplicate()),
            None => None,
        }
    }
}

/// Resolving one chain twice against one table gives one answer: an address
/// if and only if the chain is assigned, and then the address it is assigned.
pub proof fn lemma_resolution_is_deterministic(m: ShardMap, chain: ChainId)
    ensures
        m.shard_of(chain) == m.shard_of(chain),
        m.shard_of(chain) is Some <==> m.assignment().contains_key(chain.0),
        m.shard_of(chain) matches Some(a) ==> a == m.assignment()[chain.0],
{
}

} // verus!
