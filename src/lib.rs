//! Routing core of a sharding gRPC proxy: it reads the chain that a request
//! belongs to, finds the shard that serves that chain, and keeps one reusable
//! connection per shard address on each of its two service interfaces.

pub mod codec;
pub mod messages;
pub mod shards;
pub mod pool;
pub mod proxy;
