//! The requests that the proxy routes, and how each one names its chain.

use vstd::prelude::*;

use crate::codec::{
    bcs_block_and_round, bcs_certified_value, decode_block_and_round, decode_certified_value,
    decode_u64, le_value,
};

verus! {

/// Identifies a chain; requests are routed by it.
#[derive(Clone, Copy, Debug, PartialEq, Eq, Structural, Hash)]
pub struct ChainId(pub u64);

/// The chain that an encoded chain id names: eight little-endian bytes.
pub open spec fn chain_of_bytes(b: Seq<u8>) -> Option<ChainId> {
    if b.len() == 8 {
        Some(ChainId(le_value(b) as u64))
    } else {
        None
    }
}

/// The chain that an optional encoded chain id names.
pub open spec fn chain_of_field(f: Option<Vec<u8>>) -> Option<ChainId> {
    match f {
        Some(b) => chain_of_bytes(b@),
        None => None,
    }
}

impl ChainId {
    /// Reads a chain id from its encoding; `None` unless it is eight bytes.
    pub fn from_bytes(bytes: &[u8]) -> (r: Option<ChainId>)
        ensures
            r == chain_of_bytes(bytes@),
    {
        match decode_u64(bytes) {
            Some(v) => Some(ChainId(v)),
            None => None,
        }
    }
}

/// A block proposal; `content` encodes the proposed block and its round.
#[derive(Clone, Debug)]
pub struct BlockProposal {
    pub content: Vec<u8>,
    pub signature: Vec<u8>,
}

/// A certificate; `value` encodes the certified block.
#[derive(Clone, Debug)]
pub struct Certificate {
    pub value: Vec<u8>,
    pub signatures: Vec<Vec<u8>>,
}

/// A query for the state of a chain, which names its chain directly.
#[derive(Clone, Debug)]
pub struct ChainInfoQuery {
    pub chain_id: Option<Vec<u8>>,
    pub request_pending_messages: bool,
}

/// The two kinds of message that one chain sends another.
#[derive(Clone, Debug)]
pub enum CrossChainInner {
    /// Hands certificates from `sender` to `recipient`; it goes to the recipient.
    UpdateRecipient {
        sender: Option<Vec<u8>>,
        recipient: Option<Vec<u8>>,
        certificates: Vec<Vec<u8>>,
    },
    /// Tells `sender` that `recipient` is up to date; it goes back to the sender.
    ConfirmUpdatedRecipient {
        sender: Option<Vec<u8>>,
        recipient: Option<Vec<u8>>,
        height: u64,
    },
}

/// A request between chains; it is well formed only when `inner` is present
/// and both of its chain ids decode.
#[derive(Clone, Debug)]
pub struct CrossChainRequest {
    pub inner: Option<CrossChainInner>,
}

/// The chain that a proposal's content names.
pub open spec fn proposal_chain(content: Seq<u8>) -> Option<ChainId> {
    match bcs_block_and_round(content) {
        Some(t) => Some(ChainId(t.0)),
        None => None,
    }
}

/// The chain that a certified value names.
pub open spec fn certificate_chain(value: Seq<u8>) -> Option<ChainId> {
    match bcs_certified_value(value) {
        Some(t) => Some(ChainId(t.1)),
        None => None,
    }
}

/// The chain that a cross-chain request is addressed to: `None` unless it is
/// well formed.
pub open spec fn cross_chain_target(inner: Option<CrossChainInner>) -> Option<ChainId> {
    match inner {
        Some(CrossChainInner::UpdateRecipient { sender, recipient, .. }) => {
            if chain_of_field(sender) is Some {
                chain_of_field(recipient)
            } else {
                None
            }
        },
        Some(CrossChainInner::ConfirmUpdatedRecipient { sender, recipient, .. }) => {
            if chain_of_field(recipient) is Some {
                chain_of_field(sender)
            } else {
                None
            }
        },
        None => None,
    }
}

fn field_chain(f: &Option<Vec<u8>>) -> (r: Option<ChainId>)
    ensures
        r == chain_of_field(*f),
{
    match f {
        Some(b) => ChainId::from_bytes(b.as_slice()),
        None => None,
    }
}

impl BlockProposal {
    /// The chain of the proposed block; `None` where the content does not decode.
    pub fn chain_id(&self) -> (r: Option<ChainId>)
        ensures
            r == proposal_chain(self.content@),
    {
        match decode_block_and_round(self.content.as_slice()) {
            Some(t) => Some(ChainId(t.0)),
            None => None,
        }
    }
}

impl Certificate {
    /// The chain of the certified block; `None` where the value does not decode.
    pub fn chain_id(&self) -> (r: Option<ChainId>)
        ensures
            r == certificate_chain(self.value@),
    {
        match decode_certified_value(self.value.as_slice()) {
            Some(t) => Some(ChainId(t.1)),
            None => None,
        }
    }
}

impl ChainInfoQuery {
    /// The queried chain; `None` where it is absent or does not decode.
    pub fn chain_id(&self) -> (r: Option<ChainId>)
        ensures
            r == chain_of_field(self.chain_id),
    {
        field_chain(&self.chain_id)
    }
}

impl CrossChainRequest {
    /// The chain the request is addressed to; `None` where it is not well formed.
    pub fn chain_id(&self) -> (r: Option<ChainId>)
        ensures
            r == cross_chain_target(self.inner),
    {
        match &self.inner {
            Some(CrossChainInner::UpdateRecipient { sender, recipient, .. }) => {
                match field_chain(sender) {
                    Some(_) => field_chain(recipient),
                    None => None,
                }
            },
            Some(CrossChainInner::ConfirmUpdatedRecipient { sender, recipient, .. }) => {
                match field_chain(recipient) {
                    Some(_) => field_chain(sender),
                    None => None,
                }
            },
            None => None,
        }
    }
}

/// The methods that the proxy forwards.
#[derive(Clone, Copy, Debug, PartialEq, Eq, Structural)]
pub enum Method {
    BlockProposal,
    Certificate,
    ChainInfoQuery,
    CrossChainRequest,
}

/// A request as it reaches the proxy, tagged by its method.
#[derive(Clone, Debug)]
pub enum Request {
    BlockProposal(BlockProposal),
    Certificate(Certificate),
    ChainInfoQuery(ChainInfoQuery),
    CrossChainRequest(CrossChainRequest),
}

impl Request {
    /// The chain that the request is routed by, read as its method prescribes.
    pub open spec fn routing_key(&self) -> Option<ChainId> {
        match self {
            Request::BlockProposal(p) => proposal_chain(p.content@),
            Request::Certificate(c) => certificate_chain(c.value@),
            Request::ChainInfoQuery(q) => chain_of_field(q.chain_id),
            Request::CrossChainRequest(x) => cross_chain_target(x.inner),
        }
    }

    pub open spec fn method_spec(&self) -> Method {
        match self {
            Request::BlockProposal(_) => Method::BlockProposal,
            Request::Certificate(_) => Method::Certificate,
            Request::ChainInfoQuery(_) => Method::ChainInfoQuery,
            Request::CrossChainRequest(_) => Method::CrossChainRequest,
        }
    }

    /// The method that the request is for.
    #[verifier::when_used_as_spec(method_spec)]
    pub fn method(&self) -> (r: Method)
        ensures
            r == self.method_spec(),
    {
        match self {
            Request::BlockProposal(_) => Method::BlockProposal,
            Request::Certificate(_) => Method::Certificate,
            Request::ChainInfoQuery(_) => Method::ChainInfoQuery,
            Request::CrossChainRequest(_) => Method::CrossChainRequest,
        }
    }

    /// The chain that the request is routed by; `None` where it cannot be read.
    pub fn chain_id(&self) -> (r: Option<ChainId>)
        ensures
            r == self.routing_key(),
    {
        match self {
            Request::BlockProposal(p) => p.chain_id(),
            Request::Certificate(c) => c.chain_id(),
            Request::ChainInfoQuery(q) => q.chain_id(),
            Request::CrossChainRequest(x) => x.chain_id(),
        }
    }
}

} // verus!
