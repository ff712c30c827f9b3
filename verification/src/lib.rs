//! A single network participant's view of a shared append-only,
//! DAG-structured ledger of sensor-originated records. The crate owns the
//! participant's signing identity, packages raw sensor payloads into signed
//! ledger entries, inserts them into the local ledger, hands them to the
//! gossip transport, and tracks a weighted adjacency model of known peers.
//! The embedding application holds one context behind an exclusive lock and
//! mirrors the node directory through a store value.

pub mod codec;
pub mod context;
pub mod crypto;
pub mod gossip;
pub mod hex;
pub mod laws;
pub mod mesh;
pub mod sensor;
pub mod store;
pub mod tangle;

use vstd::prelude::*;
use crate::codec::string_views;
use crate::context::{create_block_post, EcoBlockContext};
use crate::mesh::{add_edge, add_id};

verus! {

/// One ingestion call against a caller-held context; the embedding
/// application routes its locked singleton through this.
pub fn create_block(context: &mut EcoBlockContext, data: Vec<u8>, parents: Vec<String>) -> (r:
    Result<String, String>)
    requires
        old(context).wf(),
    ensures
        final(context).wf(),
        create_block_post(*old(context), *final(context), data@, string_views(parents@), r),
{
    context.create_block(data, parents)
}

/// The number of entries the context's ledger holds.
pub fn get_tangle_size(context: &EcoBlockContext) -> (r: usize)
    ensures
        r == context.tangle.entries().len(),
{
    context.tangle_size()
}

/// Records a weighted link between two peers in the context's topology.
pub fn add_peer_connection(context: &mut EcoBlockContext, from: String, to: String, weight_bits: u32)
    ensures
        final(context).mesh.node_ids() == add_id(
            add_id(old(context).mesh.node_ids(), from@),
            to@,
        ),
        final(context).mesh.edges_view() == add_edge(
            old(context).mesh.edges_view(),
            from@,
            to@,
            weight_bits,
        ),
        final(context).tangle == old(context).tangle,
        final(context).keypair == old(context).keypair,
        final(context).gossip_engine == old(context).gossip_engine,
{
    context.add_peer_connection(from.as_str(), to.as_str(), weight_bits)
}

/// The neighbor identifiers of a peer, or an empty list for an unknown one.
pub fn list_peers(context: &EcoBlockContext, peer_id: String) -> (r: Vec<String>)
    ensures
        string_views(r@) == context.mesh.neighbors_of(peer_id@),
{
    context.list_peers(peer_id.as_str())
}

} // verus!
