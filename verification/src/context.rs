use vstd::prelude::*;
use vstd::string::StringExecFns;
use crate::codec::string_views;
use crate::crypto::CryptoKeypair;
use crate::gossip::GossipEngine;
use crate::mesh::{add_edge, add_id, EdgeView, TopologyGraph};
use crate::sensor::{sensor_json_ok, SensorData};
use crate::tangle::{block_id_of, Tangle, TangleBlock, TangleBlockData};

verus! {

/// The long-lived orchestrator: one identity, one ledger, one transport,
/// one topology. The embedding application holds one instance behind an
/// exclusive lock and routes every call through it.
pub struct EcoBlockContext {
    pub tangle: Tangle,
    pub keypair: CryptoKeypair,
    pub gossip_engine: GossipEngine,
    pub mesh: TopologyGraph,
}

/// What one ingestion call does. On a valid payload the signed entry's
/// identifier is returned and handed to the transport, and the entry is
/// appended to the ledger unless its identifier repeats — the ledger
/// refuses a repeat and the call swallows that refusal. On a malformed
/// payload an error is returned and nothing changes.
pub open spec fn create_block_post(
    pre: EcoBlockContext,
    post: EcoBlockContext,
    data: Seq<u8>,
    parents: Seq<Seq<char>>,
    r: Result<String, String>,
) -> bool {
    let id = block_id_of(pre.keypair.seed_view(), parents, data);
    &&& post.keypair == pre.keypair
    &&& post.mesh == pre.mesh
    &&& (r is Ok <==> sensor_json_ok(data))
    &&& (!sensor_json_ok(data) ==> post.tangle == pre.tangle && post.gossip_engine
        == pre.gossip_engine && (r matches Err(e) && e@.len() > 0))
    &&& (sensor_json_ok(data) ==> {
        &&& (r matches Ok(h) && h@ == id && h@.len() == 128)
        &&& post.gossip_engine.outbox_view() == pre.gossip_engine.outbox_view().push(id)
        &&& (pre.tangle.contains_id(id) ==> post.tangle == pre.tangle)
        &&& (!pre.tangle.contains_id(id) ==> {
            &&& post.tangle.entries().len() == pre.tangle.entries().len() + 1
            &&& post.tangle.entries().take(pre.tangle.entries().len() as int)
                == pre.tangle.entries()
            &&& post.tangle.entries().last().wf()
            &&& post.tangle.entries().last().id@ == id
            &&& string_views(post.tangle.entries().last().data.parents@) == parents
            &&& post.tangle.entries().last().data.data@ == data
            &&& post.tangle.contains_id(id)
        })
    })
}

impl EcoBlockContext {
    /// The context is well formed: its keypair holds a full seed and its
    /// ledger never repeats an identifier.
    pub open spec fn wf(&self) -> bool {
        &&& self.keypair.wf()
        &&& self.tangle.wf()
    }

    /// A context with a fresh identity and nothing held yet; a failure of
    /// the entropy source is handed back.
    pub fn new() -> (r: Result<EcoBlockContext, String>)
        ensures
            r matches Ok(c) ==> c.wf() && c.tangle.entries() == Seq::<TangleBlock>::empty()
                && c.gossip_engine.outbox_view() == Seq::<Seq<char>>::empty()
                && c.mesh.node_ids() == Seq::<Seq<char>>::empty() && c.mesh.edges_view()
                == Seq::<EdgeView>::empty(),
    {
        match CryptoKeypair::generate() {
            Err(e) => Err(e),
            Ok(keypair) => Ok(EcoBlockContext::with_keypair(keypair)),
        }
    }

    /// A context around a given identity, for embeddings and tests that
    /// need a deterministic or non-singleton instance.
    pub fn with_keypair(keypair: CryptoKeypair) -> (r: EcoBlockContext)
        requires
            keypair.wf(),
        ensures
            r.wf(),
            r.keypair == keypair,
            r.tangle.entries() == Seq::<TangleBlock>::empty(),
            r.gossip_engine.outbox_view() == Seq::<Seq<char>>::empty(),
            r.mesh.node_ids() == Seq::<Seq<char>>::empty(),
            r.mesh.edges_view() == Seq::<EdgeView>::empty(),
    {
        EcoBlockContext {
            tangle: Tangle::new(),
            keypair,
            gossip_engine: GossipEngine::new(),
            mesh: TopologyGraph::new(),
        }
    }

    /// Turns raw sensor bytes and parent references into a validated,
    /// signed, peer-visible ledger entry and returns its identifier.
    pub fn create_block(&mut self, data: Vec<u8>, parents: Vec<String>) -> (r: Result<
        String,
        String,
    >)
        requires
            old(self).wf(),
        ensures
            final(self).wf(),
            create_block_post(*old(self), *final(self), data@, string_views(parents@), r),
    {
        let sensor_data = match SensorData::from_bytes(data) {
            Ok(d) => d,
            Err(e) => return Err(e),
        };
        let block_data = TangleBlockData { parents, data: sensor_data };
        let block = TangleBlock::new(block_data, &self.keypair);
        let id = block.id.clone();
        self.gossip_engine.propagate_block(&block);
        let ghost pre_tangle = self.tangle;
        let _inserted = self.tangle.insert(block);
        proof {
            if _inserted is Ok {
                assert(self.tangle.entries().take(pre_tangle.entries().len() as int)
                    =~= pre_tangle.entries());
            }
        }
        Ok(id)
    }

    /// The number of entries the ledger holds.
    pub fn tangle_size(&self) -> (r: usize)
        ensures
            r == self.tangle.entries().len(),
    {
        self.tangle.len()
    }

    /// Forwards a weighted link between two peers to the topology; the
    /// weight's bits are passed through unjudged.
    pub fn add_peer_connection(&mut self, from: &str, to: &str, weight_bits: u32)
        ensures
            final(self).mesh.node_ids() == add_id(
                add_id(old(self).mesh.node_ids(), from@),
                to@,
            ),
            final(self).mesh.edges_view() == add_edge(
                old(self).mesh.edges_view(),
                from@,
                to@,
                weight_bits,
            ),
            final(self).tangle == old(self).tangle,
            final(self).keypair == old(self).keypair,
            final(self).gossip_engine == old(self).gossip_engine,
    {
        let from_key = String::from_str(from);
        let to_key = String::from_str(to);
        self.mesh.add_connection(&from_key, &to_key, weight_bits);
    }

    /// The neighbor identifiers of a peer, in the topology's order, or an
    /// empty list for an unknown peer.
    pub fn list_peers(&self, peer_id: &str) -> (r: Vec<String>)
        ensures
            string_views(r@) == self.mesh.neighbors_of(peer_id@),
    {
        let key = String::from_str(peer_id);
        match self.mesh.get_neighbors(&key) {
            Some(neighbors) => neighbors,
            None => Vec::new(),
        }
    }
}

} // verus!
