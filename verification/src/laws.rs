use vstd::prelude::*;
use crate::context::{create_block_post, EcoBlockContext};
use crate::mesh::{add_edge, add_id, neighbors_from, seq_has_edge, EdgeView, TopologyGraph};
use crate::sensor::sensor_json_ok;
use crate::store::{
    create_local_node_post, generate_keypair_post, public_key_res, reset_node_post, NodeStore,
};
use crate::tangle::block_id_of;

verus! {

/// A valid payload whose entry identifier is not yet held yields that
/// identifier — never empty — and the ledger grows by exactly one entry,
/// which is also handed to the transport.
pub proof fn law_create_block_appends(
    pre: EcoBlockContext,
    post: EcoBlockContext,
    data: Seq<u8>,
    parents: Seq<Seq<char>>,
    r: Result<String, String>,
)
    requires
        create_block_post(pre, post, data, parents, r),
        sensor_json_ok(data),
        !pre.tangle.contains_id(block_id_of(pre.keypair.seed_view(), parents, data)),
    ensures
        r matches Ok(h) && h@.len() > 0,
        post.tangle.entries().len() == pre.tangle.entries().len() + 1,
        post.gossip_engine.outbox_view() == pre.gossip_engine.outbox_view().push(
            block_id_of(pre.keypair.seed_view(), parents, data),
        ),
{
}

/// Ingestion calls are serialized by exclusive access to the context, so
/// two calls in sequence whose fresh entries carry distinct identifiers
/// lose neither: the ledger grows by exactly two entries.
pub proof fn law_sequential_ingestions_accumulate(
    c0: EcoBlockContext,
    c1: EcoBlockContext,
    c2: EcoBlockContext,
    data1: Seq<u8>,
    parents1: Seq<Seq<char>>,
    r1: Result<String, String>,
    data2: Seq<u8>,
    parents2: Seq<Seq<char>>,
    r2: Result<String, String>,
)
    requires
        create_block_post(c0, c1, data1, parents1, r1),
        create_block_post(c1, c2, data2, parents2, r2),
        sensor_json_ok(data1),
        sensor_json_ok(data2),
        !c0.tangle.contains_id(block_id_of(c0.keypair.seed_view(), parents1, data1)),
        !c1.tangle.contains_id(block_id_of(c1.keypair.seed_view(), parents2, data2)),
    ensures
        c2.tangle.entries().len() == c0.tangle.entries().len() + 2,
{
}

/// A malformed payload is refused with an error string and the ledger is
/// left exactly as it was.
pub proof fn law_create_block_rejects(
    pre: EcoBlockContext,
    post: EcoBlockContext,
    data: Seq<u8>,
    parents: Seq<Seq<char>>,
    r: Result<String, String>,
)
    requires
        create_block_post(pre, post, data, parents, r),
        !sensor_json_ok(data),
    ensures
        r matches Err(e) && e@.len() > 0,
        post.tangle == pre.tangle,
        post.tangle.entries().len() == pre.tangle.entries().len(),
{
}

/// After a reset the node reads as uninitialized.
pub proof fn law_reset_leaves_uninitialized(pre: NodeStore, post: NodeStore)
    requires
        reset_node_post(pre, post),
    ensures
        !post.initialized(),
{
}

/// After a successful guarded bootstrap the node reads as initialized.
pub proof fn law_create_leaves_initialized(
    pre: NodeStore,
    post: NodeStore,
    r: Result<String, String>,
)
    requires
        create_local_node_post(pre, post, r),
        r is Ok,
    ensures
        post.initialized(),
{
}

/// A second guarded bootstrap without an intervening reset is refused with
/// the distinguished conflict error, and the keypair file stands unchanged.
pub proof fn law_second_create_refused(
    s0: NodeStore,
    s1: NodeStore,
    r1: Result<String, String>,
    s2: NodeStore,
    r2: Result<String, String>,
)
    requires
        !s0.initialized(),
        create_local_node_post(s0, s1, r1),
        r1 is Ok,
        create_local_node_post(s1, s2, r2),
    ensures
        r2 matches Err(e) && e@ == "AlreadyInitialized"@,
        s2 == s1,
{
}

/// Generating a keypair and then reading the public key back from the same
/// store yield one and the same hex string.
pub proof fn law_generate_then_get(
    s0: NodeStore,
    s1: NodeStore,
    r1: Result<String, String>,
    r2: Result<String, String>,
)
    requires
        generate_keypair_post(s0, s1, r1),
        r1 is Ok,
        public_key_res(s1, r2),
    ensures
        r2 is Ok,
        r2->Ok_0@ == r1->Ok_0@,
{
}

/// A link that the links hold is listed among its source's neighbors.
proof fn lemma_edge_listed(es: Seq<EdgeView>, from: Seq<char>, to: Seq<char>)
    requires
        seq_has_edge(es, from, to),
    ensures
        neighbors_from(es, from).contains(to),
    decreases es.len(),
{
    let i = choose|i: int| 0 <= i < es.len() && es[i].0 == from && es[i].1 == to;
    if i == es.len() - 1 {
        assert(neighbors_from(es, from).last() == to);
        assert(neighbors_from(es, from).contains(to));
    } else {
        assert(es.drop_last()[i] == es[i]);
        assert(seq_has_edge(es.drop_last(), from, to));
        lemma_edge_listed(es.drop_last(), from, to);
        let prev = neighbors_from(es.drop_last(), from);
        let j = choose|j: int| 0 <= j < prev.len() && prev[j] == to;
        if es.last().0 == from {
            assert(neighbors_from(es, from)[j] == to);
        } else {
            assert(neighbors_from(es, from) == prev);
        }
        assert(neighbors_from(es, from).contains(to));
    }
}

/// After a connection is recorded, the target is among the source's listed
/// neighbors.
pub proof fn law_connect_then_listed(
    pre: TopologyGraph,
    post: TopologyGraph,
    from: Seq<char>,
    to: Seq<char>,
    w: u32,
)
    requires
        post.node_ids() == add_id(add_id(pre.node_ids(), from), to),
        post.edges_view() == add_edge(pre.edges_view(), from, to, w),
    ensures
        post.neighbors_of(from).contains(to),
{
    let n1 = add_id(pre.node_ids(), from);
    if !pre.node_ids().contains(from) {
        assert(n1.last() == from);
        assert(n1.contains(from));
    }
    assert(n1.contains(from));
    if n1.contains(to) {
        assert(post.node_ids().contains(from));
    } else {
        let k = choose|k: int| 0 <= k < n1.len() && n1[k] == from;
        assert(post.node_ids()[k] == from);
        assert(post.node_ids().contains(from));
    }
    if seq_has_edge(pre.edges_view(), from, to) {
        lemma_edge_listed(pre.edges_view(), from, to);
    } else {
        let es = pre.edges_view().push((from, to, w));
        assert(es.last() == (from, to, w));
        assert(seq_has_edge(es, from, to));
        lemma_edge_listed(es, from, to);
    }
}

/// A peer the topology has never seen has no neighbors to list.
pub proof fn law_unknown_peer_has_no_neighbors(g: TopologyGraph, id: Seq<char>)
    requires
        !g.has_node(id),
    ensures
        g.neighbors_of(id) == Seq::<Seq<char>>::empty(),
{
}

} // verus!
