use vstd::prelude::*;
use crate::codec::{lemma_string_views_index, string_views};

verus! {

/// One directed weighted link between two peers. The weight carries the bit
/// pattern of the caller's numeric weight and is never interpreted here.
pub struct Edge {
    pub from: String,
    pub to: String,
    pub weight_bits: u32,
}

/// The view of one link: source, target, weight bits.
pub type EdgeView = (Seq<char>, Seq<char>, u32);

/// The views of a link sequence, in place.
pub open spec fn edge_views(es: Seq<Edge>) -> Seq<EdgeView>
    decreases es.len(),
{
    if es.len() == 0 {
        Seq::empty()
    } else {
        edge_views(es.drop_last()).push((es.last().from@, es.last().to@, es.last().weight_bits))
    }
}

/// Whether the links hold one from `from` to `to`, of any weight.
pub open spec fn seq_has_edge(es: Seq<EdgeView>, from: Seq<char>, to: Seq<char>) -> bool {
    exists|i: int| 0 <= i < es.len() && es[i].0 == from && es[i].1 == to
}

/// The targets of the links leaving `id`, oldest link first.
pub open spec fn neighbors_from(es: Seq<EdgeView>, id: Seq<char>) -> Seq<Seq<char>>
    decreases es.len(),
{
    if es.len() == 0 {
        Seq::empty()
    } else if es.last().0 == id {
        neighbors_from(es.drop_last(), id).push(es.last().1)
    } else {
        neighbors_from(es.drop_last(), id)
    }
}

/// A registration: the identifier is appended unless already present.
pub open spec fn add_id(s: Seq<Seq<char>>, id: Seq<char>) -> Seq<Seq<char>> {
    if s.contains(id) {
        s
    } else {
        s.push(id)
    }
}

/// A link insertion: the link is appended unless one with the same endpoints
/// is already present, in which case nothing changes.
pub open spec fn add_edge(es: Seq<EdgeView>, from: Seq<char>, to: Seq<char>, w: u32) -> Seq<
    EdgeView,
> {
    if seq_has_edge(es, from, to) {
        es
    } else {
        es.push((from, to, w))
    }
}

/// The weighted adjacency model of known peer connectivity.
pub struct TopologyGraph {
    nodes: Vec<String>,
    edges: Vec<Edge>,
}

impl TopologyGraph {
    /// The registered peer identifiers, oldest first.
    pub closed spec fn node_ids(&self) -> Seq<Seq<char>> {
        string_views(self.nodes@)
    }

    /// The links held, oldest first.
    pub closed spec fn edges_view(&self) -> Seq<EdgeView> {
        edge_views(self.edges@)
    }

    /// Whether this peer is known.
    pub open spec fn has_node(&self, id: Seq<char>) -> bool {
        self.node_ids().contains(id)
    }

    /// The identifiers a known peer links to, oldest link first; an unknown
    /// peer has none.
    pub open spec fn neighbors_of(&self, id: Seq<char>) -> Seq<Seq<char>> {
        if self.has_node(id) {
            neighbors_from(self.edges_view(), id)
        } else {
            Seq::empty()
        }
    }

    /// An empty topology.
    pub fn new() -> (r: TopologyGraph)
        ensures
            r.node_ids() == Seq::<Seq<char>>::empty(),
            r.edges_view() == Seq::<EdgeView>::empty(),
    {
        TopologyGraph { nodes: Vec::new(), edges: Vec::new() }
    }

    fn knows(&self, id: &String) -> (r: bool)
        ensures
            r == self.has_node(id@),
    {
        proof {
            lemma_string_views_index(self.nodes@);
        }
        let mut i: usize = 0;
        while i < self.nodes.len()
            invariant
                i <= self.nodes.len(),
                forall|j: int| 0 <= j < i ==> self.nodes@[j]@ != id@,
                string_views(self.nodes@).len() == self.nodes@.len(),
                forall|j: int|
                    0 <= j < self.nodes@.len() ==> string_views(self.nodes@)[j] == self.nodes@[j]@,
            decreases self.nodes.len() - i,
        {
            if self.nodes[i] == *id {
                proof {
                    assert(self.node_ids()[i as int] == id@);
                }
                return true;
            }
            i = i + 1;
        }
        proof {
            assert forall|j: int| 0 <= j < self.node_ids().len() implies self.node_ids()[j]
                != id@ by {
                assert(self.node_ids()[j] == self.nodes@[j]@);
            }
        }
        false
    }

    /// Registers a peer; registering it again changes nothing.
    pub fn add_node(&mut self, id: &String)
        ensures
            final(self).node_ids() == add_id(old(self).node_ids(), id@),
            final(self).edges_view() == old(self).edges_view(),
    {
        if !self.knows(id) {
            self.nodes.push(id.clone());
            proof {
                assert(self.nodes@.drop_last() =~= old(self).nodes@);
                assert(self.node_ids() == string_views(self.nodes@.drop_last()).push(
                    self.nodes@.last()@,
                ));
            }
        }
    }

    fn linked(&self, from: &String, to: &String) -> (r: bool)
        ensures
            r == seq_has_edge(self.edges_view(), from@, to@),
    {
        proof {
            lemma_edge_views_index(self.edges@);
        }
        let mut i: usize = 0;
        while i < self.edges.len()
            invariant
                i <= self.edges.len(),
                forall|j: int|
                    0 <= j < i ==> !(self.edges@[j].from@ == from@ && self.edges@[j].to@ == to@),
                edge_views(self.edges@).len() == self.edges@.len(),
                forall|j: int|
                    0 <= j < self.edges@.len() ==> edge_views(self.edges@)[j] == (
                    self.edges@[j].from@,
                    self.edges@[j].to@,
                    self.edges@[j].weight_bits,
                    ),
            decreases self.edges.len() - i,
        {
            if self.edges[i].from == *from && self.edges[i].to == *to {
                proof {
                    assert(self.edges_view()[i as int].0 == from@);
                }
                return true;
            }
            i = i + 1;
        }
        proof {
            assert forall|j: int| 0 <= j < self.edges_view().len() implies !(
            self.edges_view()[j].0 == from@ && self.edges_view()[j].1 == to@) by {
                assert(self.edges_view()[j] == (
                    self.edges@[j].from@,
                    self.edges@[j].to@,
                    self.edges@[j].weight_bits,
                ));
            }
        }
        false
    }

    /// Records a directed weighted link. Both endpoints are registered, and
    /// a link already present between them is left as it is.
    pub fn add_connection(&mut self, from: &String, to: &String, weight_bits: u32)
        ensures
            final(self).node_ids() == add_id(add_id(old(self).node_ids(), from@), to@),
            final(self).edges_view() == add_edge(
                old(self).edges_view(),
                from@,
                to@,
                weight_bits,
            ),
    {
        self.add_node(from);
        self.add_node(to);
        let ghost mid = *self;
        if !self.linked(from, to) {
            self.edges.push(Edge { from: from.clone(), to: to.clone(), weight_bits });
            proof {
                assert(self.edges@.drop_last() =~= mid.edges@);
                assert(edge_views(self.edges@.drop_last()) == mid.edges_view());
                assert(self.edges_view() == edge_views(self.edges@.drop_last()).push(
                    (self.edges@.last().from@, self.edges@.last().to@, self.edges@.last().weight_bits),
                ));
            }
        }
    }

    /// The links leaving a known peer, oldest first, or nothing for an
    /// unknown one.
    pub fn get_neighbors(&self, id: &String) -> (r: Option<Vec<String>>)
        ensures
            r is Some <==> self.has_node(id@),
            r matches Some(v) ==> string_views(v@) == self.neighbors_of(id@),
            r is None ==> self.neighbors_of(id@) == Seq::<Seq<char>>::empty(),
    {
        if !self.knows(id) {
            return None;
        }
        let mut out: Vec<String> = Vec::new();
        let mut i: usize = 0;
        while i < self.edges.len()
            invariant
                i <= self.edges.len(),
                string_views(out@) =~= neighbors_from(edge_views(self.edges@.take(i as int)), id@),
            decreases self.edges.len() - i,
        {
            let ghost prev_out = out@;
            let ghost ev = edge_views(self.edges@.take(i as int));
            let ghost t = (
                self.edges@[i as int].from@,
                self.edges@[i as int].to@,
                self.edges@[i as int].weight_bits,
            );
            proof {
                assert(self.edges@.take((i + 1) as int).drop_last() =~= self.edges@.take(i as int));
                assert(edge_views(self.edges@.take((i + 1) as int)) == ev.push(t));
                assert(ev.push(t).drop_last() =~= ev);
                assert(neighbors_from(ev.push(t), id@) == if t.0 == id@ {
                    neighbors_from(ev, id@).push(t.1)
                } else {
                    neighbors_from(ev, id@)
                });
            }
            if self.edges[i].from == *id {
                out.push(self.edges[i].to.clone());
                proof {
                    assert(out@.drop_last() =~= prev_out);
                    assert(string_views(out@) == string_views(out@.drop_last()).push(
                        out@.last()@,
                    ));
                }
            }
            i = i + 1;
        }
        proof {
            assert(self.edges@.take(self.edges@.len() as int) =~= self.edges@);
        }
        Some(out)
    }
}

/// The views of a link sequence are those of its members, in place.
proof fn lemma_edge_views_index(es: Seq<Edge>)
    ensures
        edge_views(es).len() == es.len(),
        forall|i: int|
            0 <= i < es.len() ==> edge_views(es)[i] == (es[i].from@, es[i].to@, es[i].weight_bits),
    decreases es.len(),
{
    if es.len() > 0 {
        lemma_edge_views_index(es.drop_last());
    }
}

} // verus!
