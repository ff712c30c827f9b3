use vstd::prelude::*;
use crate::codec::string_views;
use crate::tangle::TangleBlock;

verus! {

/// Best-effort propagation of new entries to reachable peers. The engine
/// records the identifiers handed to it, in order, for a carrier to drain;
/// whether a peer receives them is never observed here.
pub struct GossipEngine {
    outbox: Vec<String>,
}

impl GossipEngine {
    /// The identifiers handed over for propagation, oldest first.
    pub closed spec fn outbox_view(&self) -> Seq<Seq<char>> {
        string_views(self.outbox@)
    }

    /// An engine with nothing pending.
    pub fn new() -> (r: GossipEngine)
        ensures
            r.outbox_view() == Seq::<Seq<char>>::empty(),
    {
        GossipEngine { outbox: Vec::new() }
    }

    /// Hands an entry over for propagation, fire-and-forget.
    pub fn propagate_block(&mut self, block: &TangleBlock)
        ensures
            final(self).outbox_view() == old(self).outbox_view().push(block.id@),
    {
        let id = block.id.clone();
        self.outbox.push(id);
        proof {
            assert(self.outbox@.drop_last() =~= old(self).outbox@);
            assert(self.outbox_view() == string_views(self.outbox@.drop_last()).push(
                self.outbox@.last()@,
            ));
        }
    }

    /// The pending identifiers, oldest first, for a carrier to read.
    pub fn pending(&self) -> (r: &Vec<String>)
        ensures
            string_views(r@) == self.outbox_view(),
    {
        &self.outbox
    }
}

} // verus!
