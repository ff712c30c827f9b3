use vstd::prelude::*;
use crate::codec::{build_message, message_of, string_views};
use crate::crypto::{sig_of, CryptoKeypair};
use crate::hex::{hex_of, lemma_hex_of_len, to_hex};
use crate::sensor::SensorData;

verus! {

/// The identifier a ledger entry gets: the hex rendering of the signature of
/// its framed content under the author's seed.
pub open spec fn block_id_of(seed: Seq<u8>, parents: Seq<Seq<char>>, payload: Seq<u8>) -> Seq<
    char,
> {
    hex_of(sig_of(seed, message_of(parents, payload)))
}

/// The content of one ledger entry: the identifiers of the prior entries it
/// builds on, in order, and one sensor payload.
pub struct TangleBlockData {
    pub parents: Vec<String>,
    pub data: SensorData,
}

/// One immutable, signed ledger entry.
pub struct TangleBlock {
    pub id: String,
    pub signature: Vec<u8>,
    pub data: TangleBlockData,
}

impl TangleBlock {
    /// An entry is well formed when its identifier renders its signature in
    /// hex and its payload is valid.
    pub open spec fn wf(&self) -> bool {
        &&& self.id@ == hex_of(self.signature@)
        &&& self.data.data.wf()
    }

    /// Builds and signs a ledger entry. The identifier is a function of the
    /// author's seed, the parent identifiers and the payload alone.
    pub fn new(data: TangleBlockData, keypair: &CryptoKeypair) -> (r: TangleBlock)
        requires
            keypair.wf(),
            data.data.wf(),
        ensures
            r.wf(),
            r.id@ == block_id_of(keypair.seed_view(), string_views(data.parents@), data.data@),
            r.id@.len() == 128,
            r.data == data,
    {
        let msg = build_message(&data.parents, data.data.bytes());
        let signature = keypair.sign(&msg);
        let id = to_hex(&signature);
        proof {
            lemma_hex_of_len(signature@);
        }
        TangleBlock { id, signature, data }
    }
}

/// Why the ledger refused an entry.
#[derive(PartialEq, Eq, Structural, Clone, Copy, Debug)]
pub enum TangleError {
    /// An entry with the same identifier is already held.
    DuplicateId,
}

/// The append-only DAG ledger: entries keyed by identifier, held in
/// insertion order.
pub struct Tangle {
    blocks: Vec<TangleBlock>,
}

impl Tangle {
    /// The entries held, oldest first.
    pub closed spec fn entries(&self) -> Seq<TangleBlock> {
        self.blocks@
    }

    /// Whether some held entry carries this identifier.
    pub open spec fn contains_id(&self, id: Seq<char>) -> bool {
        exists|i: int| 0 <= i < self.entries().len() && self.entries()[i].id@ == id
    }

    /// Identifiers are never repeated.
    pub open spec fn wf(&self) -> bool {
        forall|i: int, j: int|
            0 <= i < j < self.entries().len() ==> self.entries()[i].id@ != self.entries()[j].id@
    }

    /// An empty ledger.
    pub fn new() -> (r: Tangle)
        ensures
            r.entries() == Seq::<TangleBlock>::empty(),
            r.wf(),
    {
        Tangle { blocks: Vec::new() }
    }

    fn holds_id(&self, id: &String) -> (r: bool)
        ensures
            r == self.contains_id(id@),
    {
        let mut i: usize = 0;
        while i < self.blocks.len()
            invariant
                i <= self.blocks.len(),
                forall|j: int| 0 <= j < i ==> self.blocks@[j].id@ != id@,
            decreases self.blocks.len() - i,
    {
            if self.blocks[i].id == *id {
                proof {
                    assert(self.entries()[i as int].id@ == id@);
                }
                return true;
            }
            i = i + 1;
        }
        false
    }

    /// Inserts an entry. A repeated identifier is refused and the ledger
    /// stands unchanged; otherwise the entry is appended.
    pub fn insert(&mut self, block: TangleBlock) -> (r: Result<(), TangleError>)
        requires
            old(self).wf(),
        ensures
            final(self).wf(),
            r is Ok <==> !old(self).contains_id(block.id@),
            r is Ok ==> final(self).entries() == old(self).entries().push(block),
            r is Err ==> *final(self) == *old(self) && r == Err::<(), TangleError>(
                TangleError::DuplicateId,
            ),
    {
        if self.holds_id(&block.id) {
            Err(TangleError::DuplicateId)
        } else {
            proof {
                assert(!old(self).contains_id(block.id@));
            }
            self.blocks.push(block);
            proof {
                assert forall|i: int, j: int|
                    0 <= i < j < self.entries().len() implies self.entries()[i].id@
                    != self.entries()[j].id@ by {
                    if j == self.entries().len() - 1 {
                        assert(self.entries()[i] == old(self).entries()[i]);
                        assert(old(self).entries()[i].id@ != self.entries()[j].id@);
                    } else {
                        assert(old(self).entries()[i].id@ != old(self).entries()[j].id@);
                    }
                }
            }
            Ok(())
        }
    }

    /// The number of entries held.
    pub fn len(&self) -> (r: usize)
        ensures
            r == self.entries().len(),
    {
        self.blocks.len()
    }
}

} // verus!
