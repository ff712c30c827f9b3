use vstd::prelude::*;
use vstd::string::StrSliceExecFns;
use vstd::string::StringSliceAdditionalSpecFns;
use vstd::utf8::encode_utf8;

verus! {

/// Little-endian rendering of `n` on `k` bytes, low byte first.
pub open spec fn le_bytes(n: nat, k: nat) -> Seq<u8>
    decreases k,
{
    if k == 0 {
        Seq::empty()
    } else {
        seq![(n % 256) as u8] + le_bytes(n / 256, (k - 1) as nat)
    }
}

/// The views of a sequence of strings, in order.
pub open spec fn string_views(ss: Seq<String>) -> Seq<Seq<char>>
    decreases ss.len(),
{
    if ss.len() == 0 {
        Seq::empty()
    } else {
        string_views(ss.drop_last()).push(ss.last()@)
    }
}

/// The views of a string sequence are those of its members, in place.
pub proof fn lemma_string_views_index(ss: Seq<String>)
    ensures
        string_views(ss).len() == ss.len(),
        forall|i: int| 0 <= i < ss.len() ==> string_views(ss)[i] == ss[i]@,
    decreases ss.len(),
{
    if ss.len() > 0 {
        lemma_string_views_index(ss.drop_last());
    }
}

/// A length-prefixed frame: eight little-endian length bytes, then the part.
pub open spec fn framed(part: Seq<u8>) -> Seq<u8> {
    le_bytes(part.len(), 8) + part
}

/// The byte string over the parent identifiers, each one length-framed as
/// UTF-8, in order.
pub open spec fn parents_part(parents: Seq<Seq<char>>) -> Seq<u8>
    decreases parents.len(),
{
    if parents.len() == 0 {
        Seq::empty()
    } else {
        parents_part(parents.drop_last()) + framed(encode_utf8(parents.last()))
    }
}

/// The byte string signed for a ledger entry: the framed parent identifiers
/// in order, then the framed sensor payload.
pub open spec fn message_of(parents: Seq<Seq<char>>, payload: Seq<u8>) -> Seq<u8> {
    parents_part(parents) + framed(payload)
}

fn push_le_len(out: &mut Vec<u8>, n: usize)
    ensures
        final(out)@ == old(out)@ + le_bytes(n as nat, 8),
{
    let mut m: u64 = n as u64;
    let mut k: usize = 0;
    while k < 8
        invariant
            k <= 8,
            old(out)@ + le_bytes(n as nat, 8) =~= out@ + le_bytes(m as nat, (8 - k) as nat),
        decreases 8 - k,
    {
        let b = (m % 256) as u8;
        proof {
            assert(le_bytes(m as nat, (8 - k) as nat) =~= seq![b] + le_bytes(
                (m / 256) as nat,
                (7 - k) as nat,
            ));
        }
        out.push(b);
        m = m / 256;
        k = k + 1;
    }
    proof {
        assert(le_bytes(m as nat, 0) =~= Seq::<u8>::empty());
        assert(final(out)@ =~= old(out)@ + le_bytes(n as nat, 8));
    }
}

fn push_bytes(out: &mut Vec<u8>, part: &Vec<u8>)
    ensures
        final(out)@ == old(out)@ + part@,
{
    let mut i: usize = 0;
    while i < part.len()
        invariant
            i <= part.len(),
            out@ =~= old(out)@ + part@.take(i as int),
        decreases part.len() - i,
    {
        out.push(part[i]);
        proof {
            assert(old(out)@ + part@.take((i + 1) as int) =~= (old(out)@ + part@.take(
                i as int,
            )).push(part@[i as int]));
        }
        i = i + 1;
    }
    proof {
        assert(part@.take(part@.len() as int) =~= part@);
    }
}

/// Builds the byte string that a ledger entry is signed over.
pub fn build_message(parents: &Vec<String>, payload: &Vec<u8>) -> (r: Vec<u8>)
    ensures
        r@ == message_of(string_views(parents@), payload@),
{
    let mut out: Vec<u8> = Vec::new();
    let mut i: usize = 0;
    while i < parents.len()
        invariant
            i <= parents.len(),
            out@ =~= parents_part(string_views(parents@.take(i as int))),
        decreases parents.len() - i,
    {
        let pb = parents[i].as_str().as_bytes_vec();
        push_le_len(&mut out, pb.len());
        push_bytes(&mut out, &pb);
        proof {
            let ghost sv1 = string_views(parents@.take((i + 1) as int));
            assert(parents@.take((i + 1) as int).drop_last() =~= parents@.take(i as int));
            assert(sv1 == string_views(parents@.take(i as int)).push(parents@[i as int]@));
            assert(sv1.drop_last() =~= string_views(parents@.take(i as int)));
            assert(pb@ == encode_utf8(parents@[i as int]@));
            assert(out@ =~= parents_part(sv1.drop_last()) + framed(encode_utf8(sv1.last())));
            assert(out@ =~= parents_part(sv1));
        }
        i = i + 1;
    }
    push_le_len(&mut out, payload.len());
    push_bytes(&mut out, payload);
    proof {
        assert(parents@.take(parents@.len() as int) =~= parents@);
        assert(out@ =~= message_of(string_views(parents@), payload@));
    }
    out
}

} // verus!
