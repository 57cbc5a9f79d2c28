//! Streamed file transfer, reduced to its data path: a payload is cut
//! into fixed-size blocks, the blocks cross the wire in order, and the
//! receiver concatenates what arrives. The read and write calls
//! themselves happen outside the library; what is proved here is that
//! the blocks carry the payload exactly.

use vstd::prelude::*;

verus! {

use vstd::slice::slice_subrange;
use vstd::slice::slice_to_vec;

/// The size of one streamed block: 32 KiB.
pub const CHUNK_SIZE: usize = 32768;

/// The blocks a payload is streamed as: full blocks of the chunk size,
/// then one shorter final block; an empty payload sends nothing.
pub open spec fn spec_chunks(s: Seq<u8>) -> Seq<Seq<u8>>
    decreases s.len(),
{
    if s.len() == 0 {
        Seq::empty()
    } else if s.len() <= CHUNK_SIZE {
        seq![s]
    } else {
        seq![s.take(CHUNK_SIZE as int)] + spec_chunks(s.skip(CHUNK_SIZE as int))
    }
}

/// The bytes carried by a sequence of blocks, in order.
pub open spec fn spec_concat(chunks: Seq<Seq<u8>>) -> Seq<u8>
    decreases chunks.len(),
{
    if chunks.len() == 0 {
        Seq::empty()
    } else {
        chunks.first() + spec_concat(chunks.drop_first())
    }
}

proof fn lemma_concat_push(chunks: Seq<Seq<u8>>, c: Seq<u8>)
    ensures
        spec_concat(chunks.push(c)) =~= spec_concat(chunks) + c,
    decreases chunks.len(),
{
    if chunks.len() == 0 {
        assert(chunks.push(c).drop_first() =~= Seq::<Seq<u8>>::empty());
        assert(spec_concat(Seq::<Seq<u8>>::empty()) =~= Seq::<u8>::empty());
        assert(spec_concat(chunks.push(c)) =~= c);
        assert(spec_concat(chunks) + c =~= c);
    } else {
        assert(chunks.push(c).drop_first() =~= chunks.drop_first().push(c));
        lemma_concat_push(chunks.drop_first(), c);
        assert(chunks.push(c).first() == chunks.first());
    }
}

/// Law: chunking a payload and concatenating the blocks reproduces the
/// payload byte for byte, whatever its size.
pub proof fn lemma_chunk_round_trip(s: Seq<u8>)
    ensures
        spec_concat(spec_chunks(s)) == s,
    decreases s.len(),
{
    if s.len() == 0 {
        assert(spec_concat(spec_chunks(s)) =~= s);
    } else if s.len() <= CHUNK_SIZE {
        assert(spec_chunks(s) == seq![s]);
        assert(seq![s].drop_first() =~= Seq::<Seq<u8>>::empty());
        assert(spec_concat(Seq::<Seq<u8>>::empty()) =~= Seq::<u8>::empty());
        assert(spec_concat(spec_chunks(s)) =~= s);
    } else {
        lemma_chunk_round_trip(s.skip(CHUNK_SIZE as int));
        let t = seq![s.take(CHUNK_SIZE as int)] + spec_chunks(s.skip(CHUNK_SIZE as int));
        assert(t.first() == s.take(CHUNK_SIZE as int));
        assert(t.drop_first() =~= spec_chunks(s.skip(CHUNK_SIZE as int)));
        assert(spec_concat(t) =~= s.take(CHUNK_SIZE as int) + s.skip(CHUNK_SIZE as int));
        assert(spec_concat(spec_chunks(s)) =~= s);
    }
}

/// Law: every block is at most the chunk size, every block but the last
/// is exactly the chunk size, and no block is empty.
pub proof fn lemma_chunk_sizes(s: Seq<u8>)
    ensures
        forall|k: int|
            0 <= k < spec_chunks(s).len() ==> 0 < (#[trigger] spec_chunks(s)[k]).len()
                <= CHUNK_SIZE,
        forall|k: int|
            0 <= k < spec_chunks(s).len() - 1 ==> (#[trigger] spec_chunks(s)[k]).len()
                == CHUNK_SIZE,
    decreases s.len(),
{
    if s.len() > CHUNK_SIZE {
        lemma_chunk_sizes(s.skip(CHUNK_SIZE as int));
        let rest = spec_chunks(s.skip(CHUNK_SIZE as int));
        assert forall|k: int|
            0 <= k < spec_chunks(s).len() implies 0 < (#[trigger] spec_chunks(s)[k]).len()
            <= CHUNK_SIZE by {
            if k > 0 {
                assert(spec_chunks(s)[k] == rest[k - 1]);
            }
        }
        assert forall|k: int|
            0 <= k < spec_chunks(s).len() - 1 implies (#[trigger] spec_chunks(s)[k]).len()
            == CHUNK_SIZE by {
            if k > 0 {
                assert(spec_chunks(s)[k] == rest[k - 1]);
            }
        }
    }
}

/// Cuts a payload into the blocks the streaming loop sends, in order.
pub fn split_chunks(data: &Vec<u8>) -> (r: Vec<Vec<u8>>)
    ensures
        r@.map_values(|c: Vec<u8>| c@) == spec_chunks(data@),
{
    let n = data.len();
    let mut out: Vec<Vec<u8>> = Vec::new();
    let mut i: usize = 0;
    proof {
        assert(data@.skip(0) =~= data@);
        assert(out@.map_values(|c: Vec<u8>| c@) + spec_chunks(data@) =~= spec_chunks(data@));
    }
    while i < n
        invariant
            i <= n,
            n == data@.len(),
            spec_chunks(data@) == out@.map_values(|c: Vec<u8>| c@) + spec_chunks(
                data@.skip(i as int),
            ),
        decreases n - i,
    {
        let j: usize = if n - i > CHUNK_SIZE {
            i + CHUNK_SIZE
        } else {
            n
        };
        let chunk: Vec<u8> = slice_to_vec(slice_subrange(data.as_slice(), i, j));
        proof {
            let rem = data@.skip(i as int);
            assert(chunk@ =~= rem.take((j - i) as int));
            if n - i > CHUNK_SIZE {
                assert(rem.skip(CHUNK_SIZE as int) =~= data@.skip(j as int));
                assert(spec_chunks(rem) == seq![rem.take(CHUNK_SIZE as int)] + spec_chunks(
                    data@.skip(j as int),
                ));
            } else {
                assert(chunk@ =~= rem);
                assert(data@.skip(j as int) =~= Seq::<u8>::empty());
                assert(spec_chunks(rem) == seq![rem]);
            }
            assert(out@.push(chunk).map_values(|c: Vec<u8>| c@) =~= out@.map_values(
                |c: Vec<u8>| c@,
            ).push(chunk@));
            assert(out@.map_values(|c: Vec<u8>| c@) + spec_chunks(rem) =~= out@.map_values(
                |c: Vec<u8>| c@,
            ).push(chunk@) + spec_chunks(data@.skip(j as int)));
        }
        out.push(chunk);
        i = j;
    }
    proof {
        assert(data@.skip(n as int) =~= Seq::<u8>::empty());
        assert(out@.map_values(|c: Vec<u8>| c@) + spec_chunks(data@.skip(n as int))
            =~= out@.map_values(|c: Vec<u8>| c@));
    }
    out
}

/// Concatenates received blocks back into the payload, in arrival order.
pub fn concat_chunks(chunks: &Vec<Vec<u8>>) -> (r: Vec<u8>)
    ensures
        r@ == spec_concat(chunks@.map_values(|c: Vec<u8>| c@)),
{
    let n = chunks.len();
    let mut out: Vec<u8> = Vec::new();
    let mut i: usize = 0;
    while i < n
        invariant
            i <= n,
            n == chunks@.len(),
            out@ == spec_concat(chunks@.take(i as int).map_values(|c: Vec<u8>| c@)),
        decreases n - i,
    {
        proof {
            let m = |c: Vec<u8>| c@;
            assert(chunks@.take(i + 1).map_values(m) =~= chunks@.take(i as int).map_values(m).push(
                chunks@[i as int]@,
            ));
            lemma_concat_push(chunks@.take(i as int).map_values(m), chunks@[i as int]@);
        }
        out.extend_from_slice(chunks[i].as_slice());
        i = i + 1;
    }
    proof {
        assert(chunks@.take(n as int) =~= chunks@);
    }
    out
}

} // verus!
