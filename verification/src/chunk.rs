//! Chunks: the ordered, immutable byte sequences produced by single
//! reads, and the byte-level helpers the consumer side uses to put
//! them back together.

use vstd::prelude::*;

verus! {

/// The concatenation of a sequence of byte chunks, in order.
pub open spec fn joined(chunks: Seq<Seq<u8>>) -> Seq<u8>
    decreases chunks.len(),
{
    if chunks.len() == 0 {
        Seq::empty()
    } else {
        joined(chunks.drop_last()) + chunks.last()
    }
}

/// Concatenation splits at any point: the bytes of the first `k`
/// chunks followed by the bytes of the rest are the bytes of all.
pub proof fn lemma_joined_split(chunks: Seq<Seq<u8>>, k: int)
    requires
        0 <= k <= chunks.len(),
    ensures
        joined(chunks) == joined(chunks.take(k)) + joined(chunks.skip(k)),
    decreases chunks.len(),
{
    if k == chunks.len() {
        assert(chunks.take(k) =~= chunks);
        assert(chunks.skip(k) =~= Seq::<Seq<u8>>::empty());
        assert(joined(chunks) + joined(chunks.skip(k)) =~= joined(chunks));
    } else {
        let shorter = chunks.drop_last();
        lemma_joined_split(shorter, k);
        assert(shorter.take(k) =~= chunks.take(k));
        assert(chunks.skip(k).drop_last() =~= shorter.skip(k));
        assert(chunks.skip(k).len() > 0);
        assert(chunks.skip(k).last() == chunks.last());
        assert(joined(chunks.take(k)) + (joined(shorter.skip(k)) + chunks.last()) =~= (joined(
            chunks.take(k),
        ) + joined(shorter.skip(k))) + chunks.last());
    }
}

/// Interprets the result of one raw read from the descriptor: the
/// first `bytes_read` bytes of the scratch buffer become a fresh
/// chunk; a read of zero bytes yields nothing and is not an error.
pub fn read(buffer: &[u8], bytes_read: usize) -> (chunk: Option<Vec<u8>>)
    requires
        bytes_read <= buffer@.len(),
    ensures
        bytes_read == 0 ==> chunk is None,
        bytes_read > 0 ==> (chunk matches Some(c) && c@ == buffer@.take(bytes_read as int)),
{
    if bytes_read == 0 {
        None
    } else {
        let copied = vstd::slice::slice_to_vec(vstd::slice::slice_subrange(buffer, 0, bytes_read));
        assert(copied@ =~= buffer@.take(bytes_read as int));
        Some(copied)
    }
}

/// Appends the bytes of one chunk to a display buffer.
pub fn append_bytes(display: &mut Vec<u8>, chunk: &Vec<u8>)
    ensures
        final(display)@ == old(display)@ + chunk@,
{
    let mut i: usize = 0;
    while i < chunk.len()
        invariant
            i <= chunk@.len(),
            display@ == old(display)@ + chunk@.take(i as int),
        decreases chunk@.len() - i,
    {
        display.push(chunk[i]);
        i = i + 1;
        assert(old(display)@ + chunk@.take(i - 1) + seq![chunk@[i - 1]] =~= old(display)@
            + chunk@.take(i as int));
    }
    assert(chunk@.take(chunk@.len() as int) =~= chunk@);
}

/// Concatenates a queue of chunks into one byte vector, in order.
pub fn concat_chunks(chunks: &Vec<Vec<u8>>) -> (bytes: Vec<u8>)
    ensures
        bytes@ == joined(chunks@.map_values(|c: Vec<u8>| c@)),
{
    let ghost views = chunks@.map_values(|c: Vec<u8>| c@);
    let mut bytes: Vec<u8> = Vec::new();
    let mut i: usize = 0;
    while i < chunks.len()
        invariant
            i <= chunks@.len(),
            views == chunks@.map_values(|c: Vec<u8>| c@),
            bytes@ == joined(views.take(i as int)),
        decreases chunks@.len() - i,
    {
        append_bytes(&mut bytes, &chunks[i]);
        i = i + 1;
        proof {
            assert(views.take(i as int).drop_last() =~= views.take(i - 1));
            assert(views.take(i as int).last() == views[i - 1]);
        }
    }
    proof {
        assert(views.take(chunks@.len() as int) =~= views);
    }
    bytes
}

} // verus!
