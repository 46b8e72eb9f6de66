//! Chunks: immutable byte sequences moved across the host/engine boundary.
//!
//! The engine's chunk type is `bytes::Bytes`. The type is opaque here; its
//! contents are named by `chunk_bytes`, and the few operations the bridge
//! needs are trusted wrappers whose contracts speak over that name.

use vstd::prelude::*;

verus! {

#[verifier::external_type_specification]
#[verifier::external_body]
pub struct ExBytes(bytes::Bytes);

/// The byte contents of a chunk.
pub uninterp spec fn chunk_bytes(b: bytes::Bytes) -> Seq<u8>;

/// Relies on `bytes::Bytes::from(Vec<u8>)`: the chunk holds exactly the
/// bytes of the vector.
#[verifier::external_body]
pub fn chunk_from_vec(v: Vec<u8>) -> (c: bytes::Bytes)
    ensures
        chunk_bytes(c) == v@,
{
    bytes::Bytes::from(v)
}

/// Relies on `<[u8]>::to_vec` reached through `Bytes`'s deref to `[u8]`:
/// the vector copies the chunk's bytes.
#[verifier::external_body]
fn chunk_to_vec(b: &bytes::Bytes) -> (v: Vec<u8>)
    ensures
        v@ == chunk_bytes(*b),
{
    b.as_ref().to_vec()
}

/// The contents of each chunk of a sequence, in order.
pub open spec fn chunks_view(cs: Seq<bytes::Bytes>) -> Seq<Seq<u8>> {
    cs.map_values(|c: bytes::Bytes| chunk_bytes(c))
}

/// Appending a chunk appends its contents to the view.
pub broadcast proof fn lemma_chunks_view_push(cs: Seq<bytes::Bytes>, c: bytes::Bytes)
    ensures
        #[trigger] chunks_view(cs.push(c)) == chunks_view(cs).push(chunk_bytes(c)),
{
    cs.lemma_push_map_commute(|x: bytes::Bytes| chunk_bytes(x), c);
}

/// Dropping the oldest chunk drops the first contents of the view.
pub broadcast proof fn lemma_chunks_view_drop_first(cs: Seq<bytes::Bytes>)
    requires
        cs.len() > 0,
    ensures
        #[trigger] chunks_view(cs.drop_first()) == chunks_view(cs).drop_first(),
{
    assert(chunks_view(cs.drop_first()) =~= chunks_view(cs).drop_first());
}

/// The bytes of a sequence of chunks, in order.
pub open spec fn chunks_bytes(cs: Seq<bytes::Bytes>) -> Seq<u8> {
    chunks_view(cs).flatten()
}

/// Reassemble a chunk sequence into one contiguous byte vector, in order.
pub fn concat_chunks(chunks: &Vec<bytes::Bytes>) -> (out: Vec<u8>)
    ensures
        out@ == chunks_bytes(chunks@),
{
    let mut out: Vec<u8> = Vec::new();
    let mut i: usize = 0;
    while i < chunks.len()
        invariant
            i <= chunks@.len(),
            out@ == chunks_bytes(chunks@.take(i as int)),
        decreases chunks@.len() - i,
    {
        let mut piece = chunk_to_vec(&chunks[i]);
        proof {
            let pre = chunks@.take(i as int);
            assert(pre.push(chunks@[i as int]) =~= chunks@.take(i as int + 1));
            lemma_chunks_view_push(pre, chunks@[i as int]);
            chunks_view(pre).lemma_flatten_push(chunk_bytes(chunks@[i as int]));
        }
        out.append(&mut piece);
        i = i + 1;
    }
    proof {
        assert(chunks@.take(chunks@.len() as int) =~= chunks@);
    }
    out
}

/// Copy a chunk out as a plain byte vector.
pub fn chunk_contents(b: &bytes::Bytes) -> (v: Vec<u8>)
    ensures
        v@ == chunk_bytes(*b),
{
    chunk_to_vec(b)
}

} // verus!
