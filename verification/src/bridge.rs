use vstd::prelude::*;
use crate::resolve::push_all;

verus! {

/// The bytes carried by a sequence of chunks, in order.
pub open spec fn concat_chunks(chunks: Seq<Seq<u8>>) -> Seq<u8>
    decreases chunks.len(),
{
    if chunks.len() == 0 {
        Seq::empty()
    } else {
        concat_chunks(chunks.drop_last()) + chunks.last()
    }
}

/// The byte sequences held by a vector of chunk buffers.
pub open spec fn chunk_views(chunks: Seq<Vec<u8>>) -> Seq<Seq<u8>> {
    chunks.map_values(|c: Vec<u8>| c@)
}

/// Taking one more chunk extends the carried bytes by exactly that chunk.
pub proof fn lemma_concat_chunks_step(chunks: Seq<Seq<u8>>, i: int)
    requires
        0 <= i < chunks.len(),
    ensures
        concat_chunks(chunks.take(i + 1)) == concat_chunks(chunks.take(i)) + chunks[i],
{
    assert(chunks.take(i + 1).drop_last() =~= chunks.take(i));
    assert(chunks.take(i + 1).last() == chunks[i]);
}

/// Streams every chunk, in order, into the sink `dst`, appending to what is
/// already there, and returns the number of bytes copied. Only one chunk is
/// in flight at a time: the sink receives each chunk before the next is
/// touched, so the copy never holds more than a single chunk beyond the sink
/// itself.
pub fn copy_chunks(chunks: &Vec<Vec<u8>>, dst: &mut Vec<u8>) -> (n: usize)
    ensures
        final(dst)@ == old(dst)@ + concat_chunks(chunk_views(chunks@)),
        n == concat_chunks(chunk_views(chunks@)).len(),
{
    let start: usize = dst.len();
    let mut i: usize = 0;
    assert(dst@ =~= old(dst)@ + concat_chunks(chunk_views(chunks@).take(0)));
    while i < chunks.len()
        invariant
            i <= chunks.len(),
            start == old(dst)@.len(),
            dst@ == old(dst)@ + concat_chunks(chunk_views(chunks@).take(i as int)),
        decreases chunks.len() - i,
    {
        push_all(dst, chunks[i].as_slice());
        proof {
            lemma_concat_chunks_step(chunk_views(chunks@), i as int);
            assert(chunk_views(chunks@)[i as int] == chunks@[i as int]@);
        }
        i += 1;
    }
    assert(chunk_views(chunks@).take(chunks@.len() as int) =~= chunk_views(chunks@));
    dst.len() - start
}

/// Splits `data` into successive chunks of at most `chunk_size` bytes for
/// incremental transmission: every chunk is full except possibly the last,
/// no chunk is empty, and together they carry exactly `data`. The number of
/// chunks is the total length divided by the chunk size, rounded up, which
/// bounds the memory a consumer must hold at once by `chunk_size` however
/// large the object is.
pub fn chunk_bytes(data: &[u8], chunk_size: usize) -> (out: Vec<Vec<u8>>)
    requires
        chunk_size > 0,
    ensures
        concat_chunks(chunk_views(out@)) == data@,
        forall|i: int| 0 <= i < out@.len() ==> 0 < (#[trigger] out@[i])@.len() <= chunk_size,
        forall|i: int| 0 <= i < out@.len() - 1 ==> (#[trigger] out@[i])@.len() == chunk_size,
        out@.len() == (data@.len() + chunk_size - 1) / (chunk_size as int),
{
    let mut out: Vec<Vec<u8>> = Vec::new();
    let mut pos: usize = 0;
    assert(data@.take(0) =~= concat_chunks(chunk_views(out@)));
    while pos < data.len()
        invariant
            pos <= data.len(),
            chunk_size > 0,
            concat_chunks(chunk_views(out@)) == data@.take(pos as int),
            pos == out@.len() * chunk_size || pos == data@.len(),
            pos <= out@.len() * chunk_size,
            out@.len() > 0 ==> pos > (out@.len() - 1) * chunk_size,
            forall|i: int| 0 <= i < out@.len() ==> 0 < (#[trigger] out@[i])@.len() <= chunk_size,
            pos < data@.len() ==> forall|i: int|
                0 <= i < out@.len() ==> (#[trigger] out@[i])@.len() == chunk_size,
            forall|i: int| 0 <= i < out@.len() - 1 ==> (#[trigger] out@[i])@.len() == chunk_size,
        decreases data.len() - pos,
    {
        let ghost k: int = out@.len() as int;
        let remaining: usize = data.len() - pos;
        let take: usize = if remaining < chunk_size { remaining } else { chunk_size };
        let mut chunk: Vec<u8> = Vec::new();
        let mut j: usize = 0;
        while j < take
            invariant
                j <= take,
                pos + take <= data.len(),
                chunk@ == data@.subrange(pos as int, pos + j),
            decreases take - j,
        {
            assert(data@.subrange(pos as int, pos + j + 1) =~=
                data@.subrange(pos as int, pos + j).push(data@[pos + j]));
            chunk.push(data[pos + j]);
            j += 1;
        }
        let ghost prev = out@;
        out.push(chunk);
        proof {
            assert(chunk_views(out@) =~= chunk_views(prev).push(data@.subrange(
                pos as int, pos + take)));
            assert(chunk_views(out@).drop_last() =~= chunk_views(prev));
            assert(concat_chunks(chunk_views(out@)) =~= data@.take(pos + take));
            assert((k + 1) * chunk_size == k * chunk_size + chunk_size) by (nonlinear_arith);
        }
        pos = pos + take;
    }
    assert(data@.take(data@.len() as int) =~= data@);
    proof {
        let n: int = data@.len() as int;
        let cs: int = chunk_size as int;
        let k: int = out@.len() as int;
        if k == 0 {
            assert((n + cs - 1) / cs == 0) by (nonlinear_arith)
                requires n == 0 && cs > 0;
        } else {
            assert((k - 1) * cs == k * cs - cs) by (nonlinear_arith);
            let r: int = n + cs - 1 - k * cs;
            assert(0 <= r < cs);
            vstd::arithmetic::div_mod::lemma_fundamental_div_mod_converse(
                n + cs - 1, cs, k, r);
        }
    }
    out
}

} // verus!
