//! Byte-buffer primitives shared by the binary codecs: bounded sequential
//! writes into caller buffers, bounded reads, and slice comparison.

use vstd::prelude::*;

verus! {

/// `buf` with `data` copied over it starting at `pos`.
pub open spec fn splice(buf: Seq<u8>, pos: int, data: Seq<u8>) -> Seq<u8> {
    buf.subrange(0, pos) + data + buf.subrange(pos + data.len(), buf.len() as int)
}

/// Concatenation of the chunks, in order.
pub open spec fn flatten(chunks: Seq<Seq<u8>>) -> Seq<u8>
    decreases chunks.len(),
{
    if chunks.len() == 0 {
        Seq::empty()
    } else {
        chunks[0] + flatten(chunks.drop_first())
    }
}

/// Flattening distributes over concatenation.
pub proof fn lemma_flatten_append(a: Seq<Seq<u8>>, b: Seq<Seq<u8>>)
    ensures
        flatten(a + b) == flatten(a) + flatten(b),
    decreases a.len(),
{
    if a.len() == 0 {
        assert(a + b =~= b);
        assert(flatten(a) + flatten(b) =~= flatten(b));
    } else {
        assert((a + b).drop_first() =~= a.drop_first() + b);
        lemma_flatten_append(a.drop_first(), b);
        assert(flatten(a) + flatten(b) =~= a[0] + (flatten(a.drop_first()) + flatten(b)));
    }
}

/// Flattening a list with a last chunk appends that chunk.
pub proof fn lemma_flatten_push(a: Seq<Seq<u8>>, c: Seq<u8>)
    ensures
        flatten(a.push(c)) == flatten(a) + c,
{
    lemma_flatten_append(a, seq![c]);
    assert(a.push(c) =~= a + seq![c]);
    reveal_with_fuel(flatten, 2);
    assert(flatten(seq![c]) =~= c);
}

/// Writes the chunks one after another into `buf` from `pos`; a chunk is written
/// whole or not at all, and writing stops at the first chunk that does not fit.
/// Returns the buffer and, when every chunk fitted, the position after the last.
pub open spec fn write_chunks(buf: Seq<u8>, pos: int, chunks: Seq<Seq<u8>>) -> (Seq<u8>, Option<int>)
    decreases chunks.len(),
{
    if chunks.len() == 0 {
        (buf, Some(pos))
    } else if pos + chunks[0].len() > buf.len() {
        (buf, None)
    } else {
        write_chunks(splice(buf, pos, chunks[0]), pos + chunks[0].len(), chunks.drop_first())
    }
}

/// When the concatenation fits, sequential chunk writing equals one splice of it;
/// otherwise it fails.
pub proof fn lemma_write_chunks(buf: Seq<u8>, pos: int, chunks: Seq<Seq<u8>>)
    requires
        0 <= pos <= buf.len(),
    ensures
        pos + flatten(chunks).len() <= buf.len() ==> write_chunks(buf, pos, chunks) == (
            splice(buf, pos, flatten(chunks)),
            Some(pos + flatten(chunks).len()),
        ),
        pos + flatten(chunks).len() > buf.len() ==> write_chunks(buf, pos, chunks).1 is None,
        write_chunks(buf, pos, chunks).0.len() == buf.len(),
    decreases chunks.len(),
{
    if chunks.len() == 0 {
        assert(splice(buf, pos, Seq::empty()) =~= buf);
    } else {
        let c = chunks[0];
        if pos + c.len() <= buf.len() {
            let b2 = splice(buf, pos, c);
            lemma_write_chunks(b2, pos + c.len(), chunks.drop_first());
            let rest = flatten(chunks.drop_first());
            if pos + flatten(chunks).len() <= buf.len() {
                assert(splice(b2, pos + c.len(), rest) =~= splice(buf, pos, c + rest));
            }
        }
    }
}

/// Writes `chunk` at `pos` when it fits entirely; otherwise leaves `out` as it was.
pub fn write_chunk(out: &mut [u8], pos: usize, chunk: &[u8], Ghost(rest): Ghost<Seq<Seq<u8>>>) -> (res:
    Option<usize>)
    requires
        pos <= old(out)@.len(),
    ensures
        final(out)@.len() == old(out)@.len(),
        write_chunks(old(out)@, pos as int, seq![chunk@] + rest) == (match res {
            Some(p) => write_chunks(final(out)@, p as int, rest),
            None => (final(out)@, None),
        }),
        res matches Some(p) ==> p <= final(out)@.len(),
{
    let ghost chunks = seq![chunk@] + rest;
    assert(chunks[0] == chunk@);
    assert(chunks.drop_first() =~= rest);
    if out.len() - pos < chunk.len() {
        return None;
    }
    let ghost start = out@;
    let n = out.len();
    let mut i: usize = 0;
    while i < chunk.len()
        invariant
            n == out@.len(),
            pos + chunk@.len() <= out@.len(),
            out@.len() == start.len(),
            i <= chunk@.len(),
            out@ =~= start.subrange(0, pos as int) + chunk@.subrange(0, i as int) + start.subrange(
                pos + i,
                start.len() as int,
            ),
        decreases chunk@.len() - i,
    {
        out[pos + i] = chunk[i];
        i = i + 1;
    }
    assert(out@ =~= splice(start, pos as int, chunk@));
    Some(pos + chunk.len())
}

/// The byte at `pos`, when there is one.
pub fn read_u8(data: &[u8], pos: usize) -> (res: Option<u8>)
    ensures
        res == (if pos < data@.len() {
            Some(data@[pos as int])
        } else {
            None
        }),
{
    if pos < data.len() {
        Some(data[pos])
    } else {
        None
    }
}

/// The `count` bytes from `pos`, when they are all there.
pub fn read_slice(data: &[u8], pos: usize, count: usize) -> (res: Option<&[u8]>)
    ensures
        pos + count <= data@.len() ==> (res matches Some(s) && s@ == data@.subrange(
            pos as int,
            pos + count,
        )),
        pos + count > data@.len() ==> res is None,
{
    if pos <= data.len() && data.len() - pos >= count {
        Some(&data[pos..pos + count])
    } else {
        None
    }
}

/// Byte-wise equality of two slices.
pub fn bytes_equal(a: &[u8], b: &[u8]) -> (r: bool)
    ensures
        r == (a@ == b@),
{
    if a.len() != b.len() {
        return false;
    }
    let mut i: usize = 0;
    while i < a.len()
        invariant
            a@.len() == b@.len(),
            i <= a@.len(),
            forall|j: int| 0 <= j < i ==> a@[j] == b@[j],
        decreases a@.len() - i,
    {
        if a[i] != b[i] {
            assert(a@[i as int] != b@[i as int]);
            return false;
        }
        i = i + 1;
    }
    assert(a@ =~= b@);
    true
}

} // verus!

verus! {

/// Views of a list of byte slices.
pub open spec fn parts_view(parts: Seq<&[u8]>) -> Seq<Seq<u8>> {
    parts.map_values(|s: &[u8]| s@)
}

/// Writes the parts one after another from the start of `out`, each part whole
/// or not at all, stopping at the first that does not fit.
pub fn write_all(out: &mut [u8], parts: &[&[u8]]) -> (res: Option<usize>)
    ensures
        write_chunks(old(out)@, 0, parts_view(parts@)) == (final(out)@, match res {
            Some(n) => Some(n as int),
            None => None,
        }),
{
    let ghost all = parts_view(parts@);
    assert(all.skip(0) =~= all);
    let mut pos: usize = 0;
    let mut i: usize = 0;
    while i < parts.len()
        invariant
            i <= parts@.len(),
            pos <= out@.len(),
            all == parts_view(parts@),
            write_chunks(old(out)@, 0, all) == write_chunks(out@, pos as int, all.skip(i as int)),
        decreases parts@.len() - i,
    {
        let ghost rest = all.skip(i + 1);
        assert(all.skip(i as int) =~= seq![parts@[i as int]@] + rest);
        match write_chunk(out, pos, parts[i], Ghost(rest)) {
            Some(p) => {
                pos = p;
            },
            None => {
                return None;
            },
        }
        i = i + 1;
    }
    assert(all.skip(i as int) =~= Seq::<Seq<u8>>::empty());
    Some(pos)
}

} // verus!
