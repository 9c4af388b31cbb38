//! COBS (Consistent Overhead Byte Stuffing) framing.
//!
//! Encoding removes every 0x00 from the payload, so 0x00 can delimit frames.
//! The encoder writes into a caller-provided vector; the decoder appends to a
//! caller-provided `BytesMut`.

use vstd::prelude::*;
use bytes::BytesMut;
use crate::buffers::{bytes_mut_contents, bytes_mut_extend, bytes_mut_len};

verus! {

pub const MAX_FRAME_SIZE: usize = 4096;
pub const DELIMITER: u8 = 0x00;

/// Longest run of data bytes one COBS block carries.
pub const MAX_BLOCK_DATA: usize = 254;

#[derive(Debug, Clone, Copy, PartialEq, Eq, Structural)]
pub enum CobsError {
    FrameTooLarge(usize),
    InvalidEncoding,
}

// =============================================================================
// Specification
// =============================================================================

/// Number of leading non-zero bytes of `d`, counting at most `cap`.
pub open spec fn nonzero_run(d: Seq<u8>, cap: nat) -> nat
    decreases d.len(),
{
    if cap == 0 || d.len() == 0 || d[0] == 0 {
        0
    } else {
        1 + nonzero_run(d.drop_first(), (cap - 1) as nat)
    }
}

/// COBS encoding of `d`, without the trailing delimiter. Each block is a code
/// byte (one more than the number of data bytes that follow it) and a run of
/// non-zero data bytes; a block with fewer than 254 data bytes stands for a
/// zero byte after them, unless it ends the data.
pub open spec fn cobs_encode(d: Seq<u8>) -> Seq<u8>
    decreases d.len(),
{
    let r: int = nonzero_run(d, 254) as int;
    proof {
        lemma_nonzero_run(d, 254);
    }
    if r == 254 {
        seq![255u8] + d.take(254) + cobs_encode(d.skip(254))
    } else if r == d.len() {
        seq![(r + 1) as u8] + d
    } else {
        seq![(r + 1) as u8] + d.take(r as int) + cobs_encode(d.skip(r + 1))
    }
}

/// Decoding of `e` block by block: the bytes produced until decoding stops,
/// and whether it reached the end without finding a malformed block.
pub open spec fn cobs_decode(e: Seq<u8>) -> (Seq<u8>, bool)
    decreases e.len(),
{
    if e.len() == 0 {
        (Seq::empty(), true)
    } else {
        let code = e[0];
        if code == 0 || code > e.len() {
            (Seq::empty(), false)
        } else {
            let chunk = e.subrange(1, code as int);
            let rest = e.skip(code as int);
            let sep: Seq<u8> = if code < 255 && rest.len() > 0 {
                seq![0u8]
            } else {
                Seq::empty()
            };
            let tail = cobs_decode(rest);
            (chunk + sep + tail.0, tail.1)
        }
    }
}

/// No byte of `s` is zero.
pub open spec fn zero_free(s: Seq<u8>) -> bool {
    forall|i: int| 0 <= i < s.len() ==> s[i] != 0
}

// =============================================================================
// Lemmas
// =============================================================================

/// What `nonzero_run` counts: a bounded prefix of non-zero bytes that ends at
/// the cap, at the end of the data or at a zero byte.
pub proof fn lemma_nonzero_run(d: Seq<u8>, cap: nat)
    ensures
        nonzero_run(d, cap) <= cap,
        nonzero_run(d, cap) <= d.len(),
        forall|i: int| 0 <= i < nonzero_run(d, cap) ==> d[i] != 0,
        nonzero_run(d, cap) < cap && nonzero_run(d, cap) < d.len() ==> d[nonzero_run(d, cap) as int]
            == 0,
    decreases d.len(),
{
    if cap == 0 || d.len() == 0 || d[0] == 0 {
    } else {
        lemma_nonzero_run(d.drop_first(), (cap - 1) as nat);
        let r: int = nonzero_run(d.drop_first(), (cap - 1) as nat) as int;
        assert forall|i: int| 0 <= i < nonzero_run(d, cap) implies d[i] != 0 by {
            if i > 0 {
                assert(d[i] == d.drop_first()[i - 1]);
            }
        }
        if nonzero_run(d, cap) < cap && nonzero_run(d, cap) < d.len() {
            assert(d[r + 1] == d.drop_first()[r as int]);
        }
    }
}

/// A scanned run that ends the way `nonzero_run` ends is the run.
pub proof fn lemma_nonzero_run_unique(d: Seq<u8>, cap: nat, r: nat)
    requires
        r <= cap,
        r <= d.len(),
        forall|i: int| 0 <= i < r ==> d[i] != 0,
        r == cap || r == d.len() || d[r as int] == 0,
    ensures
        nonzero_run(d, cap) == r,
    decreases d.len(),
{
    if r > 0 {
        assert forall|i: int| 0 <= i < r - 1 implies d.drop_first()[i] != 0 by {
            assert(d.drop_first()[i] == d[i + 1]);
        }
        if r < cap && r < d.len() {
            assert(d.drop_first()[r - 1] == d[r as int]);
        }
        lemma_nonzero_run_unique(d.drop_first(), (cap - 1) as nat, (r - 1) as nat);
    }
}

/// An encoding is never empty and holds no zero byte.
pub proof fn lemma_encode_zero_free(d: Seq<u8>)
    ensures
        cobs_encode(d).len() > 0,
        zero_free(cobs_encode(d)),
    decreases d.len(),
{
    lemma_nonzero_run(d, 254);
    let r: int = nonzero_run(d, 254) as int;
    if r == 254 {
        lemma_encode_zero_free(d.skip(254));
        let e = seq![255u8] + d.take(254) + cobs_encode(d.skip(254));
        assert forall|i: int| 0 <= i < e.len() implies e[i] != 0 by {
            if 1 <= i < 255 {
                assert(e[i] == d[i - 1]);
            } else if i >= 255 {
                assert(e[i] == cobs_encode(d.skip(254))[i - 255]);
            }
        }
    } else if r == d.len() {
        let e = seq![(r + 1) as u8] + d;
        assert forall|i: int| 0 <= i < e.len() implies e[i] != 0 by {
            if i >= 1 {
                assert(e[i] == d[i - 1]);
            }
        }
    } else {
        lemma_encode_zero_free(d.skip(r + 1));
        let e = seq![(r + 1) as u8] + d.take(r as int) + cobs_encode(d.skip(r + 1));
        assert forall|i: int| 0 <= i < e.len() implies e[i] != 0 by {
            if 1 <= i < r + 1 {
                assert(e[i] == d[i - 1]);
            } else if i >= r + 1 {
                assert(e[i] == cobs_encode(d.skip(r + 1))[i - r - 1]);
            }
        }
    }
}

/// Decoding an encoding gives back the data, and succeeds.
pub proof fn lemma_decode_encode(d: Seq<u8>)
    ensures
        cobs_decode(cobs_encode(d)) == (d, true),
    decreases d.len(),
{
    lemma_nonzero_run(d, 254);
    let r: int = nonzero_run(d, 254) as int;
    let e = cobs_encode(d);
    if r == 254 {
        let inner = cobs_encode(d.skip(254));
        lemma_encode_zero_free(d.skip(254));
        lemma_decode_encode(d.skip(254));
        assert(e[0] == 255u8);
        assert(e.subrange(1, 255) =~= d.take(254));
        assert(e.skip(255) =~= inner);
        assert(cobs_decode(e) == (d.take(254) + Seq::<u8>::empty() + cobs_decode(inner).0, cobs_decode(
            inner,
        ).1));
        assert(d.take(254) + Seq::<u8>::empty() + d.skip(254) =~= d);
    } else if r == d.len() {
        assert(e[0] == (r + 1) as u8);
        assert(e.subrange(1, r + 1) =~= d);
        assert(e.skip(r + 1) =~= Seq::<u8>::empty());
        assert(cobs_decode(Seq::<u8>::empty()) == (Seq::<u8>::empty(), true));
        assert(cobs_decode(e) == (d + Seq::<u8>::empty() + Seq::<u8>::empty(), true));
        assert(d + Seq::<u8>::empty() + Seq::<u8>::empty() =~= d);
    } else {
        let inner = cobs_encode(d.skip(r + 1));
        lemma_encode_zero_free(d.skip(r + 1));
        lemma_decode_encode(d.skip(r + 1));
        assert(e[0] == (r + 1) as u8);
        assert(e.subrange(1, r + 1) =~= d.take(r as int));
        assert(e.skip(r + 1) =~= inner);
        assert(cobs_decode(e) == (d.take(r) + seq![0u8] + cobs_decode(inner).0, cobs_decode(inner).1));
        assert(d.take(r as int) + seq![0u8] + d.skip(r + 1) =~= d);
    }
}

/// COBS round trip: decoding the encoding of any data yields exactly that data.
pub proof fn lemma_cobs_roundtrip(d: Seq<u8>)
    ensures
        cobs_decode(cobs_encode(d)).1,
        cobs_decode(cobs_encode(d)).0 == d,
{
    lemma_decode_encode(d);
}

/// COBS framing: an encoded frame holds no zero byte before its delimiter.
pub proof fn lemma_cobs_encoding_has_no_zero(d: Seq<u8>)
    ensures
        zero_free(cobs_encode(d)),
{
    lemma_encode_zero_free(d);
}

/// COBS overhead: an encoding is at most one code byte per started block of
/// 254 data bytes longer than the data.
pub proof fn lemma_cobs_encode_len(d: Seq<u8>)
    ensures
        cobs_encode(d).len() <= d.len() + d.len() / 254 + 1,
    decreases d.len(),
{
    lemma_nonzero_run(d, 254);
    let r: int = nonzero_run(d, 254) as int;
    let n: int = d.len() as int;
    if r == 254 {
        lemma_cobs_encode_len(d.skip(254));
        assert((n - 254) / 254 == n / 254 - 1) by (nonlinear_arith)
            requires
                n >= 254,
        ;
    } else if r == n {
        assert(n / 254 >= 0) by (nonlinear_arith)
            requires
                n >= 0,
        ;
    } else {
        lemma_cobs_encode_len(d.skip(r + 1));
        assert((n - r - 1) / 254 <= n / 254) by (nonlinear_arith)
            requires
                0 <= r,
                r + 1 <= n,
        ;
    }
}

// =============================================================================
// Codec
// =============================================================================

/// Encodes `data` into `output` (cleared first) followed by the 0x00 delimiter,
/// and returns the number of bytes written. Data longer than
/// `MAX_FRAME_SIZE - 2` is refused and `output` is left as it was.
pub fn encode_into(data: &[u8], output: &mut Vec<u8>) -> (res: Result<usize, CobsError>)
    ensures
        data@.len() > MAX_FRAME_SIZE - 2 ==> res == Err::<usize, CobsError>(
            CobsError::FrameTooLarge(data@.len() as usize),
        ) && final(output)@ == old(output)@,
        data@.len() <= MAX_FRAME_SIZE - 2 ==> final(output)@ == cobs_encode(data@).push(DELIMITER)
            && res == Ok::<usize, CobsError>(final(output)@.len() as usize),
        data@.len() <= MAX_FRAME_SIZE - 2 ==> final(output)@.len() <= data@.len() + data@.len() / 254
            + 2,
{
    proof {
        lemma_cobs_encode_len(data@);
    }
    if data.len() > MAX_FRAME_SIZE - 2 {
        return Err(CobsError::FrameTooLarge(data.len()));
    }
    output.clear();
    let n = data.len();
    let mut start: usize = 0;
    assert(data@.skip(0) =~= data@);
    assert(output@ + cobs_encode(data@) =~= cobs_encode(data@));
    loop
        invariant_except_break
            n == data@.len(),
            n <= MAX_FRAME_SIZE - 2,
            start <= n,
            output@ + cobs_encode(data@.skip(start as int)) == cobs_encode(data@),
        ensures
            output@ == cobs_encode(data@),
        decreases n - start,
    {
        let ghost s = data@.skip(start as int);
        let mut r: usize = 0;
        while r < MAX_BLOCK_DATA && start + r < n && data[start + r] != 0
            invariant
                n == data@.len(),
                start <= n,
                s == data@.skip(start as int),
                r <= MAX_BLOCK_DATA,
                start + r <= n,
                forall|i: int| 0 <= i < r ==> s[i] != 0,
            decreases MAX_BLOCK_DATA - r,
        {
            assert(s[r as int] == data@[start + r]);
            r = r + 1;
        }
        proof {
            if r < MAX_BLOCK_DATA && start + r < n {
                assert(s[r as int] == data@[start + r]);
            }
            lemma_nonzero_run_unique(s, 254, r as nat);
        }
        let ghost before = output@;
        if r == MAX_BLOCK_DATA {
            output.push(255u8);
        } else {
            output.push((r + 1) as u8);
        }
        let mut k: usize = 0;
        while k < r
            invariant
                n == data@.len(),
                start + r <= n,
                k <= r,
                r <= MAX_BLOCK_DATA,
                output@ == before.push(if r == MAX_BLOCK_DATA {
                    255u8
                } else {
                    (r + 1) as u8
                }) + data@.subrange(start as int, start + k),
            decreases r - k,
        {
            output.push(data[start + k]);
            proof {
                assert(data@.subrange(start as int, start + k + 1) =~= data@.subrange(
                    start as int,
                    start + k,
                ).push(data@[start + k]));
            }
            k = k + 1;
        }
        assert(data@.subrange(start as int, start + r) =~= s.take(r as int));
        if r == MAX_BLOCK_DATA {
            assert(s.skip(254) =~= data@.skip(start + 254));
            assert(output@ + cobs_encode(s.skip(254)) =~= before + cobs_encode(s));
            start = start + MAX_BLOCK_DATA;
        } else if start + r == n {
            assert(s.take(r as int) =~= s);
            assert(output@ =~= before + cobs_encode(s));
            break;
        } else {
            assert(s.skip(r + 1) =~= data@.skip(start + r + 1));
            assert(output@ + cobs_encode(s.skip(r + 1)) =~= before + cobs_encode(s));
            start = start + r + 1;
        }
    }
    output.push(DELIMITER);
    Ok(output.len())
}

/// Decodes `encoded` (without its trailing delimiter) and appends the data to
/// `output`, which is not cleared. Returns the number of bytes appended, or
/// `InvalidEncoding` at the first malformed block; the blocks decoded before
/// it stay appended.
pub fn decode_into_bytes(encoded: &[u8], output: &mut BytesMut) -> (res: Result<usize, CobsError>)
    requires
        bytes_mut_contents(*old(output)).len() + encoded@.len() <= isize::MAX,
    ensures
        bytes_mut_contents(*final(output)) == bytes_mut_contents(*old(output)) + cobs_decode(
            encoded@,
        ).0,
        res == (if cobs_decode(encoded@).1 {
            Ok::<usize, CobsError>(cobs_decode(encoded@).0.len() as usize)
        } else {
            Err::<usize, CobsError>(CobsError::InvalidEncoding)
        }),
{
    let ghost start_contents = bytes_mut_contents(*output);
    if encoded.len() == 0 {
        assert(start_contents + Seq::<u8>::empty() =~= start_contents);
        return Ok(0);
    }
    let start_len = bytes_mut_len(output);
    let n = encoded.len();
    let mut i: usize = 0;
    let ghost mut produced: Seq<u8> = Seq::empty();
    assert(encoded@.skip(0) =~= encoded@);
    while i < n
        invariant
            n == encoded@.len(),
            i <= n,
            start_len == start_contents.len(),
            start_contents == bytes_mut_contents(*old(output)),
            bytes_mut_contents(*output) == start_contents + produced,
            produced.len() <= i,
            start_contents.len() + n <= isize::MAX,
            cobs_decode(encoded@) == (produced + cobs_decode(encoded@.skip(i as int)).0, cobs_decode(
                encoded@.skip(i as int),
            ).1),
        decreases n - i,
    {
        let ghost e = encoded@.skip(i as int);
        let ghost p0 = produced;
        let code = encoded[i] as usize;
        assert(e[0] == encoded@[i as int]);
        if code == 0 {
            assert(cobs_decode(e).0 =~= Seq::<u8>::empty());
            assert(produced + cobs_decode(e).0 =~= produced);
            return Err(CobsError::InvalidEncoding);
        }
        i = i + 1;
        let copy_len = code - 1;
        if copy_len > n - i {
            assert(cobs_decode(e).0 =~= Seq::<u8>::empty());
            assert(produced + cobs_decode(e).0 =~= produced);
            return Err(CobsError::InvalidEncoding);
        }
        let chunk = &encoded[i..i + copy_len];
        assert(chunk@ =~= e.subrange(1, code as int));
        bytes_mut_extend(output, chunk);
        i = i + copy_len;
        let ghost rest = e.skip(code as int);
        assert(rest =~= encoded@.skip(i as int));
        if code < 255 && i < n {
            let zero: [u8; 1] = [0u8];
            bytes_mut_extend(output, &zero);
            proof {
                assert(zero@ =~= seq![0u8]);
                produced = produced + chunk@ + seq![0u8];
            }
        } else {
            proof {
                produced = produced + chunk@;
            }
        }
        proof {
            let sep: Seq<u8> = if code < 255 && rest.len() > 0 {
                seq![0u8]
            } else {
                Seq::empty()
            };
            let tail = cobs_decode(rest);
            assert(cobs_decode(e) == (chunk@ + sep + tail.0, tail.1));
            assert(produced == p0 + chunk@ + sep);
            assert(p0 + (chunk@ + sep + tail.0) =~= produced + tail.0);
        }
        assert(bytes_mut_contents(*output) =~= start_contents + produced);
    }
    assert(encoded@.skip(n as int) =~= Seq::<u8>::empty());
    assert(produced + Seq::<u8>::empty() =~= produced);
    let total = bytes_mut_len(output);
    Ok(total - start_len)
}

} // verus!
