//! Raw byte-sequence primitives shared by every decoder: big-endian 32-bit
//! reads and writes, subrange copies, and ordered concatenation of several
//! sources into one logical byte sequence.

use vstd::prelude::*;

verus! {

/// The big-endian 32-bit integer stored at offset `off` of `s`.
pub open spec fn be_u32_at(s: Seq<u8>, off: int) -> int
    recommends
        0 <= off,
        off + 4 <= s.len(),
{
    s[off] * 0x100_0000 + s[off + 1] * 0x1_0000 + s[off + 2] * 0x100 + s[off + 3]
}

/// The four big-endian bytes of `x`.
pub open spec fn be_bytes_of(x: u32) -> Seq<u8> {
    seq![
        (x / 0x100_0000) as u8,
        ((x / 0x1_0000) % 0x100) as u8,
        ((x / 0x100) % 0x100) as u8,
        (x % 0x100) as u8,
    ]
}

/// `be_bytes_of` really stores `x`: reading the four bytes back gives `x`.
pub proof fn lemma_be_bytes_roundtrip(x: u32)
    ensures
        be_u32_at(be_bytes_of(x), 0) == x,
{
    let b = be_bytes_of(x);
    assert(b[0] == x / 0x100_0000 && b[1] == (x / 0x1_0000) % 0x100 && b[2] == (x / 0x100) % 0x100
        && b[3] == x % 0x100);
    assert((x / 0x100_0000) * 0x100_0000 + ((x / 0x1_0000) % 0x100) * 0x1_0000 + ((x / 0x100)
        % 0x100) * 0x100 + x % 0x100 == x) by (nonlinear_arith);
}

/// Read the big-endian 32-bit integer at offset `off`.
pub fn read_be_u32(bytes: &[u8], off: usize) -> (r: u32)
    requires
        off + 4 <= bytes@.len(),
    ensures
        r == be_u32_at(bytes@, off as int),
{
    let b0 = bytes[off] as u32;
    let b1 = bytes[off + 1] as u32;
    let b2 = bytes[off + 2] as u32;
    let b3 = bytes[off + 3] as u32;
    b0 * 0x100_0000 + b1 * 0x1_0000 + b2 * 0x100 + b3
}

/// Append the four big-endian bytes of `x` to `out`.
pub fn push_be_u32(out: &mut Vec<u8>, x: u32)
    ensures
        final(out)@ == old(out)@ + be_bytes_of(x),
        final(out)@.len() == old(out)@.len() + 4,
        be_u32_at(final(out)@, old(out)@.len() as int) == x,
{
    let b0 = (x / 0x100_0000) as u8;
    let b1 = ((x / 0x1_0000) % 0x100) as u8;
    let b2 = ((x / 0x100) % 0x100) as u8;
    let b3 = (x % 0x100) as u8;
    out.push(b0);
    out.push(b1);
    out.push(b2);
    out.push(b3);
    proof {
        assert(final(out)@ =~= old(out)@ + be_bytes_of(x));
        lemma_be_bytes_roundtrip(x);
        assert(be_bytes_of(x) =~= final(out)@.subrange(
            old(out)@.len() as int,
            final(out)@.len() as int,
        ));
    }
}

/// A fresh copy of `src[start..end]`.
pub fn take_range(src: &[u8], start: usize, end: usize) -> (r: Vec<u8>)
    requires
        start <= end <= src@.len(),
    ensures
        r@ == src@.subrange(start as int, end as int),
{
    let mut r: Vec<u8> = Vec::with_capacity(end - start);
    r.extend_from_slice(vstd::slice::slice_subrange(src, start, end));
    proof {
        assert forall|i: int| 0 <= i < r@.len() implies r@[i] == src@.subrange(
            start as int,
            end as int,
        )[i] by {
            assert(cloned::<u8>(src@.subrange(start as int, end as int)[i], r@[i]));
        }
        assert(r@ =~= src@.subrange(start as int, end as int));
    }
    r
}

/// The concatenation of a sequence of byte sequences, in the given order.
pub open spec fn concat_of(ss: Seq<Seq<u8>>) -> Seq<u8>
    decreases ss.len(),
{
    if ss.len() == 0 {
        Seq::empty()
    } else {
        concat_of(ss.drop_last()) + ss.last()
    }
}

/// Concatenate several byte sources into one, preserving the caller-given
/// order. Used when several shard files together form one logical data set.
pub fn concat(sources: &Vec<Vec<u8>>) -> (r: Vec<u8>)
    requires
        concat_of(sources@.map_values(|v: Vec<u8>| v@)).len() <= usize::MAX,
    ensures
        r@ == concat_of(sources@.map_values(|v: Vec<u8>| v@)),
{
    let ghost all = sources@.map_values(|v: Vec<u8>| v@);
    let mut r: Vec<u8> = Vec::new();
    let mut i: usize = 0;
    proof {
        assert(all.subrange(0, 0) =~= Seq::<Seq<u8>>::empty());
    }
    while i < sources.len()
        invariant
            i <= sources@.len(),
            all == sources@.map_values(|v: Vec<u8>| v@),
            concat_of(all).len() <= usize::MAX,
            r@ == concat_of(all.subrange(0, i as int)),
        decreases sources@.len() - i,
    {
        proof {
            lemma_concat_of_prefix_len(all, i + 1);
            assert(all.subrange(0, i + 1).drop_last() =~= all.subrange(0, i as int));
            assert(all.subrange(0, i + 1).last() == sources@[i as int]@);
        }
        let mut part = take_range(&sources[i], 0, sources[i].len());
        proof {
            assert(part@ =~= sources@[i as int]@);
        }
        r.append(&mut part);
        i = i + 1;
    }
    proof {
        assert(all.subrange(0, sources@.len() as int) =~= all);
    }
    r
}

/// Fitting `count` records of `per` bytes each within `len` bytes is the
/// same comparison as `count <= len / per`.
pub proof fn lemma_records_fit(len: int, count: int, per: int)
    requires
        per >= 1,
        len >= 0,
        count >= 0,
    ensures
        count * per <= len <==> count <= len / per,
{
    vstd::arithmetic::div_mod::lemma_fundamental_div_mod(len, per);
    vstd::arithmetic::div_mod::lemma_mod_bound(len, per);
    let q = len / per;
    if count <= q {
        vstd::arithmetic::mul::lemma_mul_inequality(count, q, per);
        assert(q * per == per * q) by (nonlinear_arith);
    } else {
        vstd::arithmetic::mul::lemma_mul_inequality(q + 1, count, per);
        assert((q + 1) * per == per * q + per) by (nonlinear_arith);
    }
}

/// Every prefix of a concatenation is no longer than the whole.
pub proof fn lemma_concat_of_prefix_len(ss: Seq<Seq<u8>>, n: int)
    requires
        0 <= n <= ss.len(),
    ensures
        concat_of(ss.subrange(0, n)).len() <= concat_of(ss).len(),
    decreases ss.len() - n,
{
    if n == ss.len() {
        assert(ss.subrange(0, n) =~= ss);
    } else {
        lemma_concat_of_prefix_len(ss, n + 1);
        assert(ss.subrange(0, n + 1).drop_last() =~= ss.subrange(0, n));
    }
}

} // verus!
