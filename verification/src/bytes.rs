//! Byte-level building blocks: little-endian encodings, truncate-and-pad
//! field writes, and framing predicates over byte buffers.

use vstd::prelude::*;

verus! {

/// The little-endian bytes of a 32-bit value.
pub open spec fn u32_le(v: u32) -> Seq<u8> {
    seq![
        (v as nat % 256) as u8,
        ((v as nat / 256) % 256) as u8,
        ((v as nat / 65536) % 256) as u8,
        ((v as nat / 16777216) % 256) as u8,
    ]
}

/// The little-endian bytes of a 16-bit value.
pub open spec fn u16_le(v: u16) -> Seq<u8> {
    seq![(v as nat % 256) as u8, ((v as nat / 256) % 256) as u8]
}

/// An all-zero byte sequence of length `n`.
pub open spec fn zeros(n: nat) -> Seq<u8> {
    Seq::new(n, |i: int| 0u8)
}

/// `src` truncated to at most `cap` bytes, then zero-padded to exactly `cap`
/// bytes: the content of a fixed-capacity field.
pub open spec fn padded(src: Seq<u8>, cap: nat) -> Seq<u8> {
    if src.len() >= cap {
        src.take(cap as int)
    } else {
        src + zeros((cap - src.len()) as nat)
    }
}

/// The bytes of `s` starting at `off` spell out `v`.
pub open spec fn seq_at(s: Seq<u8>, off: int, v: Seq<u8>) -> bool {
    forall|j: int| off <= j < off + v.len() ==> (#[trigger] s[j]) == v[j - off]
}

/// `a` and `b` have the same length and agree outside `[lo, hi)`.
pub open spec fn same_outside(a: Seq<u8>, b: Seq<u8>, lo: int, hi: int) -> bool {
    &&& a.len() == b.len()
    &&& forall|j: int| 0 <= j < a.len() && !(lo <= j < hi) ==> (#[trigger] a[j]) == b[j]
}

/// Spelling out a concatenation is spelling out both halves in place.
pub proof fn lemma_seq_at_concat(s: Seq<u8>, off: int, a: Seq<u8>, b: Seq<u8>)
    requires
        seq_at(s, off, a),
        seq_at(s, off + a.len(), b),
    ensures
        seq_at(s, off, a + b),
{
    assert forall|j: int| off <= j < off + (a + b).len() implies s[j] == (a + b)[j - off] by {
        if j < off + a.len() {
            assert(s[j] == a[j - off]);
        } else {
            assert(s[j] == b[j - off - a.len()]);
        }
    }
}

/// A zero-filled buffer of length `n`.
pub fn zeroed_buf(n: usize) -> (r: Vec<u8>)
    ensures
        r@ == zeros(n as nat),
{
    let mut v: Vec<u8> = Vec::new();
    while v.len() < n
        invariant
            v@.len() <= n,
            forall|j: int| 0 <= j < v@.len() ==> v@[j] == 0u8,
        decreases n - v@.len(),
    {
        v.push(0);
    }
    proof {
        assert(v@ =~= zeros(n as nat));
    }
    v
}

/// Writes the four little-endian bytes of `v` at `off`.
pub fn write_u32_at(buf: &mut Vec<u8>, off: usize, v: u32)
    requires
        off + 4 <= old(buf)@.len(),
    ensures
        final(buf)@.len() == old(buf)@.len(),
        seq_at(final(buf)@, off as int, u32_le(v)),
        same_outside(final(buf)@, old(buf)@, off as int, off + 4),
{
    let n = buf.len();
    assert(off + 4 <= n);
    let b0: u8 = (v % 256) as u8;
    let b1: u8 = ((v / 256) % 256) as u8;
    let b2: u8 = ((v / 65536) % 256) as u8;
    let b3: u8 = ((v / 16777216) % 256) as u8;
    buf.set(off, b0);
    buf.set(off + 1, b1);
    buf.set(off + 2, b2);
    buf.set(off + 3, b3);
}

/// Writes the two little-endian bytes of `v` at `off`.
pub fn write_u16_at(buf: &mut Vec<u8>, off: usize, v: u16)
    requires
        off + 2 <= old(buf)@.len(),
    ensures
        final(buf)@.len() == old(buf)@.len(),
        seq_at(final(buf)@, off as int, u16_le(v)),
        same_outside(final(buf)@, old(buf)@, off as int, off + 2),
{
    let n = buf.len();
    assert(off + 2 <= n);
    let b0: u8 = (v % 256) as u8;
    let b1: u8 = ((v / 256) % 256) as u8;
    buf.set(off, b0);
    buf.set(off + 1, b1);
}

/// Fills the `cap`-byte field at `off` with a prefix of `src`, zero-padded:
/// the write never runs past `off + cap`.
pub fn write_field(buf: &mut Vec<u8>, off: usize, cap: usize, src: &[u8])
    requires
        off + cap <= old(buf)@.len(),
    ensures
        final(buf)@.len() == old(buf)@.len(),
        seq_at(final(buf)@, off as int, padded(src@, cap as nat)),
        same_outside(final(buf)@, old(buf)@, off as int, off + cap),
{
    let n = buf.len();
    let mut i: usize = 0;
    while i < cap
        invariant
            i <= cap,
            off + cap <= n,
            n == buf@.len(),
            buf@.len() == old(buf)@.len(),
            forall|j: int| 0 <= j < i ==> buf@[off + j] == padded(src@, cap as nat)[j],
            forall|j: int| 0 <= j < buf@.len() && !(off <= j < off + i) ==> buf@[j] == old(
                buf,
            )@[j],
        decreases cap - i,
    {
        let b: u8 = if i < src.len() {
            src[i]
        } else {
            0
        };
        buf.set(off + i, b);
        i = i + 1;
    }
    proof {
        assert forall|j: int| off <= j < off + padded(src@, cap as nat).len() implies buf@[j]
            == padded(src@, cap as nat)[j - off] by {
            assert(buf@[off + (j - off)] == padded(src@, cap as nat)[j - off]);
        }
    }
}

/// The `i`-th word of `src`, or zero past the end.
pub open spec fn word_at(src: Seq<u32>, i: int) -> u32 {
    if 0 <= i < src.len() {
        src[i]
    } else {
        0u32
    }
}

/// `nwords` 32-bit little-endian slots holding a prefix of `src`, the rest
/// zero.
pub open spec fn u32_words_le(src: Seq<u32>, nwords: nat) -> Seq<u8>
    decreases nwords,
{
    if nwords == 0 {
        Seq::empty()
    } else {
        u32_words_le(src, (nwords - 1) as nat) + u32_le(word_at(src, nwords - 1))
    }
}

pub proof fn lemma_u32_words_le_len(src: Seq<u32>, nwords: nat)
    ensures
        u32_words_le(src, nwords).len() == 4 * nwords,
    decreases nwords,
{
    if nwords > 0 {
        lemma_u32_words_le_len(src, (nwords - 1) as nat);
    }
}

/// Fills `nwords` 32-bit slots at `off` with a prefix of `src`, zero-padded
/// slot-wise.
pub fn write_u32_words(buf: &mut Vec<u8>, off: usize, nwords: usize, src: &Vec<u32>)
    requires
        off + 4 * nwords <= old(buf)@.len(),
    ensures
        final(buf)@.len() == old(buf)@.len(),
        seq_at(final(buf)@, off as int, u32_words_le(src@, nwords as nat)),
        same_outside(final(buf)@, old(buf)@, off as int, off + 4 * nwords),
{
    let n = buf.len();
    let mut i: usize = 0;
    while i < nwords
        invariant
            i <= nwords,
            off + 4 * nwords <= n,
            n == buf@.len(),
            buf@.len() == old(buf)@.len(),
            seq_at(buf@, off as int, u32_words_le(src@, i as nat)),
            same_outside(buf@, old(buf)@, off as int, off + 4 * i),
        decreases nwords - i,
    {
        let v: u32 = if i < src.len() {
            src[i]
        } else {
            0
        };
        proof {
            lemma_u32_words_le_len(src@, i as nat);
        }
        write_u32_at(buf, off + 4 * i, v);
        proof {
            lemma_seq_at_concat(
                buf@,
                off as int,
                u32_words_le(src@, i as nat),
                u32_le(word_at(src@, i as int)),
            );
            assert(u32_words_le(src@, (i + 1) as nat) == u32_words_le(src@, i as nat) + u32_le(
                word_at(src@, i as int),
            ));
        }
        i = i + 1;
    }
}

/// Reads the 32-bit little-endian value at `off`; meant for inspecting a
/// built buffer.
pub fn read_u32_at(buf: &Vec<u8>, off: usize) -> (r: u32)
    requires
        off + 4 <= buf@.len(),
    ensures
        r == buf@[off as int] + 0x100 * buf@[off as int + 1] + 0x10000 * buf@[off as int + 2]
            + 0x1000000 * buf@[off as int + 3],
{
    let n = buf.len();
    assert(off + 4 <= n);
    let b0: u32 = buf[off] as u32;
    let b1: u32 = buf[off + 1] as u32;
    let b2: u32 = buf[off + 2] as u32;
    let b3: u32 = buf[off + 3] as u32;
    b0 + 0x100 * b1 + 0x10000 * b2 + 0x1000000 * b3
}

/// The decimal digits of `v`, most significant first.
pub open spec fn dec_seq(v: nat) -> Seq<u8>
    decreases v,
{
    if v < 10 {
        seq![(48 + v) as u8]
    } else {
        dec_seq(v / 10) + seq![(48 + v % 10) as u8]
    }
}

/// Appends the decimal digits of `v` to `out`.
pub fn push_dec(out: &mut Vec<u8>, v: u32)
    ensures
        final(out)@ == old(out)@ + dec_seq(v as nat),
    decreases v,
{
    if v < 10 {
        out.push(48 + v as u8);
        proof {
            assert(out@ =~= old(out)@ + dec_seq(v as nat));
        }
    } else {
        push_dec(out, v / 10);
        out.push(48 + (v % 10) as u8);
        proof {
            assert(out@ =~= old(out)@ + dec_seq(v as nat));
        }
    }
}

} // verus!
