use vstd::prelude::*;
use vstd::slice::{slice_subrange, slice_to_vec};

verus! {

/// 256 to the power k; the number of byte strings of length k.
pub open spec fn pow256(k: nat) -> int
    decreases k,
{
    if k == 0 {
        1
    } else {
        256 * pow256((k - 1) as nat)
    }
}

/// The minimal big-endian bytes of an integer: empty for zero, and never
/// with a leading zero byte.
pub open spec fn be_bytes_of(n: nat) -> Seq<u8>
    decreases n,
{
    if n == 0 {
        Seq::empty()
    } else {
        be_bytes_of(n / 256).push((n % 256) as u8)
    }
}

/// The encoding of a byte string: itself for a single byte under 0x80, a
/// one-byte header for short strings, a length-of-length header otherwise.
pub open spec fn rlp_bytes(b: Seq<u8>) -> Seq<u8> {
    if b.len() == 1 && b[0] < 0x80 {
        b
    } else if b.len() < 56 {
        seq![(0x80 + b.len()) as u8] + b
    } else {
        seq![(0xb7 + be_bytes_of(b.len()).len()) as u8] + be_bytes_of(b.len()) + b
    }
}

/// The encoding of an unsigned integer: its minimal big-endian bytes as a
/// string item.
pub open spec fn rlp_uint(n: nat) -> Seq<u8> {
    rlp_bytes(be_bytes_of(n))
}

/// The encoding of a list whose items together encode to `payload`.
pub open spec fn rlp_list(payload: Seq<u8>) -> Seq<u8> {
    if payload.len() < 56 {
        seq![(0xc0 + payload.len()) as u8] + payload
    } else {
        seq![(0xf7 + be_bytes_of(payload.len()).len()) as u8] + be_bytes_of(payload.len())
            + payload
    }
}

/// A byte string with any leading zero bytes removed; how the encoding
/// writes signature words.
pub open spec fn trim_leading_zeros(b: Seq<u8>) -> Seq<u8>
    decreases b.len(),
{
    if b.len() > 0 && b[0] == 0 {
        trim_leading_zeros(b.drop_first())
    } else {
        b
    }
}

/// Trimming leading zeros never lengthens a byte string.
pub proof fn lemma_trim_len(b: Seq<u8>)
    ensures
        trim_leading_zeros(b).len() <= b.len(),
    decreases b.len(),
{
    if b.len() > 0 && b[0] == 0 {
        lemma_trim_len(b.drop_first());
    }
}

/// An integer below 256^k has at most k minimal big-endian bytes.
proof fn lemma_be_bytes_len(n: nat, k: nat)
    requires
        n < pow256(k),
    ensures
        be_bytes_of(n).len() <= k,
    decreases k,
{
    if n > 0 {
        assert(k > 0);
        assert(n / 256 < pow256((k - 1) as nat)) by (nonlinear_arith)
            requires
                n < pow256(k),
                pow256(k) == 256 * pow256((k - 1) as nat),
                n > 0,
        ;
        lemma_be_bytes_len(n / 256, (k - 1) as nat);
    }
}

/// Every u128 has at most 16 minimal big-endian bytes.
proof fn lemma_be_bytes_len_u128(n: u128)
    ensures
        be_bytes_of(n as nat).len() <= 16,
{
    reveal_with_fuel(pow256, 17);
    assert(pow256(16) == 0x100000000000000000000000000000000);
    lemma_be_bytes_len(n as nat, 16);
}

/// Every usize has at most 8 minimal big-endian bytes.
proof fn lemma_be_bytes_len_usize(n: usize)
    ensures
        be_bytes_of(n as nat).len() <= 8,
{
    reveal_with_fuel(pow256, 9);
    assert(pow256(8) == 0x10000000000000000);
    lemma_be_bytes_len(n as nat, 8);
}

/// The minimal big-endian bytes of an integer.
pub fn be_bytes(n: u128) -> (r: Vec<u8>)
    ensures
        r@ == be_bytes_of(n as nat),
    decreases n,
{
    if n == 0 {
        Vec::new()
    } else {
        let mut r = be_bytes(n / 256);
        r.push((n % 256) as u8);
        r
    }
}

/// Appends the encoding of a byte string of fewer than 56 bytes.
pub fn append_rlp_bytes(out: &mut Vec<u8>, b: &Vec<u8>)
    requires
        b@.len() < 56,
    ensures
        final(out)@ == old(out)@ + rlp_bytes(b@),
{
    if b.len() == 1 && b[0] < 0x80 {
        out.push(b[0]);
        assert(out@ =~= old(out)@ + rlp_bytes(b@));
    } else {
        out.push(0x80 + b.len() as u8);
        out.extend_from_slice(b.as_slice());
        assert(out@ =~= old(out)@ + rlp_bytes(b@));
    }
}

/// Appends the encoding of an unsigned integer.
pub fn append_rlp_uint(out: &mut Vec<u8>, n: u128)
    ensures
        final(out)@ == old(out)@ + rlp_uint(n as nat),
{
    proof {
        lemma_be_bytes_len_u128(n);
    }
    let be = be_bytes(n);
    append_rlp_bytes(out, &be);
}

/// Wraps an already encoded payload as a list.
pub fn rlp_wrap_list(payload: &Vec<u8>) -> (r: Vec<u8>)
    ensures
        r@ == rlp_list(payload@),
{
    let mut out: Vec<u8> = Vec::new();
    if payload.len() < 56 {
        out.push(0xc0 + payload.len() as u8);
    } else {
        proof {
            lemma_be_bytes_len_usize(payload.len());
        }
        let be = be_bytes(payload.len() as u128);
        out.push(0xf7 + be.len() as u8);
        out.extend_from_slice(be.as_slice());
    }
    out.extend_from_slice(payload.as_slice());
    assert(out@ =~= rlp_list(payload@));
    out
}

/// The byte string with its leading zero bytes removed.
pub fn trim_zeros(b: &Vec<u8>) -> (r: Vec<u8>)
    ensures
        r@ == trim_leading_zeros(b@),
{
    let mut i: usize = 0;
    proof {
        assert(b@.skip(0) =~= b@);
    }
    while i < b.len() && b[i] == 0
        invariant
            i <= b@.len(),
            trim_leading_zeros(b@) == trim_leading_zeros(b@.skip(i as int)),
        decreases b@.len() - i,
    {
        proof {
            assert(b@.skip(i as int).drop_first() =~= b@.skip(i as int + 1));
        }
        i += 1;
    }
    proof {
        if i < b@.len() {
            assert(b@.skip(i as int)[0] == b@[i as int]);
        }
        assert(trim_leading_zeros(b@.skip(i as int)) == b@.skip(i as int));
    }
    slice_to_vec(slice_subrange(b.as_slice(), i, b.len()))
}

} // verus!
