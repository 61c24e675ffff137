//! Byte strings: comparison, copying, and big-endian integers.

use vstd::prelude::*;

verus! {

/// The `width` low-order base-256 digits of `value`, most significant first.
pub open spec fn be_bytes(value: nat, width: nat) -> Seq<u8>
    decreases width,
{
    if width == 0 {
        Seq::empty()
    } else {
        be_bytes(value / 256, (width - 1) as nat).push((value % 256) as u8)
    }
}

/// What is left of `value` once its `width` low-order base-256 digits are
/// taken away.
pub open spec fn high_part(value: nat, width: nat) -> nat
    decreases width,
{
    if width == 0 {
        value
    } else {
        high_part(value / 256, (width - 1) as nat)
    }
}

/// A big-endian encoding is as long as its width.
pub proof fn lemma_be_bytes_len(value: nat, width: nat)
    ensures
        be_bytes(value, width).len() == width,
    decreases width,
{
    if width > 0 {
        lemma_be_bytes_len(value / 256, (width - 1) as nat);
    }
}

/// Two numbers with the same digits and the same high part are the same
/// number.
pub proof fn lemma_be_bytes_injective(a: nat, b: nat, width: nat)
    requires
        be_bytes(a, width) == be_bytes(b, width),
        high_part(a, width) == high_part(b, width),
    ensures
        a == b,
    decreases width,
{
    if width > 0 {
        let w = (width - 1) as nat;
        let sa = be_bytes(a / 256, w);
        let sb = be_bytes(b / 256, w);
        assert(sa.push((a % 256) as u8).drop_last() == sa);
        assert(sb.push((b % 256) as u8).drop_last() == sb);
        assert(sa.push((a % 256) as u8).last() == (a % 256) as u8);
        assert(sb.push((b % 256) as u8).last() == (b % 256) as u8);
        lemma_be_bytes_injective(a / 256, b / 256, w);
    }
}

/// A 64-bit number has no high part beyond eight digits.
pub proof fn lemma_u64_fits(value: u64)
    ensures
        high_part(value as nat, 8) == 0,
{
    reveal_with_fuel(high_part, 9);
}

/// A 32-bit number has no high part beyond four digits.
pub proof fn lemma_u32_fits(value: u32)
    ensures
        high_part(value as nat, 4) == 0,
{
    reveal_with_fuel(high_part, 5);
}

/// Whether two byte strings hold the same bytes.
pub fn bytes_equal(a: &Vec<u8>, b: &Vec<u8>) -> (same: bool)
    ensures
        same == (a@ == b@),
{
    if a.len() != b.len() {
        return false;
    }
    let mut i: usize = 0;
    while i < a.len()
        invariant
            i <= a.len(),
            a.len() == b.len(),
            forall|j: int| 0 <= j < i ==> a@[j] == b@[j],
        decreases a.len() - i,
    {
        if a[i] != b[i] {
            return false;
        }
        i += 1;
    }
    assert(a@ =~= b@);
    true
}

/// Appends the bytes of `src` to `dst`.
pub fn append_bytes(dst: &mut Vec<u8>, src: &Vec<u8>)
    ensures
        final(dst)@ == old(dst)@ + src@,
{
    let mut i: usize = 0;
    while i < src.len()
        invariant
            i <= src.len(),
            dst@ == old(dst)@ + src@.subrange(0, i as int),
        decreases src.len() - i,
    {
        dst.push(src[i]);
        i += 1;
        assert(dst@ =~= old(dst)@ + src@.subrange(0, i as int));
    }
    assert(src@.subrange(0, src@.len() as int) =~= src@);
}

/// A fresh byte string with the bytes of `src`.
pub fn copy_bytes(src: &Vec<u8>) -> (copy: Vec<u8>)
    ensures
        copy@ == src@,
{
    let mut copy: Vec<u8> = Vec::new();
    append_bytes(&mut copy, src);
    assert(copy@ =~= src@);
    copy
}

/// Appends the `width` low-order base-256 digits of `value` to `dst`, most
/// significant first.
pub fn append_be(dst: &mut Vec<u8>, value: u64, width: usize)
    ensures
        final(dst)@ == old(dst)@ + be_bytes(value as nat, width as nat),
    decreases width,
{
    if width > 0 {
        append_be(dst, value / 256, width - 1);
        let digit: u64 = value % 256;
        dst.push(digit as u8);
        assert(dst@ =~= old(dst)@ + be_bytes(value as nat, width as nat));
    } else {
        assert(dst@ =~= old(dst)@ + be_bytes(value as nat, width as nat));
    }
}

} // verus!
