//! Transaction identifiers of a simulated block.
//!
//! An identifier is the SHA-256 digest of the text `<height>::<index>`, both
//! numbers in decimal. It depends on where an operation stands in the chain
//! and not on what the operation holds: identifiers are not content addresses.

use crate::digest::{sha256, sha256_digest};
use vstd::prelude::*;

verus! {

/// A 32-byte transaction identifier.
pub type Txid = [u8; 32];

/// The ASCII code of the decimal digit `d`.
pub open spec fn digit_byte(d: nat) -> u8 {
    (48 + d) as u8
}

/// The decimal representation of `n` in ASCII, without leading zeros.
pub open spec fn decimal_digits(n: nat) -> Seq<u8>
    decreases n,
{
    if n < 10 {
        seq![digit_byte(n)]
    } else {
        decimal_digits(n / 10).push(digit_byte(n % 10))
    }
}

/// The digits of `n` that stand before those already written: none once
/// `n` has reached zero.
spec fn leading_digits(n: nat) -> Seq<u8> {
    if n == 0 {
        Seq::empty()
    } else {
        decimal_digits(n)
    }
}

proof fn lemma_peel_last_digit(n: nat)
    ensures
        decimal_digits(n) == leading_digits(n / 10).push(digit_byte(n % 10)),
{
    if n < 10 {
        assert(n / 10 == 0);
        assert(n % 10 == n);
        assert(decimal_digits(n) =~= Seq::<u8>::empty().push(digit_byte(n)));
    }
}

/// The bytes that are hashed into the identifier of the operation at
/// position `vtxindex` of the block at `block_height`.
pub open spec fn txid_preimage(block_height: u64, vtxindex: u32) -> Seq<u8> {
    decimal_digits(block_height as nat) + seq![58u8, 58u8] + decimal_digits(vtxindex as nat)
}

/// The identifier of the operation at position `vtxindex` of the block at
/// `block_height`.
pub open spec fn txid_bytes(block_height: u64, vtxindex: u32) -> Seq<u8> {
    sha256(txid_preimage(block_height, vtxindex))
}

/// The number that the decimal digits `digits` write.
pub open spec fn decimal_value(digits: Seq<u8>) -> nat
    decreases digits.len(),
{
    if digits.len() == 0 {
        0
    } else {
        (decimal_value(digits.drop_last()) * 10 + (digits.last() - 48)) as nat
    }
}

/// A decimal representation is never empty and holds digits only.
pub proof fn lemma_decimal_digits_are_digits(n: nat)
    ensures
        decimal_digits(n).len() >= 1,
        forall|i: int|
            0 <= i < decimal_digits(n).len() ==> 48 <= #[trigger] decimal_digits(n)[i] <= 57,
    decreases n,
{
    if n >= 10 {
        lemma_decimal_digits_are_digits(n / 10);
    }
}

/// Reading a decimal representation gives the number back.
pub proof fn lemma_decimal_value_of_digits(n: nat)
    ensures
        decimal_value(decimal_digits(n)) == n,
    decreases n,
{
    let digits = decimal_digits(n);
    if n < 10 {
        assert(digits.drop_last() =~= Seq::<u8>::empty());
        assert(decimal_value(digits.drop_last()) == 0);
    } else {
        lemma_decimal_value_of_digits(n / 10);
        assert(digits.drop_last() =~= decimal_digits(n / 10));
    }
}

/// Different positions in the chain are hashed from different bytes: the
/// text that an identifier is the digest of determines the height and the
/// position it was written from. Two identifiers can therefore only
/// coincide where SHA-256 itself collides.
pub proof fn lemma_txid_preimage_injective(
    block_height: u64,
    vtxindex: u32,
    other_height: u64,
    other_vtxindex: u32,
)
    requires
        txid_preimage(block_height, vtxindex) == txid_preimage(other_height, other_vtxindex),
    ensures
        block_height == other_height,
        vtxindex == other_vtxindex,
{
    let text = txid_preimage(block_height, vtxindex);
    let other = txid_preimage(other_height, other_vtxindex);
    let height = decimal_digits(block_height as nat);
    let index = decimal_digits(vtxindex as nat);
    let height2 = decimal_digits(other_height as nat);
    let index2 = decimal_digits(other_vtxindex as nat);
    lemma_decimal_digits_are_digits(block_height as nat);
    lemma_decimal_digits_are_digits(vtxindex as nat);
    lemma_decimal_digits_are_digits(other_height as nat);
    lemma_decimal_digits_are_digits(other_vtxindex as nat);
    assert(text[height.len() as int] == 58u8);
    assert(other[height2.len() as int] == 58u8);
    if height.len() < height2.len() {
        assert(other[height.len() as int] == height2[height.len() as int]);
        assert(false);
    }
    if height2.len() < height.len() {
        assert(text[height2.len() as int] == height[height2.len() as int]);
        assert(false);
    }
    assert(height =~= text.subrange(0, height.len() as int));
    assert(height2 =~= other.subrange(0, height2.len() as int));
    assert(index =~= text.subrange(height.len() as int + 2, text.len() as int));
    assert(index2 =~= other.subrange(height2.len() as int + 2, other.len() as int));
    lemma_decimal_value_of_digits(block_height as nat);
    lemma_decimal_value_of_digits(other_height as nat);
    lemma_decimal_value_of_digits(vtxindex as nat);
    lemma_decimal_value_of_digits(other_vtxindex as nat);
}

/// Appends the decimal representation of `n` to `out`.
pub fn push_decimal(out: &mut Vec<u8>, n: u64)
    ensures
        final(out)@ == old(out)@ + decimal_digits(n as nat),
{
    let mut reversed: Vec<u8> = Vec::new();
    let mut rest: u64 = n;
    let ghost mut written: Seq<u8> = Seq::empty();
    proof {
        lemma_peel_last_digit(n as nat);
    }
    let last: u8 = (rest % 10) as u8 + 48;
    reversed.push(last);
    rest = rest / 10;
    proof {
        written = seq![last];
        assert(decimal_digits(n as nat) =~= leading_digits(rest as nat) + written);
    }
    while rest > 0
        invariant
            decimal_digits(n as nat) == leading_digits(rest as nat) + written,
            reversed@.len() == written.len(),
            forall|i: int|
                0 <= i < written.len() ==> reversed@[i] == #[trigger] written[written.len() - 1 - i],
        decreases rest,
    {
        proof {
            lemma_peel_last_digit(rest as nat);
        }
        let digit: u8 = (rest % 10) as u8 + 48;
        let ghost before = written;
        reversed.push(digit);
        proof {
            written = seq![digit] + before;
            assert(leading_digits(rest as nat) + before =~= leading_digits((rest / 10) as nat)
                + written);
            assert forall|i: int| 0 <= i < written.len() implies reversed@[i]
                == #[trigger] written[written.len() - 1 - i] by {
                if i < before.len() {
                    assert(written[written.len() - 1 - i] == before[before.len() - 1 - i]);
                }
            }
        }
        rest = rest / 10;
    }
    assert(decimal_digits(n as nat) =~= written);
    let count: usize = reversed.len();
    let mut k: usize = 0;
    while k < count
        invariant
            k <= count,
            count == reversed@.len(),
            count == written.len(),
            forall|i: int|
                0 <= i < written.len() ==> reversed@[i] == #[trigger] written[written.len() - 1 - i],
            out@ == old(out)@ + written.subrange(0, k as int),
        decreases count - k,
    {
        let byte: u8 = reversed[count - 1 - k];
        assert(byte == written[k as int]) by {
            assert(reversed@[count - 1 - k] == written[written.len() - 1 - (count - 1 - k)]);
        }
        out.push(byte);
        assert(out@ =~= old(out)@ + written.subrange(0, k as int + 1));
        k = k + 1;
    }
    assert(written.subrange(0, count as int) =~= written);
}

/// Writes the text that is hashed into the identifier of the operation at
/// position `vtxindex` of the block at `block_height`: the height, two
/// colons, the position.
pub fn txid_text(block_height: u64, vtxindex: u32) -> (text: Vec<u8>)
    ensures
        text@ == txid_preimage(block_height, vtxindex),
{
    let mut text: Vec<u8> = Vec::new();
    push_decimal(&mut text, block_height);
    text.push(58u8);
    text.push(58u8);
    push_decimal(&mut text, vtxindex as u64);
    assert(text@ =~= txid_preimage(block_height, vtxindex));
    text
}

/// Derives the identifier of the operation at position `vtxindex` of the
/// block at `block_height`.
pub fn derive_txid(block_height: u64, vtxindex: u32) -> (txid: Txid)
    ensures
        txid@ == txid_bytes(block_height, vtxindex),
{
    let text = txid_text(block_height, vtxindex);
    sha256_digest(text.as_slice())
}

} // verus!
