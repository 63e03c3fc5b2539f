//! Little-endian layout of unsigned integers, as the instruction payload
//! and the pool record hold them.

use vstd::prelude::*;

verus! {

/// 256 to the power `n`.
pub open spec fn pow256(n: nat) -> nat
    decreases n,
{
    if n == 0 {
        1
    } else {
        256 * pow256((n - 1) as nat)
    }
}

/// The `width` low-order bytes of `value`, least significant first.
pub open spec fn le_bytes(value: nat, width: nat) -> Seq<u8>
    decreases width,
{
    if width == 0 {
        Seq::empty()
    } else {
        seq![(value % 256) as u8] + le_bytes(value / 256, (width - 1) as nat)
    }
}

/// The number that `bytes` spell, least significant byte first.
pub open spec fn le_value(bytes: Seq<u8>) -> nat
    decreases bytes.len(),
{
    if bytes.len() == 0 {
        0
    } else {
        bytes[0] as nat + 256 * le_value(bytes.drop_first())
    }
}

/// `le_bytes` yields exactly `width` bytes.
pub proof fn lemma_le_bytes_len(value: nat, width: nat)
    ensures
        le_bytes(value, width).len() == width,
    decreases width,
{
    if width > 0 {
        lemma_le_bytes_len(value / 256, (width - 1) as nat);
    }
}

/// What `bytes` spell is below 256 to the number of bytes.
pub proof fn lemma_le_value_bound(bytes: Seq<u8>)
    ensures
        le_value(bytes) < pow256(bytes.len()),
    decreases bytes.len(),
{
    if bytes.len() > 0 {
        lemma_le_value_bound(bytes.drop_first());
    }
}

/// Sixteen bytes hold exactly the 128-bit numbers.
pub proof fn lemma_pow256_sixteen()
    ensures
        pow256(16) == u128::MAX + 1,
{
    reveal_with_fuel(pow256, 17);
}

/// A number that fits in `width` bytes is read back from its layout.
pub proof fn lemma_le_value_of_bytes(value: nat, width: nat)
    requires
        value < pow256(width),
    ensures
        le_value(le_bytes(value, width)) == value,
    decreases width,
{
    if width > 0 {
        let rest = le_bytes(value / 256, (width - 1) as nat);
        let bytes = le_bytes(value, width);
        lemma_le_value_of_bytes(value / 256, (width - 1) as nat);
        assert(bytes.drop_first() =~= rest);
    }
}

/// Bytes are the layout of the number they spell.
pub proof fn lemma_le_bytes_of_value(bytes: Seq<u8>)
    ensures
        le_bytes(le_value(bytes), bytes.len()) == bytes,
    decreases bytes.len(),
{
    if bytes.len() > 0 {
        let tail = bytes.drop_first();
        lemma_le_bytes_of_value(tail);
        let value = le_value(bytes);
        assert(value % 256 == bytes[0] as nat);
        assert(value / 256 == le_value(tail));
        assert(le_bytes(value, bytes.len()) =~= bytes);
    } else {
        assert(le_bytes(le_value(bytes), 0) =~= bytes);
    }
}

/// Reads the 128-bit number laid out at `data[at..at + 16]`.
pub fn read_u128(data: &[u8], at: usize) -> (value: u128)
    requires
        at + 16 <= data.len(),
    ensures
        value == le_value(data@.subrange(at as int, at + 16)),
{
    let mut value: u128 = 0;
    let mut k: usize = 16;
    proof {
        lemma_pow256_sixteen();
        assert(data@.subrange(at + 16, at + 16).len() == 0);
    }
    while k > 0
        invariant
            k <= 16,
            at + 16 <= data.len(),
            value == le_value(data@.subrange(at + k, at + 16)),
            value < pow256((16 - k) as nat),
            pow256(16) == u128::MAX + 1,
        decreases k,
    {
        proof {
            let wider = data@.subrange(at + k - 1, at + 16);
            assert(wider.drop_first() =~= data@.subrange(at + k, at + 16));
            assert(wider[0] == data@[at + k - 1]);
            lemma_pow256_grows((16 - k + 1) as nat, 16);
        }
        k = k - 1;
        value = value * 256 + data[at + k] as u128;
    }
    value
}

/// `pow256` does not fall as its exponent grows.
pub proof fn lemma_pow256_grows(low: nat, high: nat)
    requires
        low <= high,
    ensures
        pow256(low) <= pow256(high),
        pow256(low) >= 1,
    decreases high,
{
    if low < high {
        lemma_pow256_grows(low, (high - 1) as nat);
    } else if low > 0 {
        lemma_pow256_grows((low - 1) as nat, (low - 1) as nat);
    }
}

/// Appends the sixteen bytes of `value` to `out`.
pub fn push_u128(out: &mut Vec<u8>, value: u128)
    ensures
        final(out)@ == old(out)@ + le_bytes(value as nat, 16),
{
    let mut rest: u128 = value;
    let mut i: usize = 0;
    while i < 16
        invariant
            i <= 16,
            old(out)@ + le_bytes(value as nat, 16) == out@ + le_bytes(rest as nat, (16 - i) as nat),
        decreases 16 - i,
    {
        proof {
            assert(out@ + le_bytes(rest as nat, (16 - i) as nat) =~= out@.push((rest % 256) as u8)
                + le_bytes((rest / 256) as nat, (16 - i - 1) as nat));
        }
        out.push((rest % 256) as u8);
        rest = rest / 256;
        i += 1;
    }
    proof {
        assert(out@ + le_bytes(rest as nat, 0) =~= out@);
    }
}

} // verus!
