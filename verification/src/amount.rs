//! Unsigned 256-bit amounts of native currency or of a token.

use vstd::prelude::*;

verus! {

/// Two to the power 128: the weight of the high half of a [`U256`].
pub open spec fn pow2_128() -> nat {
    0x1_0000_0000_0000_0000_0000_0000_0000_0000nat
}

/// Two to the power 256: the least number that is not an amount.
pub open spec fn pow2_256() -> nat {
    0x1_0000_0000_0000_0000_0000_0000_0000_0000_0000_0000_0000_0000_0000_0000_0000_0000nat
}

/// 256 to the power `n`.
pub open spec fn pow256(n: nat) -> nat
    decreases n,
{
    if n == 0 {
        1
    } else {
        256 * pow256((n - 1) as nat)
    }
}

/// The number that `bytes` spell in base 256, the most significant byte
/// first. Leading zero bytes do not count, and no bytes at all spell zero.
pub open spec fn be_value(bytes: Seq<u8>) -> nat
    decreases bytes.len(),
{
    if bytes.len() == 0 {
        0
    } else {
        be_value(bytes.drop_last()) * 256 + bytes.last() as nat
    }
}

/// An unsigned 256-bit amount, held as two 128-bit halves.
///
/// Its view is the number it stands for.
#[derive(Clone, Copy, Debug, PartialEq, Eq, Structural)]
pub struct U256 {
    /// The 128 most significant bits.
    pub hi: u128,
    /// The 128 least significant bits.
    pub lo: u128,
}

impl View for U256 {
    type V = nat;

    open spec fn view(&self) -> nat {
        self.hi as nat * pow2_128() + self.lo as nat
    }
}

impl U256 {
    /// The amount zero.
    pub fn zero() -> (r: U256)
        ensures
            r@ == 0,
    {
        U256 { hi: 0, lo: 0 }
    }

    /// The amount `v`.
    pub fn from_u64(v: u64) -> (r: U256)
        ensures
            r@ == v,
    {
        U256 { hi: 0, lo: v as u128 }
    }

    /// The amount `v`.
    pub fn from_u128(v: u128) -> (r: U256)
        ensures
            r@ == v,
    {
        U256 { hi: 0, lo: v }
    }

    /// Whether the amount is zero.
    pub fn is_zero(&self) -> (b: bool)
        ensures
            b == (self@ == 0),
    {
        self.hi == 0 && self.lo == 0
    }

    /// Reads an amount from its bytes in base 256, the most significant
    /// first, of any length. Gives `None` exactly where the number does not
    /// fit 256 bits.
    pub fn from_be_bytes(bytes: &[u8]) -> (r: Option<U256>)
        ensures
            match r {
                Some(amount) => amount@ == be_value(bytes@),
                None => be_value(bytes@) >= pow2_256(),
            },
    {
        let mut hi: u128 = 0;
        let mut lo: u128 = 0;
        let mut i: usize = 0;
        while i < bytes.len()
            invariant
                i <= bytes.len(),
                hi as nat * pow2_128() + lo as nat == be_value(bytes@.take(i as int)),
            decreases bytes.len() - i,
        {
            let byte: u8 = bytes[i];
            proof {
                let longer = bytes@.take(i + 1);
                assert(longer.drop_last() =~= bytes@.take(i as int));
                assert(longer.last() == byte);
                lemma_be_value_of_prefix(bytes@, i + 1);
            }
            if hi >= 0x0100_0000_0000_0000_0000_0000_0000_0000u128 {
                return None;
            }
            let carry: u128 = lo / 0x0100_0000_0000_0000_0000_0000_0000_0000u128;
            let rest: u128 = lo % 0x0100_0000_0000_0000_0000_0000_0000_0000u128;
            hi = hi * 256 + carry;
            lo = rest * 256 + byte as u128;
            i += 1;
        }
        assert(bytes@.take(i as int) =~= bytes@);
        Some(U256 { hi, lo })
    }

    /// The 32 bytes that spell the amount in base 256, the most significant
    /// first.
    pub fn to_be_bytes(&self) -> (bytes: Vec<u8>)
        ensures
            bytes@.len() == 32,
            be_value(bytes@) == self@,
    {
        let mut bytes: Vec<u8> = Vec::new();
        proof {
            lemma_pow256_16();
        }
        push_be(&mut bytes, self.hi, 16);
        push_be(&mut bytes, self.lo, 16);
        bytes
    }
}

/// Appends to `out` the `n` bytes that spell `x` in base 256, the most
/// significant first.
fn push_be(out: &mut Vec<u8>, x: u128, n: usize)
    requires
        x < pow256(n as nat),
    ensures
        final(out)@.len() == old(out)@.len() + n,
        be_value(final(out)@) == be_value(old(out)@) * pow256(n as nat) + x,
    decreases n,
{
    if n > 0 {
        push_be(out, x / 256, n - 1);
        let ghost before = out@;
        let digit: u8 = (x % 256) as u8;
        out.push(digit);
        proof {
            let high = be_value(old(out)@);
            let weight = pow256((n - 1) as nat);
            assert(out@.drop_last() =~= before);
            assert(out@.last() == digit);
            assert(high * (256 * weight) == (high * weight) * 256) by (nonlinear_arith);
        }
    }
}

/// 256 to the power 16 is two to the power 128.
proof fn lemma_pow256_16()
    ensures
        pow256(16) == pow2_128(),
{
    reveal_with_fuel(pow256, 17);
}

/// The bytes before a position spell no more than all the bytes do.
pub proof fn lemma_be_value_of_prefix(bytes: Seq<u8>, k: int)
    requires
        0 <= k <= bytes.len(),
    ensures
        be_value(bytes.take(k)) <= be_value(bytes),
    decreases bytes.len(),
{
    if k == bytes.len() {
        assert(bytes.take(k) =~= bytes);
    } else {
        assert(bytes.drop_last().take(k) =~= bytes.take(k));
        lemma_be_value_of_prefix(bytes.drop_last(), k);
    }
}

/// Two strings of bytes of one length that spell the same number are the
/// same string: the 32 bytes of an amount are the only ones that spell it.
pub proof fn lemma_be_value_is_injective(a: Seq<u8>, b: Seq<u8>)
    requires
        a.len() == b.len(),
        be_value(a) == be_value(b),
    ensures
        a == b,
    decreases a.len(),
{
    if a.len() > 0 {
        lemma_be_value_is_injective(a.drop_last(), b.drop_last());
        assert(a =~= a.drop_last().push(a.last()));
        assert(b =~= b.drop_last().push(b.last()));
    } else {
        assert(a =~= b);
    }
}

/// Every amount is below two to the power 256, and two amounts that stand
/// for the same number are the same amount.
pub proof fn lemma_view_is_injective(a: U256, b: U256)
    ensures
        a@ < pow2_256(),
        a@ == b@ <==> a == b,
{
}

} // verus!
