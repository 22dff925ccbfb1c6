use vstd::prelude::*;

verus! {

/// A field element, held as its 32 big-endian bytes.
#[derive(Clone, Copy, Debug, PartialEq, Eq)]
pub struct Felt {
    pub bytes: [u8; 32],
}

/// The value of a big-endian byte string.
pub open spec fn be_value(s: Seq<u8>) -> nat
    decreases s.len(),
{
    if s.len() == 0 {
        0
    } else {
        be_value(s.drop_last()) * 256 + s.last() as nat
    }
}

/// `256` to the power `n`.
pub open spec fn pow256(n: nat) -> nat
    decreases n,
{
    if n == 0 {
        1
    } else {
        pow256((n - 1) as nat) * 256
    }
}

/// The bytes of `f` above the low 16 are all zero, so that it fits in a `u128`.
pub open spec fn fits_u128(f: Felt) -> bool {
    forall|i: int| 0 <= i < 16 ==> f.bytes@[i] == 0
}

/// The integer that a felt stands for.
pub open spec fn felt_value(f: Felt) -> nat {
    be_value(f.bytes@)
}

pub proof fn lemma_be_value_bound(s: Seq<u8>)
    ensures
        be_value(s) < pow256(s.len()),
    decreases s.len(),
{
    if s.len() > 0 {
        lemma_be_value_bound(s.drop_last());
        let p = pow256((s.len() - 1) as nat);
        let v = be_value(s.drop_last());
        assert(v * 256 + (s.last() as nat) < p * 256) by (nonlinear_arith)
            requires
                v < p,
                s.last() < 256,
        ;
    }
}

/// The value of `s` is that of its high part shifted past its low `k` bytes,
/// plus that of its low part.
proof fn lemma_be_value_split(s: Seq<u8>, k: nat)
    requires
        k <= s.len(),
    ensures
        be_value(s) == be_value(s.subrange(0, s.len() - k)) * pow256(k) + be_value(
            s.subrange(s.len() - k, s.len() as int),
        ),
    decreases k,
{
    let n = s.len() as int;
    if k == 0 {
        assert(s.subrange(0, n) =~= s);
        assert(s.subrange(n, n) =~= Seq::<u8>::empty());
    } else {
        let t = s.drop_last();
        lemma_be_value_split(t, (k - 1) as nat);
        assert(t.subrange(0, t.len() - (k - 1)) =~= s.subrange(0, n - k));
        let lo = s.subrange(n - k, n);
        assert(lo.drop_last() =~= t.subrange(t.len() - (k - 1), t.len() as int));
        let h = be_value(s.subrange(0, n - k));
        let p = pow256((k - 1) as nat);
        let l = be_value(lo.drop_last());
        assert((h * p + l) * 256 + s.last() as nat == h * (p * 256) + (l * 256
            + s.last() as nat)) by (nonlinear_arith);
    }
}

proof fn lemma_zero_prefix(s: Seq<u8>)
    requires
        forall|i: int| 0 <= i < s.len() ==> s[i] == 0,
    ensures
        be_value(s) == 0,
    decreases s.len(),
{
    if s.len() > 0 {
        lemma_zero_prefix(s.drop_last());
    }
}

/// Error of a conversion whose value lies outside the target's range.
#[derive(Clone, Copy, Debug, PartialEq, Eq)]
pub enum RangeError {
    OutOfRange { felt: Felt },
}

/// Reads a felt as a `u128`; fails exactly when a byte above the low 16 is
/// non-zero.
pub fn starkfelt_to_u128(felt: Felt) -> (r: Result<u128, RangeError>)
    ensures
        r matches Ok(v) ==> fits_u128(felt) && v as nat == felt_value(felt),
        r matches Err(e) ==> !fits_u128(felt) && e == (RangeError::OutOfRange { felt }),
        r is Ok <==> fits_u128(felt),
{
    let mut i: usize = 0;
    while i < 16
        invariant
            0 <= i <= 16,
            forall|j: int| 0 <= j < i ==> felt.bytes@[j] == 0,
        decreases 16 - i,
    {
        if felt.bytes[i] != 0 {
            return Err(RangeError::OutOfRange { felt });
        }
        i = i + 1;
    }
    let ghost s = felt.bytes@;
    let mut v: u128 = 0;
    while i < 32
        invariant
            16 <= i <= 32,
            s == felt.bytes@,
            s.len() == 32,
            v as nat == be_value(s.subrange(16, i as int)),
        decreases 32 - i,
    {
        proof {
            let sub = s.subrange(16, i as int);
            lemma_be_value_bound(sub);
            reveal_with_fuel(pow256, 16);
            assert(pow256(15) * 256 == u128::MAX as nat + 1);
            lemma_pow256_mono(sub.len(), 15);
            let b = felt.bytes@[i as int];
            let p = pow256(15);
            assert(v * 256 + (b as nat) <= u128::MAX) by (nonlinear_arith)
                requires
                    v < p,
                    p * 256 == u128::MAX as nat + 1,
                    b < 256,
            ;
            let next = s.subrange(16, i as int + 1);
            assert(next.drop_last() =~= sub);
        }
        v = v * 256 + felt.bytes[i] as u128;
        i = i + 1;
    }
    proof {
        lemma_be_value_split(s, 16);
        assert(s.subrange(0, 16) =~= s.subrange(0, s.len() - 16));
        lemma_zero_prefix(s.subrange(0, 16));
        assert(s.subrange(16, 32) =~= s.subrange(s.len() - 16, s.len() as int));
    }
    Ok(v)
}

proof fn lemma_pow256_mono(a: nat, b: nat)
    requires
        a <= b,
    ensures
        pow256(a) <= pow256(b),
    decreases b,
{
    if a < b {
        lemma_pow256_mono(a, (b - 1) as nat);
        assert(pow256((b - 1) as nat) <= pow256((b - 1) as nat) * 256) by (nonlinear_arith);
    }
}

} // verus!
