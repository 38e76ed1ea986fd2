use vstd::prelude::*;

verus! {

// ---------------------------------------------------------------------------
// Bounds of masked values
// ---------------------------------------------------------------------------

/// A value masked with `m` is at most `m`.
pub broadcast proof fn lemma_and_bound_u32(x: u32, m: u32)
    by (bit_vector)
    ensures
        #[trigger] (x & m) <= m,
{
}

/// A value masked with `m` is at most `m`.
pub broadcast proof fn lemma_and_bound_u16(x: u16, m: u16)
    by (bit_vector)
    ensures
        #[trigger] (x & m) <= m,
{
}

// ---------------------------------------------------------------------------
// Field extraction and sign handling on 32-bit words
// ---------------------------------------------------------------------------

/// The `b` bits of `n` that start at bit `i`.
pub open spec fn spec_get_bits(n: u32, i: u32, b: u32) -> u32 {
    (n >> i) & (((1u32 << b) - 1) as u32)
}

/// Extract the `b`-bit field of `n` that starts at bit `i`.
pub fn get_bits(n: u32, i: u32, b: u32) -> (r: u32)
    requires
        0 < b,
        i + b < 32,
    ensures
        r == spec_get_bits(n, i, b),
{
    proof {
        vstd::bits::lemma_u32_pow2_no_overflow(b as nat);
        vstd::bits::lemma_u32_shl_is_mul(1u32, b);
    }
    (n >> i) & ((1u32 << b) - 1)
}

/// `n` reinterpreted as a signed value whose sign bit is bit `b - 1`.
pub open spec fn spec_sign_extend(n: u32, b: u32) -> i32 {
    if n < (1u32 << ((b - 1) as u32)) {
        n as i32
    } else {
        ((n as i64) - ((1u32 << b) as i64)) as i32
    }
}

/// Reinterpret `n`, a `b`-bit pattern, as a sign-extended signed value.
pub fn sign_extend(n: u32, b: u32) -> (r: i32)
    requires
        0 < b < 32,
        n <= 1u32 << b,
    ensures
        r == spec_sign_extend(n, b),
{
    if n < 1u32 << (b - 1) {
        n as i32
    } else {
        ((n as i64) - ((1u32 << b) as i64)) as i32
    }
}

/// The low `sign` bits of `immediate`'s two's-complement representation.
pub open spec fn spec_sign_shrink(immediate: i32, sign: u32) -> u32 {
    spec_get_bits(immediate as u32, 0, sign)
}

/// Truncate a signed immediate to its low `sign` bits.
pub fn sign_shrink(immediate: i32, sign: u32) -> (r: u32)
    requires
        0 < sign < 32,
    ensures
        r == spec_sign_shrink(immediate, sign),
{
    get_bits(immediate as u32, 0, sign)
}

// ---------------------------------------------------------------------------
// Sign extension within an unsigned carrier, as the decompressor uses it
// ---------------------------------------------------------------------------

/// `n` with bit `b - 1` replicated upward, kept in the unsigned carrier:
/// the 16-bit two's-complement pattern of the signed value `n - 2^b`.
pub open spec fn spec_sign_extend16(n: u16, b: u32) -> u16 {
    if n < (1u16 << ((b - 1) as u16)) {
        n
    } else {
        vstd::wrapping::u16_specs::wrapping_sub(n, 1u16 << (b as u16))
    }
}

/// Sign-extend the `b`-bit pattern `n` within a `u16`.
pub fn sign_extend16(n: u16, b: u32) -> (r: u16)
    requires
        0 < b < 16,
        n <= 1u16 << (b as u16),
    ensures
        r == spec_sign_extend16(n, b),
{
    if n < 1u16 << ((b - 1) as u16) {
        n
    } else {
        n.wrapping_sub(1u16 << (b as u16))
    }
}

/// `n` with bit `b - 1` replicated upward, kept in the unsigned carrier:
/// the 32-bit two's-complement pattern of the signed value `n - 2^b`.
pub open spec fn spec_sign_extend32(n: u32, b: u32) -> u32 {
    if n < (1u32 << ((b - 1) as u32)) {
        n
    } else {
        vstd::wrapping::u32_specs::wrapping_sub(n, 1u32 << b)
    }
}

/// Sign-extend the `b`-bit pattern `n` within a `u32`.
pub fn sign_extend32(n: u32, b: u32) -> (r: u32)
    requires
        0 < b < 32,
        n <= 1u32 << b,
    ensures
        r == spec_sign_extend32(n, b),
{
    if n < 1u32 << (b - 1) {
        n
    } else {
        n.wrapping_sub(1u32 << b)
    }
}

// ---------------------------------------------------------------------------
// Bit permutations over explicit position tables
// ---------------------------------------------------------------------------

/// The first `n` output bits of the 16-bit permutation: output bit `i`
/// is bit `perm[perm.len() - 1 - i]` of `x`.
pub open spec fn spec_permute16_partial(x: u16, perm: Seq<usize>, n: int) -> u16
    decreases n,
{
    if n <= 0 {
        0u16
    } else {
        spec_permute16_partial(x, perm, n - 1) | (
        (((x >> (perm[perm.len() - n] as u16)) & 1) as u16) << ((n - 1) as u16))
    }
}

/// Gather scattered bits of `x`: output bit `i` is bit `perm[len - 1 - i]` of `x`.
pub open spec fn spec_permute16(x: u16, perm: Seq<usize>) -> u16 {
    spec_permute16_partial(x, perm, perm.len() as int)
}

/// Build a packed value from the bits of `x` named by `perm`, for going from
/// a logical immediate to its scrambled representation in an instruction.
pub fn permute16(x: u16, perm: &[usize]) -> (r: u16)
    requires
        perm@.len() <= 16,
        forall|k: int| 0 <= k < perm@.len() ==> perm@[k] < 16,
    ensures
        r == spec_permute16(x, perm@),
{
    let n = perm.len();
    let mut r: u16 = 0;
    for i in 0..n
        invariant
            n == perm@.len() <= 16,
            forall|k: int| 0 <= k < perm@.len() ==> perm@[k] < 16,
            r == spec_permute16_partial(x, perm@, i as int),
    {
        r = r | (((x >> (perm[n - 1 - i] as u16)) & 1) << (i as u16));
    }
    r
}

/// The result of scattering the low `n` bits of `x`: bit `i` of `x` goes
/// to position `perm[perm.len() - 1 - i]` of the output.
pub open spec fn spec_inv_permute16_partial(x: u16, perm: Seq<usize>, n: int) -> u16
    decreases n,
{
    if n <= 0 {
        0u16
    } else {
        spec_inv_permute16_partial(x, perm, n - 1) | (
        (((x >> ((n - 1) as u16)) & 1) as u16) << (perm[perm.len() - n] as u16))
    }
}

/// Scatter the low bits of `x`: bit `i` of `x` goes to position `perm[len - 1 - i]`.
pub open spec fn spec_inv_permute16(x: u16, perm: Seq<usize>) -> u16 {
    spec_inv_permute16_partial(x, perm, perm.len() as int)
}

/// Place the low bits of `x` at the positions named by `perm`, for going from
/// a scrambled immediate in an instruction back to its logical value.
pub fn inv_permute16(x: u16, perm: &[usize]) -> (r: u16)
    requires
        perm@.len() <= 16,
        forall|k: int| 0 <= k < perm@.len() ==> perm@[k] < 16,
    ensures
        r == spec_inv_permute16(x, perm@),
{
    let n = perm.len();
    let mut r: u16 = 0;
    for i in 0..n
        invariant
            n == perm@.len() <= 16,
            forall|k: int| 0 <= k < perm@.len() ==> perm@[k] < 16,
            r == spec_inv_permute16_partial(x, perm@, i as int),
    {
        r = r | (((x >> (i as u16)) & 1) << (perm[n - 1 - i] as u16));
    }
    r
}

/// The first `n` output bits of the 32-bit permutation: output bit `i`
/// is bit `perm[perm.len() - 1 - i]` of `x`.
pub open spec fn spec_permute32_partial(x: u32, perm: Seq<usize>, n: int) -> u32
    decreases n,
{
    if n <= 0 {
        0u32
    } else {
        spec_permute32_partial(x, perm, n - 1) | (
        (((x >> (perm[perm.len() - n] as u32)) & 1) as u32) << ((n - 1) as u32))
    }
}

/// Gather scattered bits of `x`: output bit `i` is bit `perm[len - 1 - i]` of `x`.
pub open spec fn spec_permute32(x: u32, perm: Seq<usize>) -> u32 {
    spec_permute32_partial(x, perm, perm.len() as int)
}

/// Build a packed value from the bits of `x` named by `perm`, for going from
/// a logical immediate to its scrambled representation in an instruction.
pub fn permute32(x: u32, perm: &[usize]) -> (r: u32)
    requires
        perm@.len() <= 32,
        forall|k: int| 0 <= k < perm@.len() ==> perm@[k] < 32,
    ensures
        r == spec_permute32(x, perm@),
{
    let n = perm.len();
    let mut r: u32 = 0;
    for i in 0..n
        invariant
            n == perm@.len() <= 32,
            forall|k: int| 0 <= k < perm@.len() ==> perm@[k] < 32,
            r == spec_permute32_partial(x, perm@, i as int),
    {
        r = r | (((x >> (perm[n - 1 - i] as u32)) & 1) << (i as u32));
    }
    r
}

/// The result of scattering the low `n` bits of `x`: bit `i` of `x` goes
/// to position `perm[perm.len() - 1 - i]` of the output.
pub open spec fn spec_inv_permute32_partial(x: u32, perm: Seq<usize>, n: int) -> u32
    decreases n,
{
    if n <= 0 {
        0u32
    } else {
        spec_inv_permute32_partial(x, perm, n - 1) | (
        (((x >> ((n - 1) as u32)) & 1) as u32) << (perm[perm.len() - n] as u32))
    }
}

/// Scatter the low bits of `x`: bit `i` of `x` goes to position `perm[len - 1 - i]`.
pub open spec fn spec_inv_permute32(x: u32, perm: Seq<usize>) -> u32 {
    spec_inv_permute32_partial(x, perm, perm.len() as int)
}

/// Place the low bits of `x` at the positions named by `perm`, for going from
/// a scrambled immediate in an instruction back to its logical value.
pub fn inv_permute32(x: u32, perm: &[usize]) -> (r: u32)
    requires
        perm@.len() <= 32,
        forall|k: int| 0 <= k < perm@.len() ==> perm@[k] < 32,
    ensures
        r == spec_inv_permute32(x, perm@),
{
    let n = perm.len();
    let mut r: u32 = 0;
    for i in 0..n
        invariant
            n == perm@.len() <= 32,
            forall|k: int| 0 <= k < perm@.len() ==> perm@[k] < 32,
            r == spec_inv_permute32_partial(x, perm@, i as int),
    {
        r = r | (((x >> (i as u32)) & 1) << (perm[n - 1 - i] as u32));
    }
    r
}

// ---------------------------------------------------------------------------
// The permutations invert each other
// ---------------------------------------------------------------------------

/// Bit `j` of `v`, as zero or one.
pub open spec fn bit16(v: u16, j: u16) -> u16 {
    (v >> j) & 1
}

proof fn lemma_or_shift_bit16(a: u16, b: u16, s: u16, j: u16)
    by (bit_vector)
    requires
        b <= 1,
        s < 16,
        j < 16,
    ensures
        bit16(a | (b << s), j) == if j == s {
            bit16(a, j) | b
        } else {
            bit16(a, j)
        },
        bit16(0u16, j) == 0,
        (0u16 | b) == b,
{
}

proof fn lemma_or_shift_value16(a: u16, b: u16, s: u16)
    by (bit_vector)
    requires
        b <= 1,
        s < 16,
        (a as u32) < (1u32 << (s as u32)),
    ensures
        (a | (b << s)) as u32 == a as u32 + (b as u32) * (1u32 << (s as u32)),
        ((a | (b << s)) as u32) < (1u32 << ((s + 1) as u32)),
{
}

proof fn lemma_mod_bit_split16(x: u16, n: u16)
    by (bit_vector)
    requires
        1 <= n <= 16,
    ensures
        (x as u32) % (1u32 << (n as u32)) == (x as u32) % (1u32 << ((n - 1) as u32)) + (bit16(
            x,
            (n - 1) as u16,
        ) as u32) * (1u32 << ((n - 1) as u32)),
        1u32 << ((n - 1) as u32) > 0,
{
}

proof fn lemma_mod_extremes16(x: u16)
    by (bit_vector)
    ensures
        (x as u32) % (1u32 << 0u32) == 0,
        (x as u32) % (1u32 << 16u32) == x as u32,
{
}

proof fn lemma_mod_eq16(a: u16, b: u16, n: int)
    requires
        0 <= n <= 16,
        forall|j: u16| j < n ==> bit16(a, j) == bit16(b, j),
    ensures
        (a as u32) % (1u32 << (n as u32)) == (b as u32) % (1u32 << (n as u32)),
    decreases n,
{
    if n == 0 {
        lemma_mod_extremes16(a);
        lemma_mod_extremes16(b);
    } else {
        lemma_mod_eq16(a, b, n - 1);
        lemma_mod_bit_split16(a, n as u16);
        lemma_mod_bit_split16(b, n as u16);
    }
}

/// Two 16-bit values that agree on each of their bits are equal.
proof fn lemma_bits_eq16(a: u16, b: u16)
    requires
        forall|j: u16| j < 16 ==> bit16(a, j) == bit16(b, j),
    ensures
        a == b,
{
    lemma_mod_eq16(a, b, 16);
    lemma_mod_extremes16(a);
    lemma_mod_extremes16(b);
}

/// Scattering places each low bit of `x` at its named position and leaves
/// every other position clear. Scattering under table entry `k` places bit
/// `perm.len() - 1 - k` of `x` at position `perm[k]`; after `m` scattering
/// steps the entries `perm.len() - m` and above have been applied.
proof fn lemma_inv_permute16_partial_bits(x: u16, perm: Seq<usize>, m: int)
    requires
        perm.len() <= 16,
        forall|k: int| 0 <= k < perm.len() ==> perm[k] < 16,
        forall|k1: int, k2: int| 0 <= k1 < k2 < perm.len() ==> perm[k1] != perm[k2],
        0 <= m <= perm.len(),
    ensures
        forall|k: int| perm.len() - m <= k < perm.len() ==> bit16(
            spec_inv_permute16_partial(x, perm, m),
            #[trigger] perm[k] as u16,
        ) == bit16(x, (perm.len() - 1 - k) as u16),
        forall|j: u16|
            j < 16 && (forall|k: int| perm.len() - m <= k < perm.len() ==> perm[k] != j as usize)
                ==> bit16(spec_inv_permute16_partial(x, perm, m), j) == 0,
    decreases m,
{
    if m == 0 {
        assert forall|j: u16| j < 16 implies bit16(spec_inv_permute16_partial(x, perm, 0), j)
            == 0 by {
            lemma_or_shift_bit16(0, 0, 0, j);
        }
    } else {
        lemma_inv_permute16_partial_bits(x, perm, m - 1);
        let prev = spec_inv_permute16_partial(x, perm, m - 1);
        let cur = spec_inv_permute16_partial(x, perm, m);
        let s = perm[perm.len() - m] as u16;
        let b = (x >> ((m - 1) as u16)) & 1;
        lemma_and_bound_u16(x >> ((m - 1) as u16), 1);
        assert(cur == prev | (b << s));
        assert forall|j: u16| j < 16 implies bit16(cur, j) == (if j == s {
            bit16(prev, j) | b
        } else {
            bit16(prev, j)
        }) by {
            lemma_or_shift_bit16(prev, b, s, j);
        }
        // the newest position carried no bit yet, so it now carries exactly b
        assert(bit16(prev, s) == 0);
        lemma_or_shift_bit16(prev, b, s, s);
        assert(bit16(cur, s) == b);
    }
}

/// Gathering fills the low output bits from the named positions of `x` and
/// leaves the rest clear.
proof fn lemma_permute16_partial_bits(x: u16, perm: Seq<usize>, n: int)
    requires
        perm.len() <= 16,
        forall|k: int| 0 <= k < perm.len() ==> perm[k] < 16,
        0 <= n <= perm.len(),
    ensures
        forall|j: u16| j < n ==> #[trigger] bit16(spec_permute16_partial(x, perm, n), j) == bit16(
            x,
            perm[perm.len() - 1 - j] as u16,
        ),
        forall|j: u16| n <= j < 16 ==> bit16(spec_permute16_partial(x, perm, n), j) == 0,
    decreases n,
{
    if n == 0 {
        assert forall|j: u16| j < 16 implies bit16(spec_permute16_partial(x, perm, 0), j) == 0 by {
            lemma_or_shift_bit16(0, 0, 0, j);
        }
    } else {
        lemma_permute16_partial_bits(x, perm, n - 1);
        let prev = spec_permute16_partial(x, perm, n - 1);
        let cur = spec_permute16_partial(x, perm, n);
        let s = (n - 1) as u16;
        let b = (x >> (perm[perm.len() - n] as u16)) & 1;
        lemma_and_bound_u16(x >> (perm[perm.len() - n] as u16), 1);
        assert(cur == prev | (b << s));
        assert forall|j: u16| j < 16 implies bit16(cur, j) == (if j == s {
            bit16(prev, j) | b
        } else {
            bit16(prev, j)
        }) by {
            lemma_or_shift_bit16(prev, b, s, j);
        }
        assert(bit16(prev, s) == 0);
        lemma_or_shift_bit16(prev, b, s, s);
        assert(bit16(cur, s) == b);
    }
}

/// Gathering the low bits of a value whose bits stand at the named
/// positions reassembles the gathered value.
proof fn lemma_permute16_partial_value(x: u16, y: u16, perm: Seq<usize>, n: int)
    requires
        perm.len() <= 16,
        forall|k: int| 0 <= k < perm.len() ==> perm[k] < 16,
        forall|k: int| 0 <= k < perm.len() ==> bit16(y, #[trigger] perm[k] as u16) == bit16(
            x,
            (perm.len() - 1 - k) as u16,
        ),
        0 <= n <= perm.len(),
    ensures
        (spec_permute16_partial(y, perm, n) as u32) == (x as u32) % (1u32 << (n as u32)),
    decreases n,
{
    if n == 0 {
        lemma_mod_extremes16(x);
    } else {
        lemma_permute16_partial_value(x, y, perm, n - 1);
        lemma_mod_bit_split16(x, n as u16);
        let prev = spec_permute16_partial(y, perm, n - 1);
        let b = (y >> (perm[perm.len() - n] as u16)) & 1;
        lemma_and_bound_u16(y >> (perm[perm.len() - n] as u16), 1);
        assert(b == bit16(x, (n - 1) as u16));
        assert((x as u32) % (1u32 << ((n - 1) as u32)) < (1u32 << ((n - 1) as u32)));
        lemma_or_shift_value16(prev, b, (n - 1) as u16);
    }
}

/// Scattering a value's low bits over distinct positions and gathering them
/// back returns the value: the two permutations invert each other on every
/// value that fits the table.
pub proof fn lemma_permute16_of_inv_permute16(x: u16, perm: Seq<usize>)
    requires
        perm.len() <= 16,
        forall|k: int| 0 <= k < perm.len() ==> perm[k] < 16,
        forall|k1: int, k2: int| 0 <= k1 < k2 < perm.len() ==> perm[k1] != perm[k2],
        (x as u32) < 1u32 << (perm.len() as u32),
    ensures
        spec_permute16(spec_inv_permute16(x, perm), perm) == x,
{
    let y = spec_inv_permute16(x, perm);
    lemma_inv_permute16_partial_bits(x, perm, perm.len() as int);
    lemma_permute16_partial_value(x, y, perm, perm.len() as int);
    vstd::arithmetic::div_mod::lemma_small_mod(
        x as nat,
        (1u32 << (perm.len() as u32)) as nat,
    );
}

/// Gathering the bits of `x` that stand at distinct positions and
/// scattering them back returns `x`, provided every set bit of `x` stands
/// at one of the named positions: a set bit at an unnamed position is lost
/// by the round trip.
pub proof fn lemma_inv_permute16_of_permute16(x: u16, perm: Seq<usize>)
    requires
        perm.len() <= 16,
        forall|k: int| 0 <= k < perm.len() ==> perm[k] < 16,
        forall|k1: int, k2: int| 0 <= k1 < k2 < perm.len() ==> perm[k1] != perm[k2],
        forall|j: u16| j < 16 && bit16(x, j) == 1 ==> exists|k: int|
            0 <= k < perm.len() && perm[k] == j as usize,
    ensures
        spec_inv_permute16(spec_permute16(x, perm), perm) == x,
{
    let y = spec_permute16(x, perm);
    let z = spec_inv_permute16(y, perm);
    let len = perm.len() as int;
    lemma_permute16_partial_bits(x, perm, len);
    lemma_inv_permute16_partial_bits(y, perm, len);
    assert forall|j: u16| j < 16 implies bit16(z, j) == bit16(x, j) by {
        if exists|k: int| 0 <= k < len && perm[k] == j as usize {
            let k = choose|k: int| 0 <= k < len && perm[k] == j as usize;
            assert(bit16(z, perm[k] as u16) == bit16(y, (len - 1 - k) as u16));
            assert(bit16(y, (len - 1 - k) as u16) == bit16(
                x,
                perm[len - 1 - (len - 1 - k)] as u16,
            ));
        } else {
            assert(forall|k: int| 0 <= k < len ==> perm[k] != j as usize);
            assert(bit16(z, j) == 0);
            lemma_and_bound_u16(x >> j, 1);
            if bit16(x, j) == 1 {
                let k = choose|k: int| 0 <= k < perm.len() && perm[k] == j as usize;
                assert(false);
            }
        }
    }
    lemma_bits_eq16(z, x);
}

// ---------------------------------------------------------------------------
// The same inversion laws at the 32-bit width
// ---------------------------------------------------------------------------

/// Bit `j` of `v`, as zero or one.
pub open spec fn bit32(v: u32, j: u32) -> u32 {
    (v >> j) & 1
}

proof fn lemma_or_shift_bit32(a: u32, b: u32, s: u32, j: u32)
    by (bit_vector)
    requires
        b <= 1,
        s < 32,
        j < 32,
    ensures
        bit32(a | (b << s), j) == if j == s {
            bit32(a, j) | b
        } else {
            bit32(a, j)
        },
        bit32(0u32, j) == 0,
        (0u32 | b) == b,
{
}

proof fn lemma_mask_split32(x: u32, n: u32)
    by (bit_vector)
    requires
        1 <= n <= 32,
    ensures
        (x as u64) & (((1u64 << (n as u64)) - 1) as u64) == ((x as u64) & (((1u64 << ((n
            - 1) as u64)) - 1) as u64)) | ((bit32(x, (n - 1) as u32) as u64) << ((n - 1) as u64)),
{
}

proof fn lemma_mask_step32(x: u32, prev: u32, b: u32, n: u32)
    by (bit_vector)
    requires
        1 <= n <= 32,
        b == bit32(x, (n - 1) as u32),
        (prev as u64) == (x as u64) & (((1u64 << ((n - 1) as u64)) - 1) as u64),
    ensures
        ((prev | (b << ((n - 1) as u32))) as u64) == (x as u64) & (((1u64 << (n as u64))
            - 1) as u64),
{
}

proof fn lemma_mask_extremes32(x: u32)
    by (bit_vector)
    ensures
        (x as u64) & (((1u64 << 0u64) - 1) as u64) == 0,
        (x as u64) & (((1u64 << 32u64) - 1) as u64) == x as u64,
{
}

proof fn lemma_mask_small32(x: u32, n: u32)
    by (bit_vector)
    requires
        n <= 32,
        (x as u64) < (1u64 << (n as u64)),
    ensures
        (x as u64) & (((1u64 << (n as u64)) - 1) as u64) == x as u64,
{
}

proof fn lemma_mask_eq32(a: u32, b: u32, n: int)
    requires
        0 <= n <= 32,
        forall|j: u32| j < n ==> bit32(a, j) == bit32(b, j),
    ensures
        (a as u64) & (((1u64 << (n as u64)) - 1) as u64) == (b as u64) & (((1u64 << (n as u64))
            - 1) as u64),
    decreases n,
{
    if n == 0 {
        lemma_mask_extremes32(a);
        lemma_mask_extremes32(b);
    } else {
        lemma_mask_eq32(a, b, n - 1);
        lemma_mask_split32(a, n as u32);
        lemma_mask_split32(b, n as u32);
    }
}

/// Two 32-bit values that agree on each of their bits are equal.
proof fn lemma_bits_eq32(a: u32, b: u32)
    requires
        forall|j: u32| j < 32 ==> bit32(a, j) == bit32(b, j),
    ensures
        a == b,
{
    lemma_mask_eq32(a, b, 32);
    lemma_mask_extremes32(a);
    lemma_mask_extremes32(b);
}

/// Scattering places each low bit of `x` at its named position and leaves
/// every other position clear. Scattering under table entry `k` places bit
/// `perm.len() - 1 - k` of `x` at position `perm[k]`; after `m` scattering
/// steps the entries `perm.len() - m` and above have been applied.
proof fn lemma_inv_permute32_partial_bits(x: u32, perm: Seq<usize>, m: int)
    requires
        perm.len() <= 32,
        forall|k: int| 0 <= k < perm.len() ==> perm[k] < 32,
        forall|k1: int, k2: int| 0 <= k1 < k2 < perm.len() ==> perm[k1] != perm[k2],
        0 <= m <= perm.len(),
    ensures
        forall|k: int| perm.len() - m <= k < perm.len() ==> bit32(
            spec_inv_permute32_partial(x, perm, m),
            #[trigger] perm[k] as u32,
        ) == bit32(x, (perm.len() - 1 - k) as u32),
        forall|j: u32|
            j < 32 && (forall|k: int| perm.len() - m <= k < perm.len() ==> perm[k] != j as usize)
                ==> bit32(spec_inv_permute32_partial(x, perm, m), j) == 0,
    decreases m,
{
    if m == 0 {
        assert forall|j: u32| j < 32 implies bit32(spec_inv_permute32_partial(x, perm, 0), j)
            == 0 by {
            lemma_or_shift_bit32(0, 0, 0, j);
        }
    } else {
        lemma_inv_permute32_partial_bits(x, perm, m - 1);
        let prev = spec_inv_permute32_partial(x, perm, m - 1);
        let cur = spec_inv_permute32_partial(x, perm, m);
        let s = perm[perm.len() - m] as u32;
        let b = (x >> ((m - 1) as u32)) & 1;
        lemma_and_bound_u32(x >> ((m - 1) as u32), 1);
        assert(cur == prev | (b << s));
        assert forall|j: u32| j < 32 implies bit32(cur, j) == (if j == s {
            bit32(prev, j) | b
        } else {
            bit32(prev, j)
        }) by {
            lemma_or_shift_bit32(prev, b, s, j);
        }
        // the newest position carried no bit yet, so it now carries exactly b
        assert(bit32(prev, s) == 0);
        lemma_or_shift_bit32(prev, b, s, s);
        assert(bit32(cur, s) == b);
    }
}

/// Gathering fills the low output bits from the named positions of `x` and
/// leaves the rest clear.
proof fn lemma_permute32_partial_bits(x: u32, perm: Seq<usize>, n: int)
    requires
        perm.len() <= 32,
        forall|k: int| 0 <= k < perm.len() ==> perm[k] < 32,
        0 <= n <= perm.len(),
    ensures
        forall|j: u32| j < n ==> #[trigger] bit32(spec_permute32_partial(x, perm, n), j) == bit32(
            x,
            perm[perm.len() - 1 - j] as u32,
        ),
        forall|j: u32| n <= j < 32 ==> bit32(spec_permute32_partial(x, perm, n), j) == 0,
    decreases n,
{
    if n == 0 {
        assert forall|j: u32| j < 32 implies bit32(spec_permute32_partial(x, perm, 0), j) == 0 by {
            lemma_or_shift_bit32(0, 0, 0, j);
        }
    } else {
        lemma_permute32_partial_bits(x, perm, n - 1);
        let prev = spec_permute32_partial(x, perm, n - 1);
        let cur = spec_permute32_partial(x, perm, n);
        let s = (n - 1) as u32;
        let b = (x >> (perm[perm.len() - n] as u32)) & 1;
        lemma_and_bound_u32(x >> (perm[perm.len() - n] as u32), 1);
        assert(cur == prev | (b << s));
        assert forall|j: u32| j < 32 implies bit32(cur, j) == (if j == s {
            bit32(prev, j) | b
        } else {
            bit32(prev, j)
        }) by {
            lemma_or_shift_bit32(prev, b, s, j);
        }
        assert(bit32(prev, s) == 0);
        lemma_or_shift_bit32(prev, b, s, s);
        assert(bit32(cur, s) == b);
    }
}

/// Gathering the low bits of a value whose bits stand at the named
/// positions reassembles the gathered value.
proof fn lemma_permute32_partial_value(x: u32, y: u32, perm: Seq<usize>, n: int)
    requires
        perm.len() <= 32,
        forall|k: int| 0 <= k < perm.len() ==> perm[k] < 32,
        forall|k: int| 0 <= k < perm.len() ==> bit32(y, #[trigger] perm[k] as u32) == bit32(
            x,
            (perm.len() - 1 - k) as u32,
        ),
        0 <= n <= perm.len(),
    ensures
        (spec_permute32_partial(y, perm, n) as u64) == (x as u64) & (((1u64 << (n as u64))
            - 1) as u64),
    decreases n,
{
    if n == 0 {
        lemma_mask_extremes32(x);
    } else {
        lemma_permute32_partial_value(x, y, perm, n - 1);
        let prev = spec_permute32_partial(y, perm, n - 1);
        let b = (y >> (perm[perm.len() - n] as u32)) & 1;
        lemma_and_bound_u32(y >> (perm[perm.len() - n] as u32), 1);
        assert(b == bit32(x, (n - 1) as u32));
        lemma_mask_step32(x, prev, b, n as u32);
    }
}

/// Scattering a value's low bits over distinct positions and gathering them
/// back returns the value: the two permutations invert each other on every
/// value that fits the table.
pub proof fn lemma_permute32_of_inv_permute32(x: u32, perm: Seq<usize>)
    requires
        perm.len() <= 32,
        forall|k: int| 0 <= k < perm.len() ==> perm[k] < 32,
        forall|k1: int, k2: int| 0 <= k1 < k2 < perm.len() ==> perm[k1] != perm[k2],
        (x as u64) < 1u64 << (perm.len() as u64),
    ensures
        spec_permute32(spec_inv_permute32(x, perm), perm) == x,
{
    let y = spec_inv_permute32(x, perm);
    lemma_inv_permute32_partial_bits(x, perm, perm.len() as int);
    lemma_permute32_partial_value(x, y, perm, perm.len() as int);
    lemma_mask_small32(x, perm.len() as u32);
}

/// Gathering the bits of `x` that stand at distinct positions and
/// scattering them back returns `x`, provided every set bit of `x` stands
/// at one of the named positions: a set bit at an unnamed position is lost
/// by the round trip.
pub proof fn lemma_inv_permute32_of_permute32(x: u32, perm: Seq<usize>)
    requires
        perm.len() <= 32,
        forall|k: int| 0 <= k < perm.len() ==> perm[k] < 32,
        forall|k1: int, k2: int| 0 <= k1 < k2 < perm.len() ==> perm[k1] != perm[k2],
        forall|j: u32| j < 32 && bit32(x, j) == 1 ==> exists|k: int|
            0 <= k < perm.len() && perm[k] == j as usize,
    ensures
        spec_inv_permute32(spec_permute32(x, perm), perm) == x,
{
    let y = spec_permute32(x, perm);
    let z = spec_inv_permute32(y, perm);
    let len = perm.len() as int;
    lemma_permute32_partial_bits(x, perm, len);
    lemma_inv_permute32_partial_bits(y, perm, len);
    assert forall|j: u32| j < 32 implies bit32(z, j) == bit32(x, j) by {
        if exists|k: int| 0 <= k < len && perm[k] == j as usize {
            let k = choose|k: int| 0 <= k < len && perm[k] == j as usize;
            assert(bit32(z, perm[k] as u32) == bit32(y, (len - 1 - k) as u32));
            assert(bit32(y, (len - 1 - k) as u32) == bit32(
                x,
                perm[len - 1 - (len - 1 - k)] as u32,
            ));
        } else {
            assert(forall|k: int| 0 <= k < len ==> perm[k] != j as usize);
            assert(bit32(z, j) == 0);
            lemma_and_bound_u32(x >> j, 1);
            if bit32(x, j) == 1 {
                let k = choose|k: int| 0 <= k < perm.len() && perm[k] == j as usize;
                assert(false);
            }
        }
    }
    lemma_bits_eq32(z, x);
}

} // verus!
