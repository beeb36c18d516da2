//! Deterministic splitmix64 generators.
//!
//! Every stochastic search in the suite (the evolutionary policy search, the CEM
//! islands and the MPC sampler) draws from splitmix64 so that a run is fully
//! reproducible from its seed. The state is a 64-bit counter advanced by the
//! golden-ratio increment; each output is a bijective mix of the new state.

use vstd::prelude::*;

verus! {

/// The splitmix64 state increment (2^64 divided by the golden ratio, odd).
pub const GOLDEN_GAMMA: u64 = 0x9E37_79B9_7F4A_7C15;

/// First multiplier of the splitmix64 finalizer.
pub const MIX_MUL_1: u64 = 0xBF58_476D_1CE4_E5B9;

/// Second multiplier of the splitmix64 finalizer.
pub const MIX_MUL_2: u64 = 0x94D0_49BB_1331_11EB;

/// `2^64`, the modulus of all state arithmetic.
pub open spec fn modulus() -> nat {
    0x1_0000_0000_0000_0000nat
}

/// Multiplication modulo `2^64`.
pub open spec fn mul_mod(a: u64, b: u64) -> u64 {
    ((a as nat * b as nat) % modulus()) as u64
}

/// The state after one draw: the previous state plus the golden increment, mod `2^64`.
pub open spec fn next_state(s: u64) -> u64 {
    ((s as nat + GOLDEN_GAMMA as nat) % modulus()) as u64
}

/// The splitmix64 finalizer applied to a state.
pub open spec fn mix(s: u64) -> u64 {
    let z1 = mul_mod(s ^ (s >> 30u64), MIX_MUL_1);
    let z2 = mul_mod(z1 ^ (z1 >> 27u64), MIX_MUL_2);
    z2 ^ (z2 >> 31u64)
}

/// The state after `n` draws from seed `s`.
pub open spec fn state_after(s: u64, n: nat) -> u64
    decreases n,
{
    if n == 0 {
        s
    } else {
        next_state(state_after(s, (n - 1) as nat))
    }
}

/// The first `n` outputs of a generator seeded with `s`.
pub open spec fn stream(s: u64, n: nat) -> Seq<u64>
    decreases n,
{
    if n == 0 {
        Seq::empty()
    } else {
        stream(s, (n - 1) as nat).push(mix(state_after(s, n)))
    }
}

/// Counter law: the state after `n` draws from seed `s` is `s + n * GOLDEN_GAMMA`
/// modulo `2^64`, so a run is reproducible from its seed and can be jumped
/// ahead by any number of draws.
pub proof fn lemma_state_is_counter(s: u64, n: nat)
    ensures
        state_after(s, n) == ((s as nat + n * GOLDEN_GAMMA as nat) % modulus()) as u64,
    decreases n,
{
    if n > 0 {
        let p = (n - 1) as nat;
        lemma_state_is_counter(s, p);
        let m = modulus() as int;
        let a = s as int + p * GOLDEN_GAMMA as int;
        vstd::arithmetic::div_mod::lemma_add_mod_noop(a, GOLDEN_GAMMA as int, m);
        vstd::arithmetic::div_mod::lemma_mod_bound(a, m);
        vstd::arithmetic::div_mod::lemma_mod_bound(GOLDEN_GAMMA as int, m);
        vstd::arithmetic::div_mod::lemma_small_mod(GOLDEN_GAMMA as nat, m as nat);
        assert(s as nat + n * GOLDEN_GAMMA as nat == a + GOLDEN_GAMMA as int) by (nonlinear_arith)
            requires
                n == p + 1,
                a == s as int + p * GOLDEN_GAMMA as int,
        ;
    }
}

/// Draw law: drawing `n` times from a generator seeded with `s` yields
/// `stream(s, n)`, the mixes of the states `s + k * GOLDEN_GAMMA` for
/// `k = 1..=n`; the next draw appends the mix of the following state.
pub proof fn lemma_stream_extends(s: u64, n: nat)
    ensures
        stream(s, n).len() == n,
        stream(s, n + 1) == stream(s, n).push(mix(next_state(state_after(s, n)))),
        forall|k: int| 0 <= k < n ==> #[trigger] stream(s, n)[k] == mix(state_after(s, (k + 1) as nat)),
    decreases n,
{
    if n > 0 {
        lemma_stream_extends(s, (n - 1) as nat);
    }
}

/// Multiplicative inverse of [`MIX_MUL_1`] modulo `2^64`.
pub open spec fn mix_mul_1_inv() -> u64 {
    0x96DE_1B17_3F11_9089
}

/// Multiplicative inverse of [`MIX_MUL_2`] modulo `2^64`.
pub open spec fn mix_mul_2_inv() -> u64 {
    0x3196_42B2_D24D_8EC3
}

/// Multiplicative inverse of [`GOLDEN_GAMMA`] modulo `2^64`.
pub open spec fn golden_gamma_inv() -> u64 {
    0xF1DE_83E1_9937_733D
}

/// The inverse of the splitmix64 finalizer.
pub open spec fn unmix(z: u64) -> u64 {
    let z2 = z ^ (z >> 31u64) ^ (z >> 62u64);
    let w2 = mul_mod(z2, mix_mul_2_inv());
    let z1 = w2 ^ (w2 >> 27u64) ^ (w2 >> 54u64);
    let w1 = mul_mod(z1, mix_mul_1_inv());
    w1 ^ (w1 >> 30u64) ^ (w1 >> 60u64)
}

proof fn lemma_unshift_30(x: u64)
    by (bit_vector)
    ensures
        (x ^ (x >> 30u64)) ^ ((x ^ (x >> 30u64)) >> 30u64) ^ ((x ^ (x >> 30u64)) >> 60u64) == x,
{
}

proof fn lemma_unshift_27(x: u64)
    by (bit_vector)
    ensures
        (x ^ (x >> 27u64)) ^ ((x ^ (x >> 27u64)) >> 27u64) ^ ((x ^ (x >> 27u64)) >> 54u64) == x,
{
}

proof fn lemma_unshift_31(x: u64)
    by (bit_vector)
    ensures
        (x ^ (x >> 31u64)) ^ ((x ^ (x >> 31u64)) >> 31u64) ^ ((x ^ (x >> 31u64)) >> 62u64) == x,
{
}

/// `ci` inverts `c` modulo `2^64`, witnessed by `c * ci == 1 + q * 2^64`.
proof fn lemma_inverse(c: u64, ci: u64, q: u64)
    requires
        c as int * ci as int == 1 + q as int * modulus(),
    ensures
        (c as int * ci as int) % (modulus() as int) == 1,
{
    let m = modulus() as int;
    vstd::arithmetic::div_mod::lemma_mod_multiples_vanish(q as int, 1, m);
    vstd::arithmetic::div_mod::lemma_small_mod(1, m as nat);
    vstd::arithmetic::mul::lemma_mul_is_commutative(q as int, m);
}

/// Multiplying by `c` and then by an inverse of `c` modulo `2^64` is the identity.
proof fn lemma_mul_mod_cancel(x: int, c: int, ci: int)
    requires
        0 <= x < modulus(),
        (c * ci) % (modulus() as int) == 1,
    ensures
        ((x * c) % (modulus() as int)) * ci % (modulus() as int) == x,
{
    let m = modulus() as int;
    vstd::arithmetic::div_mod::lemma_mul_mod_noop_left(x * c, ci, m);
    vstd::arithmetic::mul::lemma_mul_is_associative(x, c, ci);
    vstd::arithmetic::div_mod::lemma_mul_mod_noop_right(x, c * ci, m);
    vstd::arithmetic::div_mod::lemma_small_mod(x as nat, m as nat);
}

proof fn lemma_mul_mod_u64_cancel(x: u64, c: u64, ci: u64)
    requires
        (c as int * ci as int) % (modulus() as int) == 1,
    ensures
        mul_mod(mul_mod(x, c), ci) == x,
{
    let m = modulus() as int;
    lemma_mul_mod_cancel(x as int, c as int, ci as int);
    vstd::arithmetic::div_mod::lemma_mod_bound(x as int * c as int, m);
}

/// Bijection law: the finalizer is invertible, so distinct states always give
/// distinct outputs.
pub proof fn lemma_mix_invertible(s: u64)
    ensures
        unmix(mix(s)) == s,
{
    let m = modulus() as int;
    lemma_inverse(MIX_MUL_1, mix_mul_1_inv(), 0x70C3_BCA7_8F27_F46C);
    lemma_inverse(MIX_MUL_2, mix_mul_2_inv(), 0x1CD3_36ED_A85F_1453);
    let a = s ^ (s >> 30u64);
    let z1 = mul_mod(a, MIX_MUL_1);
    let b = z1 ^ (z1 >> 27u64);
    let z2 = mul_mod(b, MIX_MUL_2);
    lemma_unshift_31(z2);
    lemma_mul_mod_u64_cancel(b, MIX_MUL_2, mix_mul_2_inv());
    lemma_unshift_27(z1);
    lemma_mul_mod_u64_cancel(a, MIX_MUL_1, mix_mul_1_inv());
    lemma_unshift_30(s);
}

/// No-repeat law: within `2^64` consecutive draws a generator never produces the
/// same state, nor (by [`lemma_mix_invertible`]) the same output, twice.
pub proof fn lemma_no_repeat_within_period(s: u64, j: nat, k: nat)
    requires
        j < k,
        k - j < modulus(),
    ensures
        state_after(s, j) != state_after(s, k),
        mix(state_after(s, j)) != mix(state_after(s, k)),
{
    let m = modulus() as int;
    let g = GOLDEN_GAMMA as int;
    let gi = golden_gamma_inv() as int;
    lemma_state_is_counter(s, j);
    lemma_state_is_counter(s, k);
    let a = s as int + j * g;
    let b = s as int + k * g;
    if state_after(s, j) == state_after(s, k) {
        vstd::arithmetic::div_mod::lemma_mod_equivalence(b, a, m);
        let d = k - j;
        assert(b - a == d * g) by (nonlinear_arith)
            requires
                a == s as int + j * g,
                b == s as int + k * g,
                d == k - j,
        ;
        lemma_inverse(GOLDEN_GAMMA, golden_gamma_inv(), 0x957B_BF35_006E_D677);
        vstd::arithmetic::div_mod::lemma_mul_mod_noop_left(d * g, gi, m);
        vstd::arithmetic::mul::lemma_mul_is_associative(d, g, gi);
        vstd::arithmetic::div_mod::lemma_mul_mod_noop_right(d, g * gi, m);
        vstd::arithmetic::div_mod::lemma_small_mod(d as nat, m as nat);
        assert(false);
    }
    lemma_mix_invertible(state_after(s, j));
    lemma_mix_invertible(state_after(s, k));
}

/// One splitmix64 step on a raw state: returns the new state and the output.
fn splitmix_step(state: u64) -> (res: (u64, u64))
    ensures
        res.0 == next_state(state),
        res.1 == mix(next_state(state)),
{
    let s = state.wrapping_add(GOLDEN_GAMMA);
    let mut z = s;
    z = (z ^ (z >> 30)).wrapping_mul(MIX_MUL_1);
    z = (z ^ (z >> 27)).wrapping_mul(MIX_MUL_2);
    (s, z ^ (z >> 31))
}

/// The evolutionary search's generator, seeded explicitly (`Rng(seed)`).
pub struct Rng(pub u64);

impl Rng {
    /// Next 64 random bits: advances the state by the golden increment and
    /// returns the mixed state.
    pub fn next_u64(&mut self) -> (r: u64)
        ensures
            final(self).0 == next_state(old(self).0),
            r == mix(final(self).0),
    {
        let (s, out) = splitmix_step(self.0);
        self.0 = s;
        out
    }
}

/// The generator of the CEM islands and of the MPC sampler (`Smix(seed)`); it
/// produces the same stream as [`Rng`] for the same seed.
pub struct Smix(pub u64);

impl Smix {
    /// Next 64 random bits; identical step to [`Rng::next_u64`].
    pub fn u64(&mut self) -> (r: u64)
        ensures
            final(self).0 == next_state(old(self).0),
            r == mix(final(self).0),
    {
        let (s, out) = splitmix_step(self.0);
        self.0 = s;
        out
    }
}

} // verus!
