//! The Middle Square Weyl Sequence generator and its mathematical model.
//!
//! The generator keeps three state words: `x`, the squared-and-mixed
//! accumulator; `w`, the Weyl sequence accumulator; and `s`, the Weyl
//! increment derived from the seed at construction.  The original seed is
//! retained verbatim for introspection.  All state arithmetic is wrapping
//! (mod 2^64).

use vstd::prelude::*;

verus! {

/// Base constant added to the doubled seed to form the Weyl increment `s`.
/// The constant is odd, so `s` is always odd, which gives the Weyl
/// sequence `w += s` its full period of 2^64.
pub const WEYL_INCREMENT_BASE: u64 = 0xb5ad4eceda1ce2a9;

/// Mathematical model of a generator: its four state words as plain values.
pub struct RngView {
    pub x: u64,
    pub w: u64,
    pub s: u64,
    pub seed: u64,
}

/// The state of a generator freshly seeded with `seed`: the accumulators
/// start at zero and the Weyl increment is the doubled seed plus the odd
/// base constant, both computed mod 2^64.
pub open spec fn fresh(seed: u64) -> RngView {
    RngView { x: 0, w: 0, s: (seed << 1).wrapping_add(WEYL_INCREMENT_BASE), seed }
}

/// One draw of the generator: advance the Weyl accumulator, square and add,
/// then rotate by 32 bits.  `s` and `seed` never change.
pub open spec fn step(g: RngView) -> RngView {
    let w2 = g.w.wrapping_add(g.s);
    let t = g.x.wrapping_mul(g.x).wrapping_add(w2);
    RngView { x: (t >> 32) | (t << 32), w: w2, s: g.s, seed: g.seed }
}

/// The state after `n` draws from state `g`.
pub open spec fn nth_state(g: RngView, n: nat) -> RngView
    decreases n,
{
    if n == 0 {
        g
    } else {
        step(nth_state(g, (n - 1) as nat))
    }
}

/// The value of draw number `n` (counting from 0) taken from state `g`.
pub open spec fn nth_out(g: RngView, n: nat) -> u64 {
    nth_state(g, n + 1).x
}

/// Middle Square Weyl Sequence PRNG.
/// In other words it generates random numbers.
pub struct Rng {
    x: u64,
    w: u64,
    s: u64,
    seed: u64, // original seed
}

impl View for Rng {
    type V = RngView;

    closed spec fn view(&self) -> RngView {
        RngView { x: self.x, w: self.w, s: self.s, seed: self.seed }
    }
}

/// Relies on `std::time::SystemTime::now`: nanoseconds since the Unix epoch,
/// truncated to 64 bits.  The value depends on the clock, so nothing is
/// promised of it.  A clock reading before the epoch is fatal, there being
/// no other entropy source.
#[verifier::external_body]
fn now_nanos() -> u64 {
    std::time::SystemTime::now()
        .duration_since(std::time::UNIX_EPOCH)
        .unwrap()
        .as_nanos() as u64
}

impl Rng {
    /// Construct a generator seeded from the current time.
    pub fn new() -> (r: Self)
        ensures
            r@ == fresh(r@.seed),
    {
        Self::new_seed(now_nanos())
    }

    /// Construct a generator with an explicit seed.  Every u64 is a valid
    /// seed, including 0.
    pub fn new_seed(seed: u64) -> (r: Self)
        ensures
            r@ == fresh(seed),
    {
        Self { x: 0, w: 0, s: (seed << 1).wrapping_add(WEYL_INCREMENT_BASE), seed }
    }

    /// Reseed the generator: the entire state is replaced, exactly as if the
    /// generator had been freshly constructed with `seed`.
    pub fn seed(&mut self, seed: u64)
        ensures
            final(self)@ == fresh(seed),
    {
        *self = Self::new_seed(seed);
    }

    /// The seed the generator was last (re)seeded with.
    pub(crate) fn current_seed(&self) -> (r: u64)
        ensures
            r == self@.seed,
    {
        self.seed
    }

    /// Generate a random u64: one draw of the state-transition function.
    pub fn u64(&mut self) -> (r: u64)
        ensures
            final(self)@ == step(old(self)@),
            r == final(self)@.x,
    {
        self.w = self.w.wrapping_add(self.s);
        let t: u64 = self.x.wrapping_mul(self.x).wrapping_add(self.w);
        self.x = (t >> 32) | (t << 32);
        self.x
    }

    /// Fill `bytes` with the generator's output stream: one u64 draw per
    /// eight bytes, emitted least-significant byte first.  A final partial
    /// group of fewer than eight bytes still consumes a whole draw and
    /// discards its unused high-order bytes.  An empty buffer is a no-op.
    pub fn fill(&mut self, bytes: &mut Vec<u8>)
        ensures
            final(bytes)@.len() == old(bytes)@.len(),
            final(bytes)@ == fill_bytes(old(self)@, old(bytes)@.len()),
            final(self)@ == nth_state(old(self)@, draws_for(old(bytes)@.len())),
    {
        let n = bytes.len();
        let mut i: usize = 0;
        let mut rval: u64 = 0;
        while i < n
            invariant
                n == old(bytes)@.len(),
                bytes@.len() == n,
                i <= n,
                self@ == nth_state(old(self)@, ((i + 7) / 8) as nat),
                i % 8 != 0 ==> rval == nth_out(old(self)@, (i / 8) as nat) >> ((8 * ((i % 8) as u64))
                    as u64),
                forall|j: int|
                    0 <= j < i ==> bytes@[j] == byte_at(
                        nth_out(old(self)@, (j / 8) as nat),
                        (j % 8) as u64,
                    ),
            decreases n - i,
        {
            if i % 8 == 0 {
                proof {
                    assert((i + 7) / 8 == i / 8);
                }
                rval = self.u64();
                proof {
                    assert(self@ == nth_state(old(self)@, (i / 8 + 1) as nat));
                    lemma_shift_zero(rval);
                }
            }
            proof {
                assert(rval == nth_out(old(self)@, (i / 8) as nat) >> ((8 * ((i % 8) as u64))
                    as u64));
                lemma_low_byte_fits(rval);
            }
            let b: u8 = (rval & 0xff) as u8;
            bytes.set(i, b);
            proof {
                assert(b == byte_at(nth_out(old(self)@, (i / 8) as nat), (i % 8) as u64));
            }
            rval = rval >> 8;
            proof {
                if (i + 1) % 8 != 0 {
                    assert(i % 8 < 7);
                    lemma_shift_step(nth_out(old(self)@, (i / 8) as nat), (i % 8) as u64);
                    assert((i + 1) / 8 == i / 8);
                    assert(rval == nth_out(old(self)@, ((i + 1) / 8) as nat) >> ((8 * (((i + 1) % 8)
                        as u64)) as u64));
                } else {
                    assert((i + 1 + 7) / 8 == (i + 7) / 8);
                }
            }
            i = i + 1;
        }
        proof {
            assert(bytes@ =~= fill_bytes(old(self)@, old(bytes)@.len()));
        }
    }
}

/// The Weyl increment is always odd: the doubled seed is even and the base
/// constant is odd, and reduction mod 2^64 keeps parity.  An odd increment
/// gives the Weyl sequence `w += s` its full period of 2^64.
pub proof fn lemma_fresh_increment_odd(seed: u64)
    ensures
        fresh(seed).s % 2 == 1,
{
    assert((seed << 1) % 2 == 0) by (bit_vector);
}

/// Determinism from the seed: two generators seeded alike stand in the same
/// state after any number of draws, produce the same draw values, and fill
/// the same bytes.
pub proof fn lemma_seed_determinism(a: RngView, b: RngView, n: nat)
    requires
        a == fresh(a.seed),
        b == fresh(b.seed),
        a.seed == b.seed,
    ensures
        nth_state(a, n) == nth_state(b, n),
        nth_out(a, n) == nth_out(b, n),
        fill_bytes(a, n) == fill_bytes(b, n),
{
}

/// A fill agrees with the draws: byte `j` of an eight-byte fill is byte
/// `j` of the first draw, little-endian, and that fill consumes exactly
/// the one draw.
pub proof fn lemma_fill_matches_u64(g: RngView)
    ensures
        fill_bytes(g, 8).len() == 8,
        forall|j: int|
            0 <= j < 8 ==> fill_bytes(g, 8)[j] == byte_at(nth_out(g, 0), j as u64),
        draws_for(8) == 1,
{
    assert forall|j: int|
        0 <= j < 8 implies fill_bytes(g, 8)[j] == byte_at(nth_out(g, 0), j as u64) by {
        assert(j / 8 == 0 && j % 8 == j);
    }
}

/// An empty fill is a no-op: it emits nothing and consumes no draw, so the
/// generator replays afterwards exactly as if the call had not happened.
pub proof fn lemma_fill_empty(g: RngView)
    ensures
        fill_bytes(g, 0) == Seq::<u8>::empty(),
        draws_for(0) == 0,
        nth_state(g, draws_for(0)) == g,
{
    assert(fill_bytes(g, 0) =~= Seq::<u8>::empty());
}

/// Drawing any number of times changes only the accumulators: the Weyl
/// increment and the recorded seed survive every draw.
pub proof fn lemma_draws_keep_seed(g: RngView, n: nat)
    ensures
        nth_state(g, n).s == g.s,
        nth_state(g, n).seed == g.seed,
    decreases n,
{
    if n > 0 {
        lemma_draws_keep_seed(g, (n - 1) as nat);
    }
}

/// Shifting a word right by one more byte: the running remainder `d >> 8k`
/// shifted right by eight more bits is `d >> 8(k+1)`.
proof fn lemma_shift_step(d: u64, k: u64)
    by (bit_vector)
    requires
        k < 7,
    ensures
        (d >> ((8 * k) as u64)) >> 8 == d >> ((8 * (k + 1)) as u64),
{
}

/// A zero-byte shift leaves the word unchanged.
proof fn lemma_shift_zero(d: u64)
    by (bit_vector)
    ensures
        d >> ((8 * 0) as u64) == d,
{
}

/// The low byte of a word fits in a u8.
proof fn lemma_low_byte_fits(d: u64)
    by (bit_vector)
    ensures
        d & 0xff < 256,
{
}

/// Byte number `k` (counting from the least significant end) of the word `v`.
pub open spec fn byte_at(v: u64, k: u64) -> u8 {
    ((v >> ((8 * k) as u64)) & 0xff) as u8
}

/// The first `n` bytes of the generator's byte stream from state `g`:
/// each draw is emitted least-significant byte first, eight bytes per draw.
pub open spec fn fill_bytes(g: RngView, n: nat) -> Seq<u8> {
    Seq::new(n, |i: int| byte_at(nth_out(g, (i / 8) as nat), (i % 8) as u64))
}

/// The number of draws a fill of `n` bytes consumes: one per eight bytes,
/// the last possibly partial; none at all for an empty buffer.
pub open spec fn draws_for(n: nat) -> nat {
    (n + 7) / 8
}

} // verus!
