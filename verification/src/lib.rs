//! A fast, non-cryptographic pseudo-random number generator based on the
//! Middle Square Weyl Sequence algorithm.
//!
//! Warning: not cryptographically secure.

mod rng;
mod shared;

pub use rng::byte_at;
pub use rng::draws_for;
pub use rng::fill_bytes;
pub use rng::fresh;
pub use rng::nth_out;
pub use rng::nth_state;
pub use rng::step;
pub use rng::Rng;
pub use rng::RngView;
pub use rng::lemma_draws_keep_seed;
pub use rng::lemma_fill_empty;
pub use rng::lemma_fresh_increment_odd;
pub use rng::lemma_fill_matches_u64;
pub use rng::lemma_seed_determinism;
pub use rng::WEYL_INCREMENT_BASE;
pub use shared::fill;
pub use shared::last_seed;
pub use shared::seed;
pub use shared::seed_consistent;
pub use shared::u64;
pub use shared::SharedRng;
