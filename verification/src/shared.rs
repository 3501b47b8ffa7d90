//! The shared generator: one `Rng` behind a verified reader-writer lock.
//!
//! Every operation — the metadata read included — takes the exclusive side
//! of the lock, so no two operations interleave: a fill's whole multi-draw
//! loop runs inside one critical section.  Callers hold the instance
//! explicitly and may share it across threads; a process-wide singleton is
//! one `SharedRng` value kept for the life of the process.
//!
//! The lock is a verified primitive and its critical sections are proved
//! panic-free, so the poisoned state of a lock whose holder aborted — fatal
//! by design, never to be recovered silently — cannot arise here at all.

use vstd::prelude::*;
use vstd::rwlock::RwLock;

use crate::rng::draws_for;
use crate::rng::fill_bytes;
use crate::rng::fresh;
use crate::rng::lemma_draws_keep_seed;
use crate::rng::nth_out;
use crate::rng::nth_state;
use crate::rng::Rng;
use crate::rng::RngView;

verus! {

/// A state the shared generator can hold: its Weyl increment is the one
/// derived from its recorded seed, as on every (re)seeding.
pub open spec fn seed_consistent(v: RngView) -> bool {
    v.s == fresh(v.seed).s
}

/// A generator shared under mutual exclusion.  The lock's invariant admits
/// exactly the seed-consistent states, so no operation can ever observe a
/// torn or mismatched seed.
pub struct SharedRng {
    lock: RwLock<Rng, spec_fn(Rng) -> bool>,
}

impl SharedRng {
    #[verifier::type_invariant]
    spec fn wf(&self) -> bool {
        forall|r: Rng| #[trigger] self.lock.inv(r) <==> seed_consistent(r@)
    }

    /// Create a shared generator, seeded from the current time.
    pub fn new() -> (s: SharedRng) {
        let r = Rng::new();
        let ghost pred = |g: Rng| seed_consistent(g@);
        let lock = RwLock::<Rng, spec_fn(Rng) -> bool>::new(r, Ghost(pred));
        proof {
            assert forall|g: Rng| #[trigger] lock.inv(g) <==> seed_consistent(g@) by {
                assert(lock.inv(g) == pred(g));
            }
        }
        SharedRng { lock }
    }
}

/// The seed of the shared generator, read under the lock: the time seed of
/// first construction, or the argument of the latest reseed.
pub fn last_seed(shared: &SharedRng) -> (r: u64)
    ensures
        exists|g: RngView| seed_consistent(g) && r == g.seed,
{
    proof {
        use_type_invariant(shared);
    }
    let (rng, handle) = shared.lock.acquire_write();
    let r = rng.current_seed();
    handle.release_write(rng);
    r
}

/// Reseed the shared generator under the lock, exactly as if it had been
/// freshly constructed with `seed`; all prior sequence position is lost.
pub fn seed(shared: &SharedRng, seed: u64) {
    proof {
        use_type_invariant(shared);
    }
    let (mut rng, handle) = shared.lock.acquire_write();
    rng.seed(seed);
    handle.release_write(rng);
}

/// Draw one u64 from the shared generator: one step of the transition
/// function from whatever seed-consistent state held the lock.
pub fn u64(shared: &SharedRng) -> (r: u64)
    ensures
        exists|g: RngView| seed_consistent(g) && r == nth_out(g, 0),
{
    proof {
        use_type_invariant(shared);
    }
    let (mut rng, handle) = shared.lock.acquire_write();
    let ghost g0 = rng@;
    let r = rng.u64();
    proof {
        assert(nth_state(g0, 1) == crate::rng::step(nth_state(g0, 0)));
        assert(r == nth_out(g0, 0));
    }
    handle.release_write(rng);
    r
}

/// Fill `bytes` from the shared generator, the whole buffer within one
/// critical section: its content is the byte stream of one seed-consistent
/// state, never interleaved with another caller's draws.
pub fn fill(shared: &SharedRng, bytes: &mut Vec<u8>)
    ensures
        final(bytes)@.len() == old(bytes)@.len(),
        exists|g: RngView|
            seed_consistent(g) && final(bytes)@ == fill_bytes(g, old(bytes)@.len()),
{
    proof {
        use_type_invariant(shared);
    }
    let (mut rng, handle) = shared.lock.acquire_write();
    let ghost g0 = rng@;
    rng.fill(bytes);
    proof {
        lemma_draws_keep_seed(g0, draws_for(old(bytes)@.len()));
    }
    handle.release_write(rng);
}

} // verus!
