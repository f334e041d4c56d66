//! The "about us" page: two authors at a time, chosen at random, and the
//! next two after a delay.

use vstd::prelude::*;

verus! {

/// How long, in milliseconds, one pair of authors is shown.
pub const CAROUSEL_DELAY_MS: u64 = 15000;

/// `rand::random::<u64>()`: a number drawn from the thread's generator
/// (`thread_rng().gen()`), uniform over all `u64` values. Which number comes
/// is chance, so nothing is said of it; the generator is seeded from the
/// operating system, and the call fails only where the system gives no
/// randomness at all.
#[verifier::external_body]
fn random_seed() -> (seed: u64) {
    rand::random::<u64>()
}

/// Two seeds, drawn at random, for the authors to show.
pub fn random_author_seeds() -> (seeds: Vec<u64>)
    ensures
        seeds@.len() == 2,
{
    let mut seeds: Vec<u64> = Vec::new();
    seeds.push(random_seed());
    seeds.push(random_seed());
    seeds
}

/// What the page reacts to.
pub enum Msg {
    NextAuthors,
}

/// The state of the page: the seeds of the authors shown.
pub struct AboutUs {
    pub seeds: Vec<u64>,
}

impl AboutUs {
    /// The page with two authors chosen at random.
    pub fn new() -> (s: Self)
        ensures
            s.seeds@.len() == 2,
    {
        AboutUs { seeds: random_author_seeds() }
    }

    /// Shows the next two authors, chosen at random; the page is drawn again.
    pub fn update(&mut self, msg: Msg) -> (redraw: bool)
        ensures
            final(self).seeds@.len() == 2,
            redraw,
    {
        match msg {
            Msg::NextAuthors => {
                self.seeds = random_author_seeds();
                true
            },
        }
    }

    /// The page takes no properties; it is never drawn again for them.
    pub fn change(&mut self) -> (redraw: bool)
        ensures
            !redraw,
            *final(self) == *old(self),
    {
        false
    }
}

} // verus!
