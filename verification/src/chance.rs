use rand::rngs::ThreadRng;
use rand::seq::SliceRandom;
use rand::Rng;
use vstd::prelude::*;

use crate::card::Card;

verus! {

/// `rand::rngs::ThreadRng`, the handle to the generator that each thread
/// owns. Nothing is known of what it holds.
#[verifier::external_type_specification]
#[verifier::external_body]
pub struct ExThreadRng(rand::rngs::ThreadRng);

/// `rand::thread_rng` hands out the calling thread's generator, which the
/// system seeds on first use. Nothing is claimed of the handle. The call
/// takes no input; it fails only where the system has no entropy to give.
pub assume_specification[ rand::thread_rng ]() -> (rng: rand::rngs::ThreadRng);

/// `Rng::gen_ratio` on the thread's generator: `true` with a chance of
/// `numerator` in `denominator`. Which way a draw falls is left open; only
/// the two certain cases are claimed, as the method documents them: a ratio
/// of one always hits and a ratio of zero never does. The method panics on
/// a zero denominator and on a ratio above one, so both are excluded.
#[verifier::external_body]
pub(crate) fn draw(rng: &mut ThreadRng, numerator: u32, denominator: u32) -> (hit: bool)
    requires
        0 < denominator,
        numerator <= denominator,
    ensures
        numerator == denominator ==> hit,
        numerator == 0 ==> !hit,
{
    rng.gen_ratio(numerator, denominator)
}

/// `SliceRandom::shuffle` on the nine cards: the method only swaps
/// positions, so the same cards come back, each as often as before, in
/// some order. Nothing is claimed of the order.
#[verifier::external_body]
pub(crate) fn shuffle_deck(deck: &mut [Card; 9], rng: &mut ThreadRng)
    ensures
        final(deck)@.to_multiset() == old(deck)@.to_multiset(),
{
    deck.shuffle(rng);
}

} // verus!
