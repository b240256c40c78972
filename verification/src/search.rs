//! The search state machine: one round owns a random 4-byte run segment and a
//! nonce counter seeded at random; every dispatch that comes back empty
//! advances the nonce by one, and a non-zero lane result ends the round with a
//! solution. The driver performs the device dispatches and the calibrated
//! sleeps; the decisions live here.

use vstd::prelude::*;
use crate::codec::build_message;

verus! {

/// The number of parallel lanes of one dispatch (tweak this!).
pub const WORK_SIZE: u32 = 0x4000000;

/// One outer iteration of the search: a fixed run segment and the nonce to
/// dispatch next.
pub struct SearchRound {
    pub run_segment: [u8; 4],
    pub nonce: u32,
}

/// The nonce after one empty dispatch: one more, wrapping at the 32-bit
/// boundary.
pub open spec fn spec_advance_nonce(n: u32) -> u32 {
    if n == u32::MAX {
        0
    } else {
        (n + 1) as u32
    }
}

/// The round after one dispatch: an empty result keeps the run segment and
/// advances the nonce; a non-zero lane result leaves the round as it stands,
/// so the solution can be harvested from it.
pub open spec fn spec_step(s: SearchRound, lane_result: u64) -> SearchRound {
    if lane_result == 0 {
        SearchRound { run_segment: s.run_segment, nonce: spec_advance_nonce(s.nonce) }
    } else {
        s
    }
}

/// The round after `k` dispatches that all came back empty.
pub open spec fn spec_zero_steps(s: SearchRound, k: nat) -> SearchRound
    decreases k,
{
    if k == 0 {
        s
    } else {
        spec_step(spec_zero_steps(s, (k - 1) as nat), 0)
    }
}

/// Relies on `rand::random` (`thread_rng().gen()`): a freshly drawn value;
/// nothing is promised of it.
pub assume_specification<T>[ rand::random::<T> ]() -> (r: T)
    where
        rand::distributions::Standard: rand::distributions::Distribution<T>,
;

impl SearchRound {
    /// Start a round from a given run segment and nonce seed.
    pub fn new(run_segment: [u8; 4], nonce_seed: u32) -> (r: Self)
        ensures
            r.run_segment == run_segment,
            r.nonce == nonce_seed,
    {
        SearchRound { run_segment, nonce: nonce_seed }
    }

    /// Start a round from a freshly drawn run segment and nonce seed; the
    /// draws are random, so nothing is known of the values.
    pub fn fresh() -> Self {
        let run_segment: [u8; 4] = rand::random();
        let nonce_seed: u32 = rand::random();
        SearchRound::new(run_segment, nonce_seed)
    }

    /// The 4-byte dispatch message of this round.
    pub fn message(&self) -> (msg: [u8; 4])
        ensures
            msg@ == self.run_segment@,
    {
        build_message(&self.run_segment)
    }

    /// Account one dispatch's lane result: zero advances the nonce and keeps
    /// the run segment for the next dispatch; a non-zero result reports a
    /// solution and leaves the round untouched.
    pub fn handle_result(&mut self, lane_result: u64) -> (found: bool)
        ensures
            found == (lane_result != 0),
            *final(self) == spec_step(*old(self), lane_result),
    {
        if lane_result != 0 {
            true
        } else {
            self.nonce = if self.nonce == u32::MAX {
                0
            } else {
                self.nonce + 1
            };
            false
        }
    }
}

/// The adaptive backoff before polling for results: 98% of the previous
/// dispatch's measured duration in milliseconds, and zero when there is no
/// previous measurement.
pub fn poll_delay_millis(work_duration_millis: u64) -> (d: u64)
    ensures
        d == work_duration_millis * 980 / 1000,
{
    let wide: u128 = (work_duration_millis as u128) * 980 / 1000;
    proof {
        assert((work_duration_millis as int) * 980 / 1000 <= work_duration_millis as int)
            by (nonlinear_arith);
    }
    wide as u64
}

/// While the device keeps returning zero, the run segment and with it the
/// dispatch message never change within the round, and the nonce increases by
/// exactly one per dispatch, as long as it does not wrap.
pub proof fn lemma_zero_results_advance_nonce(s: SearchRound, k: nat)
    requires
        s.nonce + k <= u32::MAX,
    ensures
        spec_zero_steps(s, k).run_segment == s.run_segment,
        spec_zero_steps(s, k).nonce == s.nonce + k,
    decreases k,
{
    if k > 0 {
        lemma_zero_results_advance_nonce(s, (k - 1) as nat);
    }
}

/// A non-zero lane result ends the round without altering it, so the reported
/// solution carries the round's own run segment; the succeeding round is built
/// from the freshly drawn run segment and nonce seed alone, and carries
/// nothing of the prior round.
pub proof fn lemma_found_round_handoff(s: SearchRound, lane_result: u64, seg: [u8; 4], seed: u32)
    requires
        lane_result != 0,
    ensures
        spec_step(s, lane_result) == s,
        (SearchRound { run_segment: seg, nonce: seed }).run_segment == seg,
        (SearchRound { run_segment: seg, nonce: seed }).nonce == seed,
{
}

} // verus!
