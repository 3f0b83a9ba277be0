//! Windowed accumulation of raw acceleration samples and the detection
//! state they drive.
//!
//! A `BoardAccel` owns the running per-axis sums and the sample count for
//! the current window, together with the board mode and the hysteresis
//! thresholds.  The sums are kept in 64-bit integers, wide enough that a
//! whole window of 32-bit milli-g readings can never overflow them, and the
//! average truncates toward zero, so repeated windows round the same way
//! every time.

use vstd::arithmetic::div_mod::{
    lemma_div_is_ordered,
    lemma_div_multiples_vanish,
    lemma_div_pos_is_pos,
};
use vstd::prelude::*;

use crate::classifier::{classify, spec_classify, spec_step_sq, sq_mag, FallThresholds};
use crate::state::{BoardState, Transition};

verus! {

/// Sum of the first components of a sequence of axis triples.
pub open spec fn sum_x(s: Seq<(i32, i32, i32)>) -> int
    decreases s.len(),
{
    if s.len() == 0 {
        0
    } else {
        sum_x(s.drop_last()) + s.last().0
    }
}

/// Sum of the second components of a sequence of axis triples.
pub open spec fn sum_y(s: Seq<(i32, i32, i32)>) -> int
    decreases s.len(),
{
    if s.len() == 0 {
        0
    } else {
        sum_y(s.drop_last()) + s.last().1
    }
}

/// Sum of the third components of a sequence of axis triples.
pub open spec fn sum_z(s: Seq<(i32, i32, i32)>) -> int
    decreases s.len(),
{
    if s.len() == 0 {
        0
    } else {
        sum_z(s.drop_last()) + s.last().2
    }
}

/// Integer mean truncated toward zero, the rounding that `/` performs on
/// machine integers.
pub open spec fn avg_trunc(sum: int, n: int) -> int
    recommends
        1 <= n,
{
    if sum >= 0 {
        sum / n
    } else {
        -((-sum) / n)
    }
}

proof fn lemma_sum_bounds(s: Seq<(i32, i32, i32)>)
    ensures
        -(s.len() * 0x8000_0000) <= sum_x(s) <= s.len() * 0x7fff_ffff,
        -(s.len() * 0x8000_0000) <= sum_y(s) <= s.len() * 0x7fff_ffff,
        -(s.len() * 0x8000_0000) <= sum_z(s) <= s.len() * 0x7fff_ffff,
    decreases s.len(),
{
    if s.len() > 0 {
        lemma_sum_bounds(s.drop_last());
    }
}

proof fn lemma_sum_push(s: Seq<(i32, i32, i32)>, v: (i32, i32, i32))
    ensures
        sum_x(s.push(v)) == sum_x(s) + v.0,
        sum_y(s.push(v)) == sum_y(s) + v.1,
        sum_z(s.push(v)) == sum_z(s) + v.2,
{
    assert(s.push(v).drop_last() =~= s);
    assert(s.push(v).last() == v);
}

proof fn lemma_avg_in_i32_range(s: int, n: int)
    requires
        1 <= n,
        -(n * 0x8000_0000) <= s <= n * 0x7fff_ffff,
    ensures
        -0x8000_0000 <= avg_trunc(s, n) <= 0x7fff_ffff,
{
    if s >= 0 {
        lemma_div_pos_is_pos(s, n);
        lemma_div_is_ordered(s, n * 0x7fff_ffff, n);
        lemma_div_multiples_vanish(0x7fff_ffff, n);
    } else {
        lemma_div_pos_is_pos(-s, n);
        lemma_div_is_ordered(-s, n * 0x8000_0000, n);
        lemma_div_multiples_vanish(0x8000_0000, n);
    }
}

/// The sampling-and-detection context: per-axis running sums and sample
/// count for the current window, the board mode, and the threshold pair.
///
/// The sums are 64-bit so that even the longest window the count can
/// express, `u32::MAX` samples, each anywhere in the 32-bit milli-g range,
/// stays representable.  The `samples` field is the window's history in
/// ghost form; it exists only for specification and is erased from the
/// compiled code.
pub struct BoardAccel {
    pub x: i64,
    pub y: i64,
    pub z: i64,
    pub sample_size: u32,
    pub state: BoardState,
    pub thresholds: FallThresholds,
    pub samples: Ghost<Seq<(i32, i32, i32)>>,
}

impl BoardAccel {
    /// The accumulator is well formed when the sums and the count agree
    /// with the window history and the threshold band is non-empty.
    pub open spec fn wf(self) -> bool {
        &&& self.thresholds.wf()
        &&& self.sample_size == self.samples@.len()
        &&& self.x == sum_x(self.samples@)
        &&& self.y == sum_y(self.samples@)
        &&& self.z == sum_z(self.samples@)
    }

    /// A fresh accumulator with the default threshold band: empty window,
    /// mode `NotFalling`.
    pub fn new() -> (a: BoardAccel)
        ensures
            a.wf(),
            a.samples@ == Seq::<(i32, i32, i32)>::empty(),
            a.state == BoardState::NotFalling,
            a.thresholds.enter_mg == crate::classifier::ENTER_FALL_MG,
            a.thresholds.exit_mg == crate::classifier::EXIT_FALL_MG,
    {
        Self::with_thresholds(FallThresholds::default())
    }

    /// A fresh accumulator with a caller-chosen threshold band.
    pub fn with_thresholds(thresholds: FallThresholds) -> (a: BoardAccel)
        requires
            thresholds.wf(),
        ensures
            a.wf(),
            a.samples@ == Seq::<(i32, i32, i32)>::empty(),
            a.state == BoardState::NotFalling,
            a.thresholds == thresholds,
    {
        BoardAccel {
            x: 0,
            y: 0,
            z: 0,
            sample_size: 0,
            state: BoardState::new(),
            thresholds,
            samples: Ghost(Seq::empty()),
        }
    }

    /// Fold one sample into the running sums and count it.  The only
    /// visible effect is on later drains: the sample joins the window
    /// history and nothing else changes.
    pub fn add_to_total(&mut self, x: i32, y: i32, z: i32)
        requires
            old(self).wf(),
            old(self).sample_size < u32::MAX,
        ensures
            final(self).wf(),
            final(self).samples@ == old(self).samples@.push((x, y, z)),
            final(self).state == old(self).state,
            final(self).thresholds == old(self).thresholds,
    {
        proof {
            lemma_sum_bounds(self.samples@);
            lemma_sum_push(self.samples@, (x, y, z));
        }
        self.x = self.x + x as i64;
        self.y = self.y + y as i64;
        self.z = self.z + z as i64;
        self.sample_size = self.sample_size + 1;
        self.samples = Ghost(self.samples@.push((x, y, z)));
    }

    /// Fold one sample, given as the tuple the sensor driver hands out.
    pub fn add_tuple_to_total(&mut self, accel_tuple: (i32, i32, i32))
        requires
            old(self).wf(),
            old(self).sample_size < u32::MAX,
        ensures
            final(self).wf(),
            final(self).samples@ == old(self).samples@.push(accel_tuple),
            final(self).state == old(self).state,
            final(self).thresholds == old(self).thresholds,
    {
        let (x, y, z): (i32, i32, i32) = accel_tuple;
        self.add_to_total(x, y, z);
    }

    /// Drain the window: return the truncated mean of exactly the samples
    /// accumulated since the last drain, then reset the sums and the count
    /// to zero.  An empty window is not an error: the drain is on a fixed
    /// cadence whether or not new samples arrived, so it returns the
    /// resting zero triple instead of dividing by the zero count.
    pub fn average_over_sample(&mut self) -> (avg: (i32, i32, i32))
        requires
            old(self).wf(),
        ensures
            final(self).wf(),
            final(self).samples@ == Seq::<(i32, i32, i32)>::empty(),
            final(self).state == old(self).state,
            final(self).thresholds == old(self).thresholds,
            old(self).samples@.len() == 0 ==> avg == (0i32, 0i32, 0i32),
            old(self).samples@.len() > 0 ==> {
                let n = old(self).samples@.len() as int;
                &&& avg.0 == avg_trunc(sum_x(old(self).samples@), n)
                &&& avg.1 == avg_trunc(sum_y(old(self).samples@), n)
                &&& avg.2 == avg_trunc(sum_z(old(self).samples@), n)
            },
    {
        if self.sample_size == 0 {
            // An empty window means the history is the empty sequence; the
            // sums and the count are already zero.
            proof {
                assert(self.samples@ =~= Seq::<(i32, i32, i32)>::empty());
            }
            return (0, 0, 0);
        }
        let n: i64 = self.sample_size as i64;
        proof {
            lemma_sum_bounds(self.samples@);
            lemma_avg_in_i32_range(self.x as int, n as int);
            lemma_avg_in_i32_range(self.y as int, n as int);
            lemma_avg_in_i32_range(self.z as int, n as int);
        }
        let ax: i64 = self.x / n;
        let ay: i64 = self.y / n;
        let az: i64 = self.z / n;
        self.reset();
        (ax as i32, ay as i32, az as i32)
    }

    /// Empty the window: zero the sums and the count, keeping the mode and
    /// the thresholds.
    pub fn reset(&mut self)
        ensures
            final(self).x == 0,
            final(self).y == 0,
            final(self).z == 0,
            final(self).sample_size == 0,
            final(self).samples@ == Seq::<(i32, i32, i32)>::empty(),
            final(self).state == old(self).state,
            final(self).thresholds == old(self).thresholds,
            old(self).thresholds.wf() ==> final(self).wf(),
    {
        self.x = 0;
        self.y = 0;
        self.z = 0;
        self.sample_size = 0;
        self.samples = Ghost(Seq::empty());
    }

    /// Classify an averaged milli-g triple against the current mode and
    /// step the mode accordingly.  The returned signal, if any, is the
    /// transition that took place; the caller performs the actuator work it
    /// asks for.  The window sums are untouched, so a classification tick
    /// can sit anywhere between drains.
    pub fn microbit_is_falling(&mut self, x: i32, y: i32, z: i32) -> (signal: Option<Transition>)
        ensures
            signal == spec_classify(
                old(self).state,
                x as int,
                y as int,
                z as int,
                old(self).thresholds,
            ),
            final(self).state == spec_step_sq(
                old(self).state,
                sq_mag(x as int, y as int, z as int),
                old(self).thresholds,
            ),
            final(self).x == old(self).x,
            final(self).y == old(self).y,
            final(self).z == old(self).z,
            final(self).sample_size == old(self).sample_size,
            final(self).samples@ == old(self).samples@,
            final(self).thresholds == old(self).thresholds,
            old(self).wf() ==> final(self).wf(),
    {
        let signal = classify(self.state, x, y, z, &self.thresholds);
        match signal {
            Some(sig) => {
                self.state = self.state.on_signal(sig);
            },
            None => {},
        }
        signal
    }
}

} // verus!
