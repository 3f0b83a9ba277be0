//! Conversion of an averaged acceleration triple to a fall/recovery decision.
//!
//! A triple `(x, y, z)` of averaged milli-g readings has gravitational
//! magnitude `sqrt(x*x + y*y + z*z) / 1000` in units of g.  For a threshold
//! given in milli-g, the comparison `magnitude < threshold_mg / 1000` holds
//! exactly when `x*x + y*y + z*z < threshold_mg * threshold_mg`, because
//! squaring preserves the order of non-negative numbers
//! (`lemma_square_order`).  The classifier therefore works entirely on
//! squared magnitudes in integer arithmetic; no square root and no floating
//! point are needed, and there is no rounding at all.

use vstd::prelude::*;

use crate::state::{BoardState, Transition};

verus! {

/// Default threshold for entering free fall: magnitude below 0.5 g.
pub const ENTER_FALL_MG: u32 = 500;

/// Default threshold for leaving free fall: magnitude above 0.55 g.
pub const EXIT_FALL_MG: u32 = 550;

/// Squared magnitude of a milli-g triple, in milli-g squared.
pub open spec fn sq_mag(x: int, y: int, z: int) -> int {
    x * x + y * y + z * z
}

/// The hysteresis band: the detector enters `Falling` when the magnitude
/// drops below `enter_mg` milli-g and leaves it only when the magnitude
/// rises above `exit_mg` milli-g.  Keeping `enter_mg < exit_mg` leaves a gap
/// between the two comparisons, so a magnitude resting inside the gap can
/// never toggle the mode back and forth.
#[derive(Clone, Copy, Debug, PartialEq, Eq, Structural)]
pub struct FallThresholds {
    pub enter_mg: u32,
    pub exit_mg: u32,
}

impl FallThresholds {
    /// A threshold pair is well formed when the band is non-empty.
    pub open spec fn wf(self) -> bool {
        self.enter_mg < self.exit_mg
    }

    /// The squared enter threshold, in milli-g squared.
    pub open spec fn enter_sq(self) -> int {
        self.enter_mg * self.enter_mg
    }

    /// The squared exit threshold, in milli-g squared.
    pub open spec fn exit_sq(self) -> int {
        self.exit_mg * self.exit_mg
    }

    /// Build a threshold pair, rejecting any pair without a hysteresis band.
    pub fn new(enter_mg: u32, exit_mg: u32) -> (r: Option<FallThresholds>)
        ensures
            r is Some <==> enter_mg < exit_mg,
            r matches Some(t) ==> t.enter_mg == enter_mg && t.exit_mg == exit_mg && t.wf(),
    {
        if enter_mg < exit_mg {
            Some(FallThresholds { enter_mg, exit_mg })
        } else {
            None
        }
    }
}

impl Default for FallThresholds {
    /// The default band of 0.5 g to 0.55 g.
    fn default() -> (t: FallThresholds)
        ensures
            t.enter_mg == ENTER_FALL_MG,
            t.exit_mg == EXIT_FALL_MG,
            t.wf(),
    {
        FallThresholds { enter_mg: ENTER_FALL_MG, exit_mg: EXIT_FALL_MG }
    }
}

/// The signal, if any, that a squared magnitude produces in a given mode:
/// a drop below the enter threshold while `NotFalling` signals `Fell`, a
/// rise above the exit threshold while `Falling` signals `Recovered`, and
/// anything else leaves the mode to hold.
pub open spec fn spec_classify_sq(state: BoardState, sq: int, t: FallThresholds) -> Option<
    Transition,
> {
    if state is NotFalling && sq < t.enter_sq() {
        Some(Transition::Fell)
    } else if state is Falling && sq > t.exit_sq() {
        Some(Transition::Recovered)
    } else {
        None
    }
}

/// The signal, if any, that an averaged milli-g triple produces.
pub open spec fn spec_classify(
    state: BoardState,
    x: int,
    y: int,
    z: int,
    t: FallThresholds,
) -> Option<Transition> {
    spec_classify_sq(state, sq_mag(x, y, z), t)
}

/// The mode after one classification tick on a squared magnitude.
pub open spec fn spec_step_sq(state: BoardState, sq: int, t: FallThresholds) -> BoardState {
    match spec_classify_sq(state, sq, t) {
        Some(signal) => state.after_signal(signal),
        None => state,
    }
}

/// The mode after a whole sequence of classification ticks, one per squared
/// magnitude, in order.
pub open spec fn spec_run_sq(state: BoardState, mags: Seq<int>, t: FallThresholds) -> BoardState
    decreases mags.len(),
{
    if mags.len() == 0 {
        state
    } else {
        spec_run_sq(spec_step_sq(state, mags.first(), t), mags.drop_first(), t)
    }
}

proof fn lemma_i32_square_fits(a: int)
    by (nonlinear_arith)
    requires
        -0x8000_0000 <= a <= 0x7fff_ffff,
    ensures
        0 <= a * a <= 0x4000_0000_0000_0000,
{
}

proof fn lemma_u32_square_fits(a: int)
    by (nonlinear_arith)
    requires
        0 <= a <= 0xffff_ffff,
    ensures
        0 <= a * a <= 0xffff_fffe_0000_0001,
{
}

/// Squaring preserves the order of non-negative numbers.  This is what lets
/// the classifier compare squared magnitudes against squared thresholds:
/// for an averaged triple and a threshold of `t` milli-g,
/// `sqrt(sq) / 1000 < t / 1000` holds exactly when `sq < t * t`.
pub proof fn lemma_square_order(a: int, b: int)
    by (nonlinear_arith)
    requires
        0 <= a,
        0 <= b,
    ensures
        a < b <==> a * a < b * b,
{
}

proof fn lemma_scale_expand(k: int, x: int, y: int, z: int)
    by (nonlinear_arith)
    ensures
        (k * x) * (k * x) + (k * y) * (k * y) + (k * z) * (k * z) == k * k * (x * x + y * y + z
            * z),
{
}

/// Scaling all three axis inputs by a constant `k` scales the squared
/// magnitude by exactly `k * k`, and hence the magnitude itself by `|k|`.
/// Because the scaling is applied before any division or rounding takes
/// place, the relation is exact, with no tolerance.
pub proof fn lemma_sq_mag_scales(k: int, x: int, y: int, z: int)
    ensures
        sq_mag(k * x, k * y, k * z) == k * k * sq_mag(x, y, z),
{
    lemma_scale_expand(k, x, y, z);
}

/// Hysteresis stability: a squared magnitude inside the band, at or above
/// the enter threshold and at or below the exit threshold, produces no
/// signal in either mode, so any sequence of such magnitudes leaves the
/// mode exactly where it started.
pub proof fn lemma_band_holds_state(state: BoardState, mags: Seq<int>, t: FallThresholds)
    requires
        forall|i: int|
            0 <= i < mags.len() ==> t.enter_sq() <= #[trigger] mags[i] <= t.exit_sq(),
    ensures
        spec_run_sq(state, mags, t) == state,
    decreases mags.len(),
{
    if mags.len() > 0 {
        assert(spec_step_sq(state, mags.first(), t) == state);
        assert(forall|i: int|
            0 <= i < mags.drop_first().len() ==> t.enter_sq() <= #[trigger] mags.drop_first()[i]
                <= t.exit_sq());
        lemma_band_holds_state(state, mags.drop_first(), t);
    }
}

/// While the mode is `Falling`, only a squared magnitude strictly above the
/// exit threshold can end it: a sequence that never exceeds the exit
/// threshold keeps the mode `Falling` throughout, however often it dips
/// below or rises back toward the threshold.
pub proof fn lemma_falling_holds_below_exit(mags: Seq<int>, t: FallThresholds)
    requires
        forall|i: int| 0 <= i < mags.len() ==> #[trigger] mags[i] <= t.exit_sq(),
    ensures
        spec_run_sq(BoardState::Falling, mags, t) == BoardState::Falling,
    decreases mags.len(),
{
    if mags.len() > 0 {
        assert(spec_step_sq(BoardState::Falling, mags.first(), t) == BoardState::Falling);
        assert(forall|i: int|
            0 <= i < mags.drop_first().len() ==> #[trigger] mags.drop_first()[i] <= t.exit_sq());
        lemma_falling_holds_below_exit(mags.drop_first(), t);
    }
}

/// While the mode is `NotFalling`, only a squared magnitude strictly below
/// the enter threshold can start a fall: a sequence that never drops below
/// the enter threshold keeps the mode `NotFalling` throughout.
pub proof fn lemma_not_falling_holds_at_enter(mags: Seq<int>, t: FallThresholds)
    requires
        forall|i: int| 0 <= i < mags.len() ==> #[trigger] mags[i] >= t.enter_sq(),
    ensures
        spec_run_sq(BoardState::NotFalling, mags, t) == BoardState::NotFalling,
    decreases mags.len(),
{
    if mags.len() > 0 {
        assert(spec_step_sq(BoardState::NotFalling, mags.first(), t) == BoardState::NotFalling);
        assert(forall|i: int|
            0 <= i < mags.drop_first().len() ==> #[trigger] mags.drop_first()[i] >= t.enter_sq());
        lemma_not_falling_holds_at_enter(mags.drop_first(), t);
    }
}

/// A fall latches: starting `NotFalling`, a sequence of squared magnitudes
/// that never exceeds the exit threshold but drops below the enter
/// threshold at least once ends `Falling`.  The first drop flips the mode
/// exactly once, and nothing later in the sequence can flip it back.
pub proof fn lemma_fall_latches_below_exit(mags: Seq<int>, t: FallThresholds)
    requires
        forall|i: int| 0 <= i < mags.len() ==> #[trigger] mags[i] <= t.exit_sq(),
        exists|i: int| 0 <= i < mags.len() && #[trigger] mags[i] < t.enter_sq(),
    ensures
        spec_run_sq(BoardState::NotFalling, mags, t) == BoardState::Falling,
    decreases mags.len(),
{
    assert(forall|i: int|
        0 <= i < mags.drop_first().len() ==> #[trigger] mags.drop_first()[i] <= t.exit_sq());
    if mags.first() < t.enter_sq() {
        assert(spec_step_sq(BoardState::NotFalling, mags.first(), t) == BoardState::Falling);
        lemma_falling_holds_below_exit(mags.drop_first(), t);
    } else {
        assert(spec_step_sq(BoardState::NotFalling, mags.first(), t) == BoardState::NotFalling);
        let w = choose|i: int| 0 <= i < mags.len() && #[trigger] mags[i] < t.enter_sq();
        assert(w >= 1);
        assert(mags.drop_first()[w - 1] == mags[w]);
        assert(exists|i: int|
            0 <= i < mags.drop_first().len() && #[trigger] mags.drop_first()[i] < t.enter_sq());
        lemma_fall_latches_below_exit(mags.drop_first(), t);
    }
}

/// A recovery latches as well: starting `Falling`, a sequence of squared
/// magnitudes that never drops below the enter threshold but exceeds the
/// exit threshold at least once ends `NotFalling`.
pub proof fn lemma_recovery_latches_at_enter(mags: Seq<int>, t: FallThresholds)
    requires
        forall|i: int| 0 <= i < mags.len() ==> #[trigger] mags[i] >= t.enter_sq(),
        exists|i: int| 0 <= i < mags.len() && #[trigger] mags[i] > t.exit_sq(),
    ensures
        spec_run_sq(BoardState::Falling, mags, t) == BoardState::NotFalling,
    decreases mags.len(),
{
    assert(forall|i: int|
        0 <= i < mags.drop_first().len() ==> #[trigger] mags.drop_first()[i] >= t.enter_sq());
    if mags.first() > t.exit_sq() {
        assert(spec_step_sq(BoardState::Falling, mags.first(), t) == BoardState::NotFalling);
        lemma_not_falling_holds_at_enter(mags.drop_first(), t);
    } else {
        assert(spec_step_sq(BoardState::Falling, mags.first(), t) == BoardState::Falling);
        let w = choose|i: int| 0 <= i < mags.len() && #[trigger] mags[i] > t.exit_sq();
        assert(w >= 1);
        assert(mags.drop_first()[w - 1] == mags[w]);
        assert(exists|i: int|
            0 <= i < mags.drop_first().len() && #[trigger] mags.drop_first()[i] > t.exit_sq());
        lemma_recovery_latches_at_enter(mags.drop_first(), t);
    }
}

/// Decide what signal, if any, an averaged milli-g triple produces in the
/// given mode.  The decision is pure: it reads only its arguments and has no
/// side effects.
pub fn classify(state: BoardState, x: i32, y: i32, z: i32, t: &FallThresholds) -> (signal: Option<
    Transition,
>)
    ensures
        signal == spec_classify(state, x as int, y as int, z as int, *t),
{
    proof {
        lemma_i32_square_fits(x as int);
        lemma_i32_square_fits(y as int);
        lemma_i32_square_fits(z as int);
        lemma_u32_square_fits(t.enter_mg as int);
        lemma_u32_square_fits(t.exit_mg as int);
    }
    let xx: i64 = (x as i64) * (x as i64);
    let yy: i64 = (y as i64) * (y as i64);
    let zz: i64 = (z as i64) * (z as i64);
    let sq: i128 = xx as i128 + yy as i128 + zz as i128;
    match state {
        BoardState::NotFalling => {
            let enter_sq: u64 = (t.enter_mg as u64) * (t.enter_mg as u64);
            if sq < enter_sq as i128 {
                Some(Transition::Fell)
            } else {
                None
            }
        },
        BoardState::Falling => {
            let exit_sq: u64 = (t.exit_mg as u64) * (t.exit_mg as u64);
            if sq > exit_sq as i128 {
                Some(Transition::Recovered)
            } else {
                None
            }
        },
    }
}

} // verus!
