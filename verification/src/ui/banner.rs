//! The animated splash screen: a tick counter that moves through four
//! phases and then finishes.
use vstd::prelude::*;

verus! {

/// Progress of the splash animation.
pub struct BannerState {
    pub phase: u8,
    pub tick: u32,
    pub done: bool,
}

/// The phase the animation is in at tick `t`, when it is still running.
pub open spec fn spec_phase_at(t: int) -> u8 {
    if t <= 50 {
        0
    } else if t <= 95 {
        1
    } else if t <= 140 {
        2
    } else {
        3
    }
}

/// The splash state after one more tick: the counter advances; through tick
/// 300 the phase follows the counter (0 up to 50, 1 up to 95, 2 up to 140,
/// 3 up to 300), after that the animation is done and the phase stays.
pub open spec fn spec_tick(s: BannerState) -> BannerState {
    let t = s.tick + 1;
    if t <= 300 {
        BannerState { phase: spec_phase_at(t), tick: t as u32, done: s.done }
    } else {
        BannerState { phase: s.phase, tick: t as u32, done: true }
    }
}

/// The state after `n` ticks from `s`.
pub open spec fn spec_ticks(s: BannerState, n: nat) -> BannerState
    decreases n,
{
    if n == 0 {
        s
    } else {
        spec_tick(spec_ticks(s, (n - 1) as nat))
    }
}

impl BannerState {
    /// A splash screen at its first frame.
    pub fn new() -> (s: Self)
        ensures
            s.phase == 0,
            s.tick == 0,
            !s.done,
    {
        Self { phase: 0, tick: 0, done: false }
    }

    /// Advances the animation by one frame.
    pub fn tick(&mut self)
        requires
            old(self).tick < u32::MAX,
        ensures
            *final(self) == spec_tick(*old(self)),
    {
        self.tick = self.tick + 1;
        let t = self.tick;
        if t <= 50 {
            self.phase = 0;
        } else if t <= 95 {
            self.phase = 1;
        } else if t <= 140 {
            self.phase = 2;
        } else if t <= 300 {
            self.phase = 3;
        } else {
            self.done = true;
        }
    }
}

impl Default for BannerState {
    fn default() -> (s: Self)
        ensures
            s.phase == 0,
            s.tick == 0,
            !s.done,
    {
        Self::new()
    }
}

/// From the first frame, after `n` ticks the counter is `n`; the animation
/// is done exactly when more than 300 ticks have passed, and until then the
/// phase is the one of tick `n`.
pub proof fn lemma_banner_run(n: nat)
    requires
        n < u32::MAX,
    ensures
        ({
            let s = spec_ticks(BannerState { phase: 0, tick: 0, done: false }, n);
            &&& s.tick == n
            &&& s.done == (n > 300)
            &&& n <= 300 ==> s.phase == spec_phase_at(n as int)
        }),
    decreases n,
{
    if n > 0 {
        lemma_banner_run((n - 1) as nat);
    }
}

/// The phase never goes back as the animation runs.
pub proof fn lemma_phase_monotone(s: BannerState)
    requires
        s.tick < u32::MAX,
        s.phase == spec_phase_at(s.tick as int) || s.done,
        s.done ==> s.tick >= 300 && s.phase == 3,
    ensures
        spec_tick(s).phase >= s.phase,
{
}

} // verus!
