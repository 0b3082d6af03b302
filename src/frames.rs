//! The two cyclic frame counters that drive the animation.
//!
//! The angle counter walks through whole degrees `0..360`; the size counter
//! walks through `0..240` steps and is read as an offset `step - 120`, which
//! the renderer turns into a scale of `offset * 0.3 / 240 + 0.4`. Both restart
//! at their boundary forever.
use vstd::prelude::*;

verus! {

/// Steps in one turn of the angle counter (one step per degree).
pub const ANGLE_STEPS: u16 = 360;

/// Steps in one period of the size counter.
pub const SIZE_STEPS: u16 = 240;

/// Half of `SIZE_STEPS`: the size offset runs over `-SIZE_CENTER..SIZE_CENTER`.
pub const SIZE_CENTER: i32 = 120;

/// The renderer's scale is `size_offset / SIZE_DENOMINATOR + 0.4`, that is
/// `(size_offset + SIZE_BASE) / SIZE_DENOMINATOR`.
pub const SIZE_DENOMINATOR: i32 = 800;

/// `0.4 * SIZE_DENOMINATOR`.
pub const SIZE_BASE: i32 = 320;

/// What one frame reads from the counters.
#[derive(Clone, Copy, Debug, PartialEq, Eq, Structural)]
pub struct FrameValues {
    /// The angle in whole degrees, in `0..360`.
    pub degrees: u16,
    /// The size offset, in `-120..120`.
    pub size_offset: i32,
}

/// The state of both counters between two frames.
#[derive(Clone, Copy, Debug, PartialEq, Eq, Structural)]
pub struct FrameCounters {
    pub angle_step: u16,
    pub size_step: u16,
}

/// The counters' state after `i` frames, stated directly.
pub open spec fn counters_at(i: nat) -> FrameCounters {
    FrameCounters { angle_step: (i % 360) as u16, size_step: (i % 240) as u16 }
}

/// The values read at frame `i`.
pub open spec fn values_at(i: nat) -> FrameValues {
    FrameValues { degrees: (i % 360) as u16, size_offset: ((i % 240) - 120) as i32 }
}

/// One advance of both counters, each wrapping at its boundary.
pub open spec fn step(c: FrameCounters) -> FrameCounters {
    FrameCounters {
        angle_step: if c.angle_step + 1 == 360 { 0 } else { (c.angle_step + 1) as u16 },
        size_step: if c.size_step + 1 == 240 { 0 } else { (c.size_step + 1) as u16 },
    }
}

/// The counters after `i` advances from the start, by repeated steps.
pub open spec fn ticked(i: nat) -> FrameCounters
    decreases i,
{
    if i == 0 {
        FrameCounters { angle_step: 0, size_step: 0 }
    } else {
        step(ticked((i - 1) as nat))
    }
}

/// The size offset as the renderer's scale, in units of `1 / SIZE_DENOMINATOR`.
pub open spec fn scale_numerator(v: FrameValues) -> int {
    v.size_offset + SIZE_BASE
}

impl FrameCounters {
    pub open spec fn wf(&self) -> bool {
        self.angle_step < 360 && self.size_step < 240
    }

    /// Both counters at their first step.
    pub fn new() -> (r: FrameCounters)
        ensures
            r == ticked(0),
            r.wf(),
    {
        FrameCounters { angle_step: 0, size_step: 0 }
    }

    /// The values of the current frame, without advancing.
    pub fn current(&self) -> (r: FrameValues)
        requires
            self.wf(),
        ensures
            r.degrees == self.angle_step,
            r.size_offset == self.size_step - 120,
    {
        FrameValues { degrees: self.angle_step, size_offset: self.size_step as i32 - SIZE_CENTER }
    }

    /// Reads the current frame's values and advances both counters.
    pub fn tick(&mut self) -> (r: FrameValues)
        requires
            old(self).wf(),
        ensures
            final(self).wf(),
            *final(self) == step(*old(self)),
            r.degrees == old(self).angle_step,
            r.size_offset == old(self).size_step - 120,
    {
        let r = self.current();
        self.angle_step = if self.angle_step + 1 == ANGLE_STEPS { 0 } else { self.angle_step + 1 };
        self.size_step = if self.size_step + 1 == SIZE_STEPS { 0 } else { self.size_step + 1 };
        r
    }
}

/// The values of frame `i`, counted from the start.
pub fn frame_values(i: u64) -> (r: FrameValues)
    ensures
        r == values_at(i as nat),
{
    let degrees = (i % 360) as u16;
    let size_offset = (i % 240) as i32 - SIZE_CENTER;
    FrameValues { degrees, size_offset }
}

/// Stepping the counters `i` times from the start leaves them at `i mod 360`
/// and `i mod 240`.
pub proof fn lemma_ticked(i: nat)
    ensures
        ticked(i) == counters_at(i),
        ticked(i).wf(),
    decreases i,
{
    if i > 0 {
        let p = (i - 1) as nat;
        lemma_ticked(p);
        lemma_mod_succ(p, 360);
        lemma_mod_succ(p, 240);
    }
}

proof fn lemma_mod_succ(p: nat, m: nat)
    requires
        m > 0,
    ensures
        (p + 1) % m == if p % m + 1 == m { 0 } else { p % m + 1 },
{
    let q = (p / m) as int;
    let r = (p % m) as int;
    vstd::arithmetic::div_mod::lemma_fundamental_div_mod(p as int, m as int);
    if r + 1 == m {
        assert(p + 1 == (q + 1) * m + 0) by (nonlinear_arith)
            requires p == m * q + r, r + 1 == m;
        vstd::arithmetic::div_mod::lemma_fundamental_div_mod_converse((p + 1) as int, m as int, q + 1, 0);
    } else {
        assert(p + 1 == q * m + (r + 1)) by (nonlinear_arith)
            requires p == m * q + r;
        vstd::arithmetic::div_mod::lemma_fundamental_div_mod_converse((p + 1) as int, m as int, q, r + 1);
    }
}

/// At every frame `i` the counters read the angle `i mod 360` in whole degrees,
/// which lies in `0..360` (so `degrees * pi / 180` lies in `[0, 2 pi)`), and the
/// angle repeats every 360 frames.
pub proof fn lemma_angle_cycle(i: nat)
    ensures
        values_at(i).degrees == i % 360,
        0 <= values_at(i).degrees < 360,
        values_at(i + 360).degrees == values_at(i).degrees,
{
    assert((i + 360) % 360 == i % 360) by (nonlinear_arith);
}

/// At every frame `i` the size offset is `(i mod 240) - 120`, lies in
/// `-120..120`, repeats every 240 frames, and the scale it stands for,
/// `(offset + 320) / 800`, lies in `[0.25, 0.55)`.
pub proof fn lemma_size_cycle(i: nat)
    ensures
        values_at(i).size_offset == (i % 240) - 120,
        -120 <= values_at(i).size_offset < 120,
        values_at(i + 240).size_offset == values_at(i).size_offset,
        200 <= scale_numerator(values_at(i)) < 440,
{
    assert((i + 240) % 240 == i % 240) by (nonlinear_arith);
}

/// Reading frame `i` from counters stepped `i` times gives the values of frame `i`.
pub proof fn lemma_tick_reads_frame(i: nat)
    ensures
        ticked(i).wf(),
        ticked(i).angle_step == values_at(i).degrees,
        ticked(i).size_step - 120 == values_at(i).size_offset,
{
    lemma_ticked(i);
}

} // verus!
