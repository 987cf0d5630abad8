//! A minimal model of the PPU's mode sequence with fixed mode lengths.
use vstd::prelude::*;

verus! {

pub const DOTS_PER_SCANLINE: usize = 456;

#[derive(Debug, Copy, Clone, PartialEq, Eq, Structural)]
pub enum Mode {
    OamScan,
    Drawing,
    HBlank,
    VBlank,
}

pub struct StatMachine {
    mode: Mode,
    ticks_remaining: usize,
    line_number: usize,
}

/// (mode, ticks remaining, line number)
pub type StatState = (Mode, usize, usize);

/// One dot of the mode sequence: when the current mode has run out, move to
/// the next (OAM scan 80 dots, drawing 172, HBlank 204, and after line 143 a
/// VBlank of ten lines), then count the dot.
pub open spec fn stat_next(s: StatState) -> StatState {
    let (mode, remaining, line) = s;
    let (mode1, remaining1, line1) = if remaining == 0 {
        match mode {
            Mode::OamScan => (Mode::Drawing, 172usize, line),
            Mode::Drawing => (Mode::HBlank, 204usize, line),
            Mode::HBlank => if line == 143 {
                (Mode::VBlank, (DOTS_PER_SCANLINE * 10) as usize, 0usize)
            } else {
                (Mode::OamScan, 80usize, (line + 1) as usize)
            },
            Mode::VBlank => (Mode::OamScan, 80usize, line),
        }
    } else {
        (mode, remaining, line)
    };
    (mode1, (remaining1 - 1) as usize, line1)
}

/// `n` dots of the mode sequence.
pub open spec fn stat_iter(s: StatState, n: nat) -> StatState
    decreases n,
{
    if n == 0 { s } else { stat_iter(stat_next(s), (n - 1) as nat) }
}

impl StatMachine {
    pub closed spec fn state(self) -> StatState {
        (self.mode, self.ticks_remaining, self.line_number)
    }

    pub closed spec fn wf(self) -> bool {
        self.line_number <= 143
    }

    pub fn tick(&mut self)
        requires
            old(self).wf(),
        ensures
            final(self).wf(),
            final(self).state() == stat_next(old(self).state()),
    {
        if self.ticks_remaining == 0 {
            match self.mode {
                Mode::OamScan => {
                    self.mode = Mode::Drawing;
                    self.ticks_remaining = 172;  // Variable
                },
                Mode::Drawing => {
                    self.mode = Mode::HBlank;
                    self.ticks_remaining = 204;  // Variable
                },
                Mode::HBlank => {
                    if self.line_number == 143 {
                        self.mode = Mode::VBlank;
                        self.ticks_remaining = DOTS_PER_SCANLINE * 10;
                        self.line_number = 0;
                    } else {
                        self.mode = Mode::OamScan;
                        self.ticks_remaining = 80;
                        self.line_number += 1;
                    }
                },
                Mode::VBlank => {
                    self.mode = Mode::OamScan;
                    self.ticks_remaining = 80;
                },
            }
        }
        self.ticks_remaining -= 1;
    }

    pub fn mode(&self) -> (r: Mode)
        ensures
            r == self.state().0,
    {
        self.mode
    }
}

impl Default for StatMachine {
    fn default() -> (r: Self)
        ensures
            r.wf(),
            r.state() == (Mode::VBlank, 4usize, 0usize),
    {
        StatMachine { mode: Mode::VBlank, ticks_remaining: 4, line_number: 0 }
    }
}

/// Dots with time left in the current mode only count it down.
proof fn lemma_countdown(mode: Mode, remaining: usize, line: usize, k: nat)
    requires
        k <= remaining,
    ensures
        stat_iter((mode, remaining, line), k) == (mode, (remaining - k) as usize, line),
    decreases k,
{
    if k > 0 {
        assert(stat_next((mode, remaining, line)) == (mode, (remaining - 1) as usize, line));
        lemma_countdown(mode, (remaining - 1) as usize, line, (k - 1) as nat);
    }
}

/// One dot of `stat_iter` is one `stat_next`.
proof fn lemma_iter_one(s: StatState)
    ensures
        stat_iter(s, 1) == stat_next(s),
{
    assert(stat_iter(stat_next(s), 0) == stat_next(s));
}

/// Running `a` dots then `b` dots is running `a + b` dots.
proof fn lemma_iter_add(s: StatState, a: nat, b: nat)
    ensures
        stat_iter(stat_iter(s, a), b) == stat_iter(s, a + b),
    decreases a,
{
    if a > 0 {
        lemma_iter_add(stat_next(s), (a - 1) as nat, b);
        assert((a + b - 1) as nat == (a - 1) as nat + b);
    }
}

/// A visible scanline lasts 456 dots: from the first dot of line `line`'s
/// OAM scan, 456 dots later the OAM scan of the next line begins.
pub proof fn lemma_visible_line_length(line: usize)
    requires
        line < 143,
    ensures
        stat_iter((Mode::OamScan, 79usize, line), DOTS_PER_SCANLINE as nat) == (
            Mode::OamScan,
            79usize,
            (line + 1) as usize,
        ),
{
    let s0 = (Mode::OamScan, 79usize, line);
    lemma_countdown(Mode::OamScan, 79, line, 79);
    let s1 = stat_next((Mode::OamScan, 0usize, line));
    assert(s1 == (Mode::Drawing, 171usize, line));
    lemma_countdown(Mode::Drawing, 171, line, 171);
    let s2 = stat_next((Mode::Drawing, 0usize, line));
    assert(s2 == (Mode::HBlank, 203usize, line));
    lemma_countdown(Mode::HBlank, 203, line, 203);
    let s3 = stat_next((Mode::HBlank, 0usize, line));
    assert(s3 == (Mode::OamScan, 79usize, (line + 1) as usize));
    // Chain the phases: 79 + 1 + 171 + 1 + 203 + 1 = 456.
    lemma_iter_one((Mode::OamScan, 0usize, line));
    lemma_iter_one((Mode::Drawing, 0usize, line));
    lemma_iter_one((Mode::HBlank, 0usize, line));
    lemma_iter_add(s0, 79, 1);
    lemma_iter_add(s0, 80, 171);
    lemma_iter_add(s0, 251, 1);
    lemma_iter_add(s0, 252, 203);
    lemma_iter_add(s0, 455, 1);
}

/// After the last visible line's HBlank the ten VBlank lines last 4560 dots,
/// and the OAM scan of line 0 follows.
pub proof fn lemma_vblank_length()
    ensures
        stat_iter((Mode::HBlank, 0usize, 143usize), 1) == (Mode::VBlank, 4559usize, 0usize),
        stat_iter((Mode::VBlank, 4559usize, 0usize), (DOTS_PER_SCANLINE * 10) as nat) == (
            Mode::OamScan,
            79usize,
            0usize,
        ),
{
    let s0 = (Mode::VBlank, 4559usize, 0usize);
    lemma_iter_one((Mode::HBlank, 0usize, 143usize));
    lemma_iter_one((Mode::VBlank, 0usize, 0usize));
    lemma_countdown(Mode::VBlank, 4559, 0, 4559);
    lemma_iter_add(s0, 4559, 1);
}

} // verus!
