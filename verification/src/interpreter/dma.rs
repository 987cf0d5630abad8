//! OAM DMA: 1 M-cycle for the write that starts it, 1 cycle of delay, then
//! 160 M-cycles, one for each byte of OAM.
use vstd::prelude::*;

verus! {

#[derive(Clone, Copy, PartialEq, Eq, Structural, Debug)]
pub enum DmaState {
    Idle,
    Initiated,
    Pending,
    /// M-cycles remaining.
    Active(u8),
}

impl Default for DmaState {
    fn default() -> (r: Self)
        ensures
            r == DmaState::Idle,
    {
        DmaState::Idle
    }
}

pub struct Dma {
    pub clock: u64,
    pub state: DmaState,
}

impl Default for Dma {
    fn default() -> (r: Self)
        ensures
            r.clock == 0,
            r.state == DmaState::Idle,
    {
        Dma { clock: 0, state: DmaState::Idle }
    }
}

/// One M-cycle of DMA: the new state, and whether it went from pending to
/// active.
pub open spec fn dma_step(s: DmaState) -> (DmaState, bool) {
    match s {
        DmaState::Initiated => (DmaState::Pending, false),
        DmaState::Pending => (DmaState::Active(159), true),
        DmaState::Active(remaining) => if remaining == 0 {
            (DmaState::Idle, false)
        } else {
            (DmaState::Active((remaining - 1) as u8), false)
        },
        DmaState::Idle => (DmaState::Idle, false),
    }
}

/// Up to `n` M-cycles of DMA, stopping once idle: the final state, and whether
/// a pending-to-active transition happened on the way.
pub open spec fn dma_run(s: DmaState, n: nat) -> (DmaState, bool)
    decreases n,
{
    if n == 0 || s == DmaState::Idle {
        (s, false)
    } else {
        let (s1, t1) = dma_step(s);
        let (s2, t2) = dma_run(s1, (n - 1) as nat);
        (s2, t1 || t2)
    }
}

impl Dma {
    pub fn start(&mut self)
        ensures
            final(self).state == DmaState::Initiated,
            final(self).clock == old(self).clock,
    {
        self.state = DmaState::Initiated;
    }

    pub fn is_active(&self) -> (r: bool)
        ensures
            r == (self.state is Active),
    {
        matches!(self.state, DmaState::Active(_))
    }

    /// Returns true on Pending -> Active transition.
    fn tick(&mut self) -> (r: bool)
        ensures
            (final(self).state, r) == dma_step(old(self).state),
            final(self).clock == old(self).clock,
    {
        match self.state {
            DmaState::Initiated => self.state = DmaState::Pending,
            DmaState::Pending => {
                self.state = DmaState::Active(159);
                return true;
            },
            DmaState::Active(0) => self.state = DmaState::Idle,
            DmaState::Active(remaining) => self.state = DmaState::Active(remaining - 1),
            DmaState::Idle => {},
        }
        false
    }

    /// Run the DMA for the M-cycles between its clock and `cpu_clock` (a
    /// T-cycle count). Returns true on a Pending -> Active transition.
    pub fn catch_up(&mut self, cpu_clock: u64) -> (r: bool)
        requires
            cpu_clock >= old(self).clock,
        ensures
            final(self).clock == cpu_clock,
            (final(self).state, r) == dma_run(old(self).state, ((cpu_clock - old(self).clock) / 4) as nat),
    {
        let catch_up_m_cycles = (cpu_clock - self.clock) / 4;
        self.clock = cpu_clock;

        let mut transition = false;
        let mut i: u64 = 0;
        while i < catch_up_m_cycles && self.state != DmaState::Idle
            invariant
                i <= catch_up_m_cycles,
                self.clock == cpu_clock,
                ({
                    let (s_end, t_end) = dma_run(self.state, (catch_up_m_cycles - i) as nat);
                    (s_end, transition || t_end) == dma_run(old(self).state, catch_up_m_cycles as nat)
                }),
            decreases catch_up_m_cycles - i,
        {
            let ghost before = self.state;
            let t = self.tick();
            proof {
                assert(dma_run(before, (catch_up_m_cycles - i) as nat) == {
                    let (s2, t2) = dma_run(self.state, (catch_up_m_cycles - i - 1) as nat);
                    (s2, t || t2)
                });
            }
            transition = transition || t;
            i += 1;
        }
        transition
    }
}

/// While active, DMA counts down one M-cycle at a time.
proof fn lemma_active_countdown(r: u8, k: nat)
    requires
        k <= r,
    ensures
        dma_run(DmaState::Active(r), k) == (DmaState::Active((r - k) as u8), false),
    decreases k,
{
    if k > 0 {
        lemma_active_countdown((r - 1) as u8, (k - 1) as nat);
    }
}

/// An OAM DMA transfer takes 162 M-cycles from the write that starts it until
/// it is idle again, becoming active (once) on the second cycle: one cycle of
/// delay, and 160 cycles of transfer.
pub proof fn lemma_dma_duration()
    ensures
        dma_run(DmaState::Initiated, 161) == (DmaState::Active(0), true),
        dma_run(DmaState::Initiated, 162) == (DmaState::Idle, true),
{
    lemma_active_countdown(159, 159);
    assert(dma_run(DmaState::Active(0), 1) == (DmaState::Idle, false)) by {
        assert(dma_run(DmaState::Idle, 0) == (DmaState::Idle, false));
    }
    assert(dma_run(DmaState::Active(159), 160) == (DmaState::Idle, false)) by {
        lemma_run_split(DmaState::Active(159), 159, 1);
    }
    assert(dma_run(DmaState::Pending, 160) == (DmaState::Active(0), true));
    assert(dma_run(DmaState::Pending, 161) == (DmaState::Idle, true));
}

/// Running `a + b` cycles of an active transfer that is not yet idle after
/// `a` cycles is running `a`, then `b`.
proof fn lemma_run_split(s: DmaState, a: nat, b: nat)
    requires
        s is Active,
        a <= s->Active_0,
    ensures
        dma_run(s, a + b) == ({
            let (s1, t1) = dma_run(s, a);
            let (s2, t2) = dma_run(s1, b);
            (s2, t1 || t2)
        }),
    decreases a,
{
    if a > 0 {
        let r = s->Active_0;
        lemma_run_split(DmaState::Active((r - 1) as u8), (a - 1) as nat, b);
        assert((a + b - 1) as nat == (a - 1) as nat + b);
    }
}

} // verus!
