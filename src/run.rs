use vstd::prelude::*;

verus! {

/// Slowest clock rate the host runs the engine at, in cycles per second.
pub const HZ_MIN: u32 = 1;

/// Fastest clock rate.
pub const HZ_MAX: u32 = 2000;

/// Clock rate at start and after a reset.
pub const HZ_DEFAULT: u32 = 500;

/// Whether the host is running the engine.
#[derive(Clone, Copy, Debug, PartialEq, Eq, Structural)]
pub enum CPUState {
    Stopped,
    Paused,
    Running,
    OneStep,
}

/// The host's pacing state: run mode, time of the last batch of cycles in
/// milliseconds, measured frames per second and clock rate.
pub struct RunState {
    pub cpu_state: CPUState,
    pub last_step: u64,
    pub fps: i32,
    pub hz: u32,
}

/// `n` rounded down to a multiple of `k`.
pub open spec fn round_down(n: int, k: int) -> int {
    (n / k) * k
}

/// `n` limited to the range from `HZ_MIN` to `HZ_MAX`.
pub open spec fn clamp_hz(n: int) -> u32 {
    if n < HZ_MIN {
        HZ_MIN
    } else if n > HZ_MAX {
        HZ_MAX
    } else {
        n as u32
    }
}

/// One notch slower: by 1 below 20, by tens up to 100, by hundreds above.
pub open spec fn slower(hz: u32) -> u32 {
    if hz < 20 {
        clamp_hz(hz - 1)
    } else if hz <= 100 {
        clamp_hz(round_down(hz as int, 10) - 10)
    } else {
        clamp_hz(round_down(hz as int, 100) - 100)
    }
}

/// One notch faster: by 1 below 20, by tens up to 100, by hundreds above.
pub open spec fn faster(hz: u32) -> u32 {
    if hz < 20 {
        clamp_hz(hz + 1)
    } else if hz <= 100 {
        clamp_hz(round_down(hz as int, 10) + 10)
    } else {
        clamp_hz(round_down(hz as int, 100) + 100)
    }
}

/// The run mode after the pause key.
pub open spec fn toggled(s: CPUState) -> CPUState {
    match s {
        CPUState::Running => CPUState::Paused,
        CPUState::Paused => CPUState::Running,
        other => other,
    }
}

/// Cycles owed after `elapsed_ms` milliseconds in run mode `s` at `hz`.
pub open spec fn cycles_owed(s: CPUState, hz: u32, elapsed_ms: u32) -> u64 {
    match s {
        CPUState::Running => (elapsed_ms * hz / 1000) as u64,
        CPUState::OneStep => 1,
        _ => 0,
    }
}

fn clamp(n: i64) -> (r: u32)
    ensures
        r == clamp_hz(n as int),
{
    if n < HZ_MIN as i64 {
        HZ_MIN
    } else if n > HZ_MAX as i64 {
        HZ_MAX
    } else {
        n as u32
    }
}

impl RunState {
    /// The clock rate lies in its range.
    pub open spec fn wf(&self) -> bool {
        HZ_MIN <= self.hz <= HZ_MAX
    }

    /// Stopped, at the default clock rate, with no time or frames counted.
    pub fn new() -> (r: RunState)
        ensures
            r.cpu_state == CPUState::Stopped,
            r.last_step == 0,
            r.fps == 0,
            r.hz == HZ_DEFAULT,
            r.wf(),
    {
        RunState { cpu_state: CPUState::Stopped, last_step: 0, fps: 0, hz: HZ_DEFAULT }
    }

    /// Running from `now_ms` at the default clock rate: the state after a reload
    /// or a restart.
    pub fn running(now_ms: u64) -> (r: RunState)
        ensures
            r.cpu_state == CPUState::Running,
            r.last_step == now_ms,
            r.fps == 0,
            r.hz == HZ_DEFAULT,
            r.wf(),
    {
        RunState { cpu_state: CPUState::Running, last_step: now_ms, fps: 0, hz: HZ_DEFAULT }
    }

    /// Lowers the clock rate by one notch.
    pub fn dec_hz(&mut self)
        requires
            old(self).wf(),
        ensures
            final(self).hz == slower(old(self).hz),
            final(self).cpu_state == old(self).cpu_state,
            final(self).last_step == old(self).last_step,
            final(self).fps == old(self).fps,
            final(self).wf(),
    {
        let n = self.hz as i64;
        self.hz = if n < 20 {
            clamp(n - 1)
        } else if n <= 100 {
            clamp((n / 10) * 10 - 10)
        } else {
            clamp((n / 100) * 100 - 100)
        };
    }

    /// Raises the clock rate by one notch.
    pub fn inc_hz(&mut self)
        requires
            old(self).wf(),
        ensures
            final(self).hz == faster(old(self).hz),
            final(self).cpu_state == old(self).cpu_state,
            final(self).last_step == old(self).last_step,
            final(self).fps == old(self).fps,
            final(self).wf(),
    {
        let n = self.hz as i64;
        self.hz = if n < 20 {
            clamp(n + 1)
        } else if n <= 100 {
            clamp((n / 10) * 10 + 10)
        } else {
            clamp((n / 100) * 100 + 100)
        };
    }

    /// Switches between running and paused; other modes stay.
    pub fn toggle_pause(&mut self)
        ensures
            final(self).cpu_state == toggled(old(self).cpu_state),
            final(self).hz == old(self).hz,
            final(self).last_step == old(self).last_step,
            final(self).fps == old(self).fps,
    {
        self.cpu_state = match self.cpu_state {
            CPUState::Running => CPUState::Paused,
            CPUState::Paused => CPUState::Running,
            other => other,
        };
    }

    /// How many cycles to run now, `elapsed_ms` milliseconds after the last
    /// batch: none when stopped or paused, one in single-step mode.
    pub fn cycles_since(&self, elapsed_ms: u32) -> (r: u64)
        requires
            self.wf(),
        ensures
            r == cycles_owed(self.cpu_state, self.hz, elapsed_ms),
    {
        match self.cpu_state {
            CPUState::Running => {
                assert(elapsed_ms * self.hz <= 0xFFFF_FFFFu64 * 2000) by (nonlinear_arith)
                    requires elapsed_ms <= 0xFFFF_FFFFu64, self.hz <= 2000;
                (elapsed_ms as u64 * self.hz as u64) / 1000
            },
            CPUState::OneStep => 1,
            _ => 0,
        }
    }

    /// Ends a batch of cycles: a fault, or a finished single step, pauses.
    pub fn finish_batch(&mut self, faulted: bool)
        ensures
            final(self).cpu_state == (if faulted || old(self).cpu_state == CPUState::OneStep {
                CPUState::Paused
            } else {
                old(self).cpu_state
            }),
            final(self).hz == old(self).hz,
            final(self).last_step == old(self).last_step,
            final(self).fps == old(self).fps,
    {
        if faulted || self.cpu_state == CPUState::OneStep {
            self.cpu_state = CPUState::Paused;
        }
    }
}

} // verus!
