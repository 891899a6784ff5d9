use vstd::prelude::*;

verus! {

/// Milliseconds between generations when the simulation starts.
pub const INITIAL_SPEED: u64 = 100;

/// How much one speed command changes the delay, in milliseconds.
pub const SPEED_STEP: u64 = 20;

/// A request from the user.
#[derive(Clone, Copy, Debug, PartialEq, Eq, Structural)]
pub enum Command {
    TogglePause,
    StepOnce,
    Reset,
    SpeedUp,
    SpeedDown,
}

/// The run state that the driver loop keeps between ticks.
#[derive(Clone, Copy, Debug, PartialEq, Eq, Structural)]
pub struct Controls {
    pub paused: bool,
    pub step_mode: bool,
    pub step_requested: bool,
    /// Delay between generations in milliseconds.
    pub speed: u64,
    /// Generations computed since the last reset.
    pub generation: u64,
}

/// The delay after a `SpeedUp`: shorter by `SPEED_STEP` while it stays
/// above that step.
pub open spec fn faster(speed: u64) -> u64 {
    if speed > SPEED_STEP {
        (speed - SPEED_STEP) as u64
    } else {
        speed
    }
}

/// The delay after a `SpeedDown`: longer by `SPEED_STEP`, saturating.
pub open spec fn slower(speed: u64) -> u64 {
    if speed <= u64::MAX - SPEED_STEP {
        (speed + SPEED_STEP) as u64
    } else {
        u64::MAX
    }
}

/// The state after `cmd`.
pub open spec fn after(s: Controls, cmd: Command) -> Controls {
    match cmd {
        Command::TogglePause => Controls { paused: !s.paused, ..s },
        Command::StepOnce => Controls { step_mode: true, step_requested: true, ..s },
        Command::Reset => Controls { generation: 0, ..s },
        Command::SpeedUp => Controls { speed: faster(s.speed), ..s },
        Command::SpeedDown => Controls { speed: slower(s.speed), ..s },
    }
}

impl Controls {
    pub fn new() -> (c: Controls)
        ensures
            c == (Controls {
                paused: false,
                step_mode: false,
                step_requested: false,
                speed: INITIAL_SPEED,
                generation: 0,
            }),
    {
        Controls {
            paused: false,
            step_mode: false,
            step_requested: false,
            speed: INITIAL_SPEED,
            generation: 0,
        }
    }

    /// Folds one command into the state. Returns true for `Reset`, on which
    /// the caller lays out the starting world again.
    pub fn apply(&mut self, cmd: Command) -> (reset: bool)
        ensures
            *final(self) == after(*old(self), cmd),
            reset == (cmd == Command::Reset),
    {
        match cmd {
            Command::TogglePause => {
                self.paused = !self.paused;
                false
            },
            Command::StepOnce => {
                self.step_mode = true;
                self.step_requested = true;
                false
            },
            Command::Reset => {
                self.generation = 0;
                true
            },
            Command::SpeedUp => {
                if self.speed > SPEED_STEP {
                    self.speed = self.speed - SPEED_STEP;
                }
                false
            },
            Command::SpeedDown => {
                if self.speed <= u64::MAX - SPEED_STEP {
                    self.speed = self.speed + SPEED_STEP;
                } else {
                    self.speed = u64::MAX;
                }
                false
            },
        }
    }

    /// Whether this tick advances the world: when running, or when paused
    /// with a step pending.
    pub fn should_step(&self) -> (r: bool)
        ensures
            r == (!self.paused || (self.step_mode && self.step_requested)),
    {
        !self.paused || (self.step_mode && self.step_requested)
    }

    /// Records that one generation was computed: counts it and consumes a
    /// pending step request.
    pub fn record_step(&mut self)
        ensures
            final(self).generation == if old(self).generation < u64::MAX {
                old(self).generation + 1
            } else {
                old(self).generation as int
            },
            final(self).step_requested == false,
            final(self).paused == old(self).paused,
            final(self).step_mode == old(self).step_mode,
            final(self).speed == old(self).speed,
    {
        if self.generation < u64::MAX {
            self.generation = self.generation + 1;
        }
        self.step_requested = false;
    }
}

/// The delay stays positive under every command: `SpeedUp` only shortens
/// a delay longer than `SPEED_STEP`, `SpeedDown` never shortens it.
pub proof fn lemma_speed_stays_positive(s: Controls, cmd: Command)
    requires
        s.speed > 0,
    ensures
        after(s, cmd).speed > 0,
        after(s, Command::SpeedUp).speed <= s.speed,
        after(s, Command::SpeedDown).speed >= s.speed,
{
}

} // verus!
