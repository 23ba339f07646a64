//! Running the emulated machine: how far the processor may run before something else
//! is due, and which stage of the boot it has reached.

use vstd::prelude::*;

verus! {

/// Processor cycles of a DSP cycle.
pub const CPU_CYCLES_PER_DSP_CYCLE: u64 = 6;

/// DSP cycles that are executed together.
pub const DSP_STEP: u64 = 64;

/// Processor cycles that make up a DSP step.
pub const CPU_CYCLES_PER_STEP: u64 = 384;

/// DSP instructions that are executed together.
pub const DSP_INST_PER_STEP: u32 = 64;

/// A stage of the boot, by where the processor is.
#[derive(Clone, Copy, Debug, PartialEq, Eq, Structural)]
pub enum Phase {
    /// Anywhere else.
    Unknown,
    /// In the boot program.
    IplHle,
    /// In the loader program of the disc.
    Apploader,
    /// In memory of the system or the game.
    Game,
}

/// When the stages of the boot were first reached, in milliseconds by the host's clock.
#[derive(Clone, Copy, Debug, PartialEq, Eq, Structural)]
pub struct DebugMilestones {
    /// When emulation began.
    pub started_at: Option<u64>,
    /// When the boot program was first reached.
    pub ipl_hle_started: Option<u64>,
    /// When the loader program was first reached.
    pub apploader_running: Option<u64>,
    /// When memory of the system or the game was first reached.
    pub game_entry: Option<u64>,
}

/// What looking at the program counter has shown.
#[derive(Clone, Copy, Debug, PartialEq, Eq, Structural)]
pub struct Transition {
    /// The stage before.
    pub from: Phase,
    /// The stage now.
    pub to: Phase,
    /// Whether this stage was reached for the first time.
    pub first: bool,
}

/// The stage that address `pc` belongs to.
pub open spec fn phase_of(pc: u32) -> Phase {
    if 0x8130_0000 <= pc <= 0x817F_FFFF {
        Phase::IplHle
    } else if 0x8120_0000 <= pc < 0x8130_0000 {
        Phase::Apploader
    } else if 0x8000_0000 <= pc < 0x8120_0000 {
        Phase::Game
    } else {
        Phase::Unknown
    }
}

/// The stage that address `pc` belongs to.
pub fn classify_pc(pc: u32) -> (phase: Phase)
    ensures
        phase == phase_of(pc),
{
    if 0x8130_0000 <= pc && pc <= 0x817F_FFFF {
        Phase::IplHle
    } else if 0x8120_0000 <= pc && pc < 0x8130_0000 {
        Phase::Apploader
    } else if 0x8000_0000 <= pc && pc < 0x8120_0000 {
        Phase::Game
    } else {
        Phase::Unknown
    }
}

impl Phase {
    /// Name of the stage.
    pub fn label(&self) -> (name: &'static str)
        ensures
            name@ == match *self {
                Phase::Unknown => "unknown"@,
                Phase::IplHle => "ipl-hle"@,
                Phase::Apploader => "apploader"@,
                Phase::Game => "OS/game RAM"@,
            },
    {
        match self {
            Phase::Unknown => "unknown",
            Phase::IplHle => "ipl-hle",
            Phase::Apploader => "apploader",
            Phase::Game => "OS/game RAM",
        }
    }
}

/// The decimal digits of `n`.
pub open spec fn digits(n: nat) -> Seq<char>
    decreases n,
{
    if n < 10 {
        seq![digit(n)]
    } else {
        digits(n / 10).push(digit(n % 10))
    }
}

/// The character for a digit.
pub open spec fn digit(d: nat) -> char {
    (0x30 + d) as char
}

/// Milliseconds from `start` to `end`; none if the end is earlier.
pub open spec fn elapsed(start: u64, end: u64) -> nat {
    if end < start {
        0
    } else {
        (end - start) as nat
    }
}

/// Appends the decimal digits of `n`.
fn push_decimal(text: &mut String, n: u64)
    ensures
        final(text)@ == old(text)@ + digits(n as nat),
    decreases n,
{
    if n >= 10 {
        push_decimal(text, n / 10);
    }
    let d: u8 = 0x30 + (n % 10) as u8;
    text.push(d as char);
    assert(text@ =~= old(text)@ + digits(n as nat));
}

impl DebugMilestones {
    /// When `phase` was first reached, if it was.
    pub open spec fn reached(self, phase: Phase) -> Option<u64> {
        match phase {
            Phase::IplHle => self.ipl_hle_started,
            Phase::Apploader => self.apploader_running,
            Phase::Game => self.game_entry,
            Phase::Unknown => None,
        }
    }

    /// The milestones after `phase` was reached at `now`: the first time counts.
    pub open spec fn latched(self, phase: Phase, now: u64) -> DebugMilestones {
        match phase {
            Phase::IplHle if self.ipl_hle_started is None => DebugMilestones {
                ipl_hle_started: Some(now),
                ..self
            },
            Phase::Apploader if self.apploader_running is None => DebugMilestones {
                apploader_running: Some(now),
                ..self
            },
            Phase::Game if self.game_entry is None => DebugMilestones {
                game_entry: Some(now),
                ..self
            },
            _ => self,
        }
    }

    /// How long after the start a milestone was reached, as text.
    pub fn elapsed_ms(&self, milestone_time: Option<u64>) -> (text: String)
        ensures
            text@ == match (self.started_at, milestone_time) {
                (Some(start), Some(end)) => digits(elapsed(start, end)) + " ms"@,
                _ => "?"@,
            },
    {
        proof {
            reveal_strlit(" ms");
            reveal_strlit("?");
        }
        let mut text: String = String::new();
        match (self.started_at, milestone_time) {
            (Some(start), Some(end)) => {
                let ms: u64 = if end < start { 0 } else { end - start };
                push_decimal(&mut text, ms);
                text.push(' ');
                text.push('m');
                text.push('s');
                assert(text@ =~= digits(elapsed(start, end)) + " ms"@);
            },
            _ => {
                text.push('?');
                assert(text@ =~= "?"@);
            },
        }
        text
    }
}

impl Default for DebugMilestones {
    /// Nothing was reached.
    fn default() -> (milestones: Self)
        ensures
            milestones == (DebugMilestones {
                started_at: None,
                ipl_hle_started: None,
                apploader_running: None,
                game_entry: None,
            }),
    {
        DebugMilestones {
            started_at: None,
            ipl_hle_started: None,
            apploader_running: None,
            game_entry: None,
        }
    }
}

/// What running the machine keeps track of.
#[derive(Clone, Copy, Debug, PartialEq, Eq, Structural)]
pub struct Progress {
    /// Processor cycles that the DSP has not caught up with.
    pub dsp_pending: u64,
    /// Stages of the boot.
    pub milestones: DebugMilestones,
    /// The stage seen last.
    pub prev_phase: Phase,
}

/// The least of three numbers, the second of which may be missing.
pub open spec fn least(a: int, b: Option<u64>, c: int) -> int {
    let ab = match b {
        Some(b) => if b < a {
            b as int
        } else {
            a
        },
        None => a,
    };
    if c < ab {
        c
    } else {
        ab
    }
}

impl Progress {
    /// Whether the DSP is less than a step behind.
    pub open spec fn wf(self) -> bool {
        self.dsp_pending < CPU_CYCLES_PER_STEP
    }

    /// The state after emulation began at `now`: the first time counts.
    pub open spec fn begun(self, now: u64) -> Progress {
        if self.milestones.started_at is None {
            Progress {
                milestones: DebugMilestones { started_at: Some(now), ..self.milestones },
                ..self
            }
        } else {
            self
        }
    }

    /// The state after the processor was seen in `phase` at `now`.
    pub open spec fn seen(self, phase: Phase, now: u64) -> Progress {
        if phase == self.prev_phase {
            self
        } else {
            Progress {
                prev_phase: phase,
                milestones: self.milestones.latched(phase, now),
                ..self
            }
        }
    }

    /// Nothing has run yet.
    pub fn new() -> (progress: Progress)
        ensures
            progress.wf(),
            progress.dsp_pending == 0,
            progress.prev_phase == Phase::Unknown,
            progress.milestones == (DebugMilestones {
                started_at: None,
                ipl_hle_started: None,
                apploader_running: None,
                game_entry: None,
            }),
    {
        Progress {
            dsp_pending: 0,
            milestones: DebugMilestones::default(),
            prev_phase: Phase::Unknown,
        }
    }

    /// Notes that emulation begins.
    pub fn begin(&mut self, now: u64)
        ensures
            *final(self) == old(self).begun(now),
    {
        if self.milestones.started_at.is_none() {
            self.milestones.started_at = Some(now);
        }
    }

    /// How many cycles the processor may run: up to the next DSP step, the next event,
    /// or the end of what is asked for.
    pub fn can_execute(&self, remaining: u64, until_event: Option<u64>) -> (cycles: u64)
        requires
            self.wf(),
        ensures
            cycles == least(
                CPU_CYCLES_PER_STEP - self.dsp_pending,
                until_event,
                remaining as int,
            ),
    {
        let until_dsp: u64 = CPU_CYCLES_PER_STEP - self.dsp_pending;
        let until: u64 = match until_event {
            Some(event) => if event < until_dsp {
                event
            } else {
                until_dsp
            },
            None => until_dsp,
        };
        if remaining < until {
            remaining
        } else {
            until
        }
    }

    /// Notes that the processor has run; gives how many steps the DSP must run to
    /// catch up.
    pub fn account(&mut self, cycles: u64) -> (steps: u64)
        requires
            old(self).wf(),
            cycles <= u64::MAX - CPU_CYCLES_PER_STEP,
        ensures
            final(self).wf(),
            steps * CPU_CYCLES_PER_STEP + final(self).dsp_pending == old(self).dsp_pending + cycles,
            *final(self) == (Progress { dsp_pending: final(self).dsp_pending, ..*old(self) }),
    {
        let total: u64 = self.dsp_pending + cycles;
        self.dsp_pending = total % CPU_CYCLES_PER_STEP;
        total / CPU_CYCLES_PER_STEP
    }

    /// Looks where the processor is; gives what has changed, if something has.
    pub fn observe(&mut self, pc: u32, now: u64) -> (transition: Option<Transition>)
        ensures
            *final(self) == old(self).seen(phase_of(pc), now),
            transition == if phase_of(pc) == old(self).prev_phase {
                None::<Transition>
            } else {
                Some(
                    Transition {
                        from: old(self).prev_phase,
                        to: phase_of(pc),
                        first: phase_of(pc) != Phase::Unknown && old(self).milestones.reached(
                            phase_of(pc),
                        ) is None,
                    },
                )
            },
    {
        let phase: Phase = classify_pc(pc);
        if phase == self.prev_phase {
            return None;
        }
        let from: Phase = self.prev_phase;
        self.prev_phase = phase;
        let mut first: bool = false;
        match phase {
            Phase::IplHle => {
                if self.milestones.ipl_hle_started.is_none() {
                    self.milestones.ipl_hle_started = Some(now);
                    first = true;
                }
            },
            Phase::Apploader => {
                if self.milestones.apploader_running.is_none() {
                    self.milestones.apploader_running = Some(now);
                    first = true;
                }
            },
            Phase::Game => {
                if self.milestones.game_entry.is_none() {
                    self.milestones.game_entry = Some(now);
                    first = true;
                }
            },
            Phase::Unknown => {},
        }
        Some(Transition { from, to: phase, first })
    }
}

/// A milestone, once reached, never changes.
pub proof fn milestones_are_latched(progress: Progress, phase: Phase, now: u64, other: Phase)
    ensures
        progress.milestones.reached(other) is Some ==> progress.seen(
            phase,
            now,
        ).milestones.reached(other) == progress.milestones.reached(other),
        progress.seen(phase, now).milestones.started_at == progress.milestones.started_at,
        progress.milestones.started_at is Some ==> progress.begun(now) == progress,
{
}

/// The processor is never asked to run past a DSP step, and time always passes while
/// there is something left to run.
pub proof fn budget_is_sound(progress: Progress, remaining: u64, until_event: Option<u64>)
    requires
        progress.wf(),
    ensures
        ({
            let cycles = least(
                CPU_CYCLES_PER_STEP - progress.dsp_pending,
                until_event,
                remaining as int,
            );
            &&& progress.dsp_pending + cycles <= CPU_CYCLES_PER_STEP
            &&& cycles <= remaining
            &&& remaining > 0 && until_event != Some(0u64) ==> cycles > 0
        }),
{
}

/// The stages of the boot by address: system and game up to 18 MiB of the first mirror of
/// main memory, then 1 MiB of the loader program of the disc, then 5 MiB of the boot program.
pub proof fn stages_have_their_addresses(pc: u32)
    ensures
        phase_of(pc) == Phase::Game <==> 0 <= pc - 0x8000_0000 < 18 * 0x10_0000,
        phase_of(pc) == Phase::Apploader <==> 0 <= pc - 0x8120_0000 < 0x10_0000,
        phase_of(pc) == Phase::IplHle <==> 0 <= pc - 0x8130_0000 < 5 * 0x10_0000,
        CPU_CYCLES_PER_STEP == 6 * 64,
{
}

} // verus!
