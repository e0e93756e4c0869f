use vstd::prelude::*;

verus! {

/// Ticks spent pushing the clipper forward before a script starts cutting.
pub const APPROACH_TICKS: u64 = 42;

/// Ticks over which the single-line cut sweeps from one side to the other.
pub const SWEEP_TICKS: u64 = 200;

/// Ticks per row of the raster sweep.
pub const ROW_PERIOD: u64 = 200;

/// Ticks after the approach at which the raster sweep turns the cutter on.
pub const RASTER_ACTIVATION_DELAY: u64 = 8;

/// The template haircut: approach the head, then cut one line across it.
#[derive(Clone, Copy, Debug, Default)]
pub struct CutLine;

/// The reference haircut: approach the head, then sweep it row by row,
/// alternating direction.
#[derive(Clone, Copy, Debug, Default)]
pub struct RasterSweep;

/// What the single-line cut does on one tick.
#[derive(Clone, Copy, Debug, PartialEq, Eq, Structural)]
pub enum CutLineStep {
    /// Push the clipper one step forward, nothing else.
    Approach,
    /// Turn the cutter on first if `activate`, then aim the clipper at the
    /// point reached after `progress_ticks` of the `SWEEP_TICKS` the line
    /// takes.
    Sweep { activate: bool, progress_ticks: u64 },
}

/// What the raster sweep does on one tick.
#[derive(Clone, Copy, Debug, PartialEq, Eq, Structural)]
pub enum RasterStep {
    /// Jump to the start of the first row first if `jump_to_start`, then
    /// push the clipper one step forward.
    Approach { jump_to_start: bool },
    /// Turn the cutter on first if `activate`, then aim the clipper at tick
    /// `tick_in_row` of the `ROW_PERIOD` of row `row`, travelling rightward
    /// when `rightward` and leftward otherwise.
    Sweep { activate: bool, row: u64, tick_in_row: u64, rightward: bool },
}

impl CutLine {
    /// The step taken on tick `t`.
    pub fn plan(&self, t: u64) -> (s: CutLineStep)
        ensures
            t < APPROACH_TICKS ==> s == CutLineStep::Approach,
            t >= APPROACH_TICKS ==> s == (CutLineStep::Sweep {
                activate: t == APPROACH_TICKS,
                progress_ticks: if t - APPROACH_TICKS < SWEEP_TICKS {
                    (t - APPROACH_TICKS) as u64
                } else {
                    SWEEP_TICKS
                },
            }),
    {
        if t < APPROACH_TICKS {
            return CutLineStep::Approach;
        }
        let elapsed = t - APPROACH_TICKS;
        let progress_ticks = if elapsed < SWEEP_TICKS {
            elapsed
        } else {
            SWEEP_TICKS
        };
        CutLineStep::Sweep { activate: t == APPROACH_TICKS, progress_ticks }
    }
}

impl RasterSweep {
    /// The step taken on tick `t`.
    pub fn plan(&self, t: u64) -> (s: RasterStep)
        ensures
            t < APPROACH_TICKS ==> s == (RasterStep::Approach { jump_to_start: t == 0 }),
            t >= APPROACH_TICKS ==> s == (RasterStep::Sweep {
                activate: t == APPROACH_TICKS + RASTER_ACTIVATION_DELAY,
                row: ((t - APPROACH_TICKS) / (ROW_PERIOD as int)) as u64,
                tick_in_row: ((t - APPROACH_TICKS) % (ROW_PERIOD as int)) as u64,
                rightward: ((t - APPROACH_TICKS) / (ROW_PERIOD as int)) % 2 == 0,
            }),
    {
        if t < APPROACH_TICKS {
            return RasterStep::Approach { jump_to_start: t == 0 };
        }
        let elapsed = t - APPROACH_TICKS;
        let row = elapsed / ROW_PERIOD;
        RasterStep::Sweep {
            activate: t == APPROACH_TICKS + RASTER_ACTIVATION_DELAY,
            row,
            tick_in_row: elapsed % ROW_PERIOD,
            rightward: row % 2 == 0,
        }
    }
}

} // verus!
