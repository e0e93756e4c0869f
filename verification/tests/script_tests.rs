use haircut_core::script::{CutLineStep, RasterStep};
use haircut_core::simulation::count_cut_strands;
use haircut_core::{CutLine, HairRoot, HairStrand, RasterSweep};

#[test]
fn cut_line_approaches_first() {
    assert_eq!(CutLine.plan(0), CutLineStep::Approach);
    assert_eq!(CutLine.plan(41), CutLineStep::Approach);
}

#[test]
fn cut_line_activates_once_then_sweeps() {
    assert_eq!(
        CutLine.plan(42),
        CutLineStep::Sweep { activate: true, progress_ticks: 0 }
    );
    assert_eq!(
        CutLine.plan(43),
        CutLineStep::Sweep { activate: false, progress_ticks: 1 }
    );
    assert_eq!(
        CutLine.plan(142),
        CutLineStep::Sweep { activate: false, progress_ticks: 100 }
    );
}

#[test]
fn cut_line_holds_at_the_end_of_the_line() {
    assert_eq!(
        CutLine.plan(242),
        CutLineStep::Sweep { activate: false, progress_ticks: 200 }
    );
    assert_eq!(
        CutLine.plan(5000),
        CutLineStep::Sweep { activate: false, progress_ticks: 200 }
    );
}

#[test]
fn raster_jumps_to_start_on_first_tick() {
    assert_eq!(RasterSweep.plan(0), RasterStep::Approach { jump_to_start: true });
    assert_eq!(RasterSweep.plan(1), RasterStep::Approach { jump_to_start: false });
    assert_eq!(RasterSweep.plan(41), RasterStep::Approach { jump_to_start: false });
}

#[test]
fn raster_activates_after_delay() {
    assert_eq!(
        RasterSweep.plan(42),
        RasterStep::Sweep { activate: false, row: 0, tick_in_row: 0, rightward: true }
    );
    assert_eq!(
        RasterSweep.plan(50),
        RasterStep::Sweep { activate: true, row: 0, tick_in_row: 8, rightward: true }
    );
}

#[test]
fn raster_alternates_direction_by_row() {
    assert_eq!(
        RasterSweep.plan(241),
        RasterStep::Sweep { activate: false, row: 0, tick_in_row: 199, rightward: true }
    );
    assert_eq!(
        RasterSweep.plan(242),
        RasterStep::Sweep { activate: false, row: 1, tick_in_row: 0, rightward: false }
    );
    assert_eq!(
        RasterSweep.plan(447),
        RasterStep::Sweep { activate: false, row: 2, tick_in_row: 5, rightward: true }
    );
}

#[test]
fn cut_strands_are_those_shorter_than_full() {
    let root = HairRoot { offset: [0i32; 3], normal: [0i32; 3] };
    let mut strands = vec![
        HairStrand::new(root, 12, [0i32; 3]),
        HairStrand::new(root, 12, [0i32; 3]),
        HairStrand::new(root, 12, [0i32; 3]),
    ];
    assert_eq!(count_cut_strands(&strands, 12), 0);
    strands[0].cut_at(4);
    strands[2].cut_at(11);
    assert_eq!(count_cut_strands(&strands, 12), 2);
    assert_eq!(count_cut_strands(&strands, 4), 0);
}
