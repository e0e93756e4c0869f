use haircut_core::simulation::{active_lengths, summarize_step};
use haircut_core::{DebrisPoint, DebrisSegment, HairRoot, HairStrand, StepSummary};

#[test]
fn summary_counts_shortened_strands_and_new_debris() {
    let s = summarize_step(&[12, 12, 7, 12], &[12, 3, 7, 1], 4, 6);
    assert_eq!(
        s,
        StepSummary {
            strands_cut_this_step: 2,
            debris_segments_created: 2
        }
    );
}

#[test]
fn summary_compares_only_common_prefix() {
    let s = summarize_step(&[5, 5, 5], &[4], 0, 0);
    assert_eq!(s.strands_cut_this_step, 1);
    let s = summarize_step(&[5], &[4, 1, 1], 0, 0);
    assert_eq!(s.strands_cut_this_step, 1);
}

#[test]
fn summary_never_reports_negative_debris() {
    let s = summarize_step(&[], &[], 9, 2);
    assert_eq!(s.debris_segments_created, 0);
    assert_eq!(s.strands_cut_this_step, 0);
}

#[test]
fn lengthened_strand_is_not_counted_as_cut() {
    let s = summarize_step(&[2, 3], &[6, 3], 0, 0);
    assert_eq!(s.strands_cut_this_step, 0);
}

#[test]
fn active_lengths_lists_each_strand() {
    let root = HairRoot {
        offset: [0.0f32; 3],
        normal: [0.0f32; 3],
    };
    let mut a = HairStrand::new(root, 6, [0.0f32; 3]);
    let b = HairStrand::new(root, 4, [0.0f32; 3]);
    a.shorten_to(3);
    assert_eq!(active_lengths(&[a, b]), vec![3, 4]);
}

#[test]
fn cutting_then_summarising_counts_the_cut() {
    let root = HairRoot {
        offset: [0.0f32; 3],
        normal: [0.0f32; 3],
    };
    let mut strands = vec![
        HairStrand::new(root, 6, [0.0f32; 3]),
        HairStrand::new(root, 6, [0.0f32; 3]),
    ];
    let before = active_lengths(&strands);
    let mut debris: Vec<DebrisSegment<[f32; 3]>> = Vec::new();
    let tail = strands[1].cut_at(3);
    let points: Vec<DebrisPoint<[f32; 3]>> = tail
        .iter()
        .map(|n| DebrisPoint {
            position: n.position,
            velocity: [0.0; 3],
            is_stopped: false,
        })
        .collect();
    let segment = DebrisSegment::new(points);
    assert!(!segment.is_empty());
    debris.push(segment);
    let after = active_lengths(&strands);
    let s = summarize_step(&before, &after, 0, debris.len());
    assert_eq!(s.strands_cut_this_step, 1);
    assert_eq!(s.debris_segments_created, 1);
    assert_eq!(debris[0].points.len(), 3);
}

#[test]
fn debris_segment_keeps_its_points() {
    let p = DebrisPoint {
        position: [1.0f32, 2.0, 3.0],
        velocity: [0.0f32; 3],
        is_stopped: true,
    };
    let seg = DebrisSegment::new(vec![p, p]);
    assert_eq!(seg.points.len(), 2);
    assert!(seg.points[1].is_stopped);
    assert!(!seg.is_empty());
    assert!(DebrisSegment::<[f32; 3]>::new(Vec::new()).is_empty());
}
