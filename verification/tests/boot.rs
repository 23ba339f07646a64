//! Stages of the boot and pacing.

use lazuli::uniform::uniform_size;
use lazuli::boot::{classify_pc, DebugMilestones, Phase, Progress};

#[test]
fn addresses_name_stages() {
    assert_eq!(classify_pc(0x8130_0000), Phase::IplHle);
    assert_eq!(classify_pc(0x8120_0000), Phase::Apploader);
    assert_eq!(classify_pc(0x8000_3100), Phase::Game);
    assert_eq!(classify_pc(0x0000_0500), Phase::Unknown);
    assert_eq!(Phase::Game.label(), "OS/game RAM");
    assert_eq!(Phase::Unknown.label(), "unknown");
}

#[test]
fn milestones_stay_at_their_first_time() {
    let mut progress = Progress::new();
    progress.begin(1_000);
    let first = progress.observe(0x8130_0000, 1_250).unwrap();
    assert_eq!((first.from, first.to, first.first), (Phase::Unknown, Phase::IplHle, true));
    assert!(progress.observe(0x8130_0004, 1_300).is_none());
    assert!(progress.observe(0x8000_3100, 1_400).unwrap().first);
    let again = progress.observe(0x8130_0000, 1_500).unwrap();
    assert!(!again.first);
    assert_eq!(progress.milestones.ipl_hle_started, Some(1_250));
    let elapsed = progress.milestones.elapsed_ms(progress.milestones.ipl_hle_started);
    assert!(elapsed.contains("250"), "{}", elapsed);
}

#[test]
fn milestones_begin_empty() {
    let milestones = DebugMilestones::default();
    assert_eq!(milestones.started_at, None);
    assert_eq!(milestones.game_entry, None);
}

#[test]
fn pacing_loses_no_cycles() {
    let mut progress = Progress::new();
    assert_eq!(progress.account(383), 0);
    assert_eq!(progress.account(1), 1);
    assert_eq!(progress.dsp_pending, 0);
    assert_eq!(progress.account(1_000), 2);
    assert_eq!(progress.dsp_pending, 232);
}

#[test]
fn execution_stops_at_the_next_event() {
    let progress = Progress::new();
    assert_eq!(progress.can_execute(10_000, Some(100)), 100);
    assert!(progress.can_execute(10_000, None) <= 10_000);
}

#[test]
fn uniform_buffers_are_aligned() {
    assert_eq!(uniform_size(0), 16);
    assert_eq!(uniform_size(16), 16);
    assert_eq!(uniform_size(17), 32);
    assert_eq!(uniform_size(100), 112);
}
