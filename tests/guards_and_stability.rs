use mcosu_importer::guards::ImportGuards;
use mcosu_importer::model::StabilityConfig;
use mcosu_importer::playback::{decide_playback_action, PlaybackAction};
use mcosu_importer::stability::{FileSample, StabilityTracker};

#[test]
fn bulk_guard_blocks_reentry() {
    let mut guard = ImportGuards::default();
    assert!(guard.try_start_bulk());
    assert!(!guard.try_start_bulk());
    guard.finish_bulk();
    assert!(guard.try_start_bulk());
}

#[test]
fn per_entry_lock_prevents_parallel_import() {
    let mut guard = ImportGuards::default();
    assert!(guard.try_lock_entry(1));
    assert!(!guard.try_lock_entry(1));
    assert!(guard.try_lock_entry(2));
    guard.release_entry(1);
    assert!(guard.try_lock_entry(1));
}

#[test]
fn exactly_one_of_many_lock_attempts_wins() {
    let mut guard = ImportGuards::new();
    let wins = (0..8).filter(|_| guard.try_lock_entry(7)).count();
    assert_eq!(wins, 1);
    guard.release_entry(7);
    assert!(guard.try_lock_entry(7));
}

#[test]
fn decide_playback_action_handles_singleton() {
    assert_eq!(decide_playback_action(None, 1), PlaybackAction::StartFresh);
    assert_eq!(
        decide_playback_action(Some((1, false)), 1),
        PlaybackAction::PauseCurrent
    );
    assert_eq!(
        decide_playback_action(Some((1, true)), 1),
        PlaybackAction::ResumeCurrent
    );
    assert_eq!(
        decide_playback_action(Some((2, false)), 1),
        PlaybackAction::StopThenStart
    );
}

fn cfg(checks: u32) -> StabilityConfig {
    StabilityConfig { consecutive_checks: checks, interval_ms: 50, timeout_secs: 5 }
}

#[test]
fn unchanged_file_becomes_stable_after_checks() {
    let s = FileSample { size: 5, mtime_ns: 100 };
    let mut t = StabilityTracker::new(s, &cfg(2));
    assert!(!t.observe(Some(s)));
    assert!(t.observe(Some(s)));
}

#[test]
fn growing_file_never_becomes_stable() {
    let mut t = StabilityTracker::new(FileSample { size: 0, mtime_ns: 0 }, &cfg(1));
    for i in 1..20u64 {
        assert!(!t.observe(Some(FileSample { size: i, mtime_ns: i as i128 })));
    }
    assert!(t.within_timeout(4_999));
    assert!(!t.within_timeout(5_000));
}

#[test]
fn failed_probe_resets_the_count() {
    let s = FileSample { size: 9, mtime_ns: 1 };
    let mut t = StabilityTracker::new(s, &cfg(2));
    assert!(!t.observe(Some(s)));
    assert!(!t.observe(None));
    assert!(!t.observe(Some(s)));
    assert!(t.observe(Some(s)));
}

#[test]
fn stability_defaults() {
    assert_eq!(StabilityConfig::default_checks(), 3);
    assert_eq!(StabilityConfig::default_interval_ms(), 700);
    assert_eq!(StabilityConfig::default_timeout_secs(), 120);
}
