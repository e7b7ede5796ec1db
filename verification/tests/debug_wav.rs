use sttd::config::DebugWavConfig;
use sttd::debug_wav::{artifact_file_name, plan_cleanup, ArtifactFile, CleanupAction, DebugWavRecorder};

const HOUR_NS: u128 = 3_600_000_000_000;
const MIB: u64 = 1024 * 1024;

fn recorder(enabled: bool, ttl_hours: u64, size_cap_mb: u64) -> DebugWavRecorder {
    DebugWavRecorder::new(DebugWavConfig {
        enabled,
        directory: "/tmp/sttd".to_string(),
        ttl_hours,
        size_cap_mb,
    })
}

#[test]
fn disabled_recorder_reports_it() {
    assert!(!recorder(false, 24, 10).is_enabled());
    assert!(recorder(true, 24, 10).is_enabled());
    assert_eq!(recorder(true, 24, 10).directory(), "/tmp/sttd");
}

#[test]
fn cleanup_prunes_stale_and_oversize_artifacts_but_keeps_the_new_one() {
    let now = 10 * HOUR_NS;
    let files = [
        ArtifactFile { size_bytes: 16, modified_ns: Some(now - 2 * HOUR_NS) },
        ArtifactFile { size_bytes: 2 * MIB, modified_ns: Some(now - 1_000) },
        ArtifactFile { size_bytes: 3_244, modified_ns: Some(now) },
    ];
    let plan = recorder(true, 1, 1).cleanup_plan(now, &files);
    assert_eq!(
        plan,
        vec![CleanupAction::RemoveExpired, CleanupAction::RemoveOversize, CleanupAction::Keep]
    );
}

#[test]
fn cleanup_keeps_everything_within_limits() {
    let now = HOUR_NS;
    let files = [
        ArtifactFile { size_bytes: 10, modified_ns: Some(now - 1) },
        ArtifactFile { size_bytes: 10, modified_ns: None },
    ];
    assert_eq!(plan_cleanup(1, 1, now, &files), vec![CleanupAction::Keep, CleanupAction::Keep]);
}

#[test]
fn cleanup_removes_oldest_first_until_the_rest_fits() {
    let now = HOUR_NS;
    let files = [
        ArtifactFile { size_bytes: MIB, modified_ns: Some(300) },
        ArtifactFile { size_bytes: MIB, modified_ns: Some(100) },
        ArtifactFile { size_bytes: MIB, modified_ns: Some(200) },
        ArtifactFile { size_bytes: MIB, modified_ns: Some(200) },
    ];
    assert_eq!(
        plan_cleanup(24, 2, now, &files),
        vec![
            CleanupAction::Keep,
            CleanupAction::RemoveOversize,
            CleanupAction::RemoveOversize,
            CleanupAction::Keep,
        ]
    );
}

#[test]
fn cleanup_counts_files_from_the_future_as_fresh() {
    let now = HOUR_NS;
    let files = [ArtifactFile { size_bytes: 1, modified_ns: Some(5 * HOUR_NS) }];
    assert_eq!(plan_cleanup(0, 1, now, &files), vec![CleanupAction::Keep]);
    let old = [ArtifactFile { size_bytes: 1, modified_ns: Some(now - 1) }];
    assert_eq!(plan_cleanup(0, 1, now, &old), vec![CleanupAction::RemoveExpired]);
}

#[test]
fn a_file_larger_than_the_cap_is_removed_even_when_alone() {
    let files = [ArtifactFile { size_bytes: 2 * MIB, modified_ns: None }];
    assert_eq!(plan_cleanup(24, 1, HOUR_NS, &files), vec![CleanupAction::RemoveOversize]);
}

#[test]
fn artifact_names_carry_the_timestamp() {
    assert_eq!(artifact_file_name("20240101T120000.123"), "utterance-20240101T120000.123.wav");
}
