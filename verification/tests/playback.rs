use sttd::config::PlaybackConfig;
use sttd::playback::{
    parse_player_list, status_is_playing, str_lt, CoordinatorState, PlaybackCommandError,
    PlaybackController,
};

fn config(enabled: bool, command_timeout_ms: u64, aggregate_timeout_ms: u64) -> PlaybackConfig {
    PlaybackConfig {
        enabled,
        playerctl_cmd: "playerctl".to_string(),
        command_timeout_ms,
        aggregate_timeout_ms,
    }
}

#[test]
fn disabled_controller_reports_it() {
    assert!(!PlaybackController::new(config(false, 100, 200)).is_enabled());
    assert!(PlaybackController::new(config(true, 100, 200)).is_enabled());
}

#[test]
fn command_timeout_is_capped_by_the_pass_deadline() {
    let c = PlaybackController::new(config(true, 250, 600));
    assert_eq!(c.effective_timeout(1_000_000_000, 900_000_000), Some(100_000_000));
    assert_eq!(c.effective_timeout(1_000_000_000, 0), Some(250_000_000));
    assert_eq!(c.effective_timeout(1_000_000_000, 1_000_000_000), Some(0));
    assert_eq!(c.effective_timeout(1_000_000_000, 1_000_000_001), None);
}

#[test]
fn command_label_joins_arguments() {
    let c = PlaybackController::new(config(true, 100, 200));
    assert_eq!(c.command_label(&[]), "playerctl");
    let args = vec!["-p".to_string(), "alpha".to_string(), "status".to_string()];
    assert_eq!(c.command_label(&args), "playerctl -p alpha status");
}

#[test]
fn player_list_is_trimmed_and_deduplicated() {
    let names = parse_player_list("alpha\n  beta \n\nalpha\ngamma\n");
    assert_eq!(names, vec!["alpha".to_string(), "beta".to_string(), "gamma".to_string()]);
    assert!(parse_player_list("\n  \n").is_empty());
}

#[test]
fn player_list_comes_in_name_order() {
    let names = parse_player_list("spotify\nfirefox.instance2\nSpotify\nchromium\nfirefox\nspotify\n");
    assert_eq!(
        names,
        vec![
            "Spotify".to_string(),
            "chromium".to_string(),
            "firefox".to_string(),
            "firefox.instance2".to_string(),
            "spotify".to_string(),
        ]
    );
    let mut sorted = names.clone();
    sorted.sort();
    assert_eq!(names, sorted);
    assert_eq!(parse_player_list("zeta\nalpha"), vec!["alpha".to_string(), "zeta".to_string()]);
}

#[test]
fn name_order_matches_string_order() {
    let pairs = [("a", "b"), ("a", "ab"), ("", "a"), ("B", "a"), ("é", "z"), ("ab", "ab"), ("b", "a")];
    for (a, b) in pairs {
        assert_eq!(str_lt(a, b), a.to_string() < b.to_string(), "{a} < {b}");
    }
}

#[test]
fn only_playing_status_counts() {
    assert!(status_is_playing("Playing\n"));
    assert!(!status_is_playing("Paused\n"));
    assert!(!status_is_playing("playing"));
}

#[test]
fn timed_out_command_message_names_the_command() {
    let err = PlaybackCommandError::TimedOut { command: "playerctl -l".to_string(), timeout_ms: 200 };
    assert_eq!(err.message(), "`playerctl -l` timed out after 200 ms");
    assert_eq!(PlaybackCommandError::Failed("x".to_string()).message(), "x");
}

#[test]
fn coordinator_resumes_tracked_players_once() {
    let mut state = CoordinatorState::new();
    assert!(state.begin_start(7));
    state.complete_start(7, vec!["alpha".to_string()]);
    assert!(!state.begin_start(7), "same session needs no second pause");
    assert!(state.take_for_stop(8).is_none(), "other sessions do not own the players");
    assert_eq!(state.take_for_stop(7), Some(vec!["alpha".to_string()]));
    assert!(state.take_for_stop(7).is_none());
}

#[test]
fn new_session_discards_stale_ownership() {
    let mut state = CoordinatorState::new();
    state.complete_start(1, vec!["alpha".to_string()]);
    assert!(state.begin_start(2));
    assert!(state.take_for_stop(1).is_none());
    assert!(state.take_all().is_empty());
}

#[test]
fn shutdown_takes_every_paused_player() {
    let mut state = CoordinatorState::new();
    state.complete_start(3, vec!["a".to_string(), "b".to_string()]);
    assert_eq!(state.take_all(), vec!["a".to_string(), "b".to_string()]);
    assert!(state.take_for_stop(3).is_none());
}

#[test]
fn pass_deadline_is_the_budget_later_and_saturates() {
    let c = PlaybackController::new(config(true, 100, 600));
    assert_eq!(c.pass_deadline(1_000), 600_001_000);
    assert_eq!(c.pass_deadline(u64::MAX - 5), u64::MAX);
}
