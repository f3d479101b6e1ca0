use server_monitor::cycle::{resolve_cycle, should_retry, CycleStage, MonitorError};
use server_monitor::message::{check, GameVariant, Global, Notification, Static};
use server_monitor::profile::{next_avatar_timer, update_permitted};
use server_monitor::server_info::{DetailedInfo, ServerInfo};

fn statics(channel: u64, min: i32, amount: i32, started: i32) -> Static {
    Static {
        server_id: None,
        game: GameVariant::Tunguska,
        platform: "pc".to_string(),
        owner_id: None,
        fake_players: false,
        set_banner_image: true,
        server_name: "Test Server".to_string(),
        lang: "en-us".to_string(),
        min_player_amount: min,
        amount_of_prev_request: amount,
        message_channel: channel,
        started_amount: started,
        mins_between_avatar_change: 1,
    }
}

fn global(game_id: &str, since_empty: bool, window: Vec<i32>, cooldown: i32) -> Global {
    Global {
        game_id: game_id.to_string(),
        since_empty,
        previous_request: window,
        since_player_trigger: cooldown,
    }
}

fn snapshot(current: i32, name: &str, game_id: Option<&str>) -> ServerInfo {
    ServerInfo {
        game_id: game_id.map(|s| s.to_string()),
        detailed: DetailedInfo {
            current_players: current,
            max_players: 64,
            in_que: Some(0),
            small_mode: "CQ".to_string(),
            server_name: name.to_string(),
            server_map: "Amiens".to_string(),
            map_url: "url".to_string(),
            map_mode: "Conquest".to_string(),
            region: "EU".to_string(),
            favorites: "12".to_string(),
            fake_players: None,
        },
    }
}

#[test]
fn drop_alert_scenario() {
    // Window [30,28,25,20], threshold 20, cooldown 25 > 4*2 = 8, count 10:
    // the drop of 20 fires the alert and resets the cooldown.
    let s = statics(123, 20, 2, 50);
    let g = global("old", false, vec![30, 28, 25, 20], 25);
    let (next, notes) = check(&snapshot(10, "Some Server", Some("id1")), g, &s);
    assert_eq!(notes, vec![Notification::DropAlert]);
    assert_eq!(next.since_player_trigger, 0);
    assert_eq!(next.previous_request, vec![28, 25, 20, 10]);
    assert!(!next.since_empty);
    assert_eq!(next.game_id, "id1");
}

#[test]
fn drop_needs_cooldown() {
    // Same drop, but the cooldown has not exceeded 4*2 = 8 cycles yet:
    // no alert, and the counter increments by exactly one.
    let s = statics(123, 20, 2, 50);
    let g = global("old", false, vec![60], 8);
    let (next, notes) = check(&snapshot(10, "Some Server", Some("id1")), g, &s);
    assert!(notes.is_empty());
    assert_eq!(next.since_player_trigger, 9);
    assert_eq!(next.previous_request, vec![60, 10]);
}

#[test]
fn recovery_scenario_with_marker() {
    // since_empty with the count at the started threshold and the marker
    // in the display name: the recovery alert fires and the flag clears.
    let s = statics(123, 20, 5, 50);
    let g = global("g", true, vec![10, 12], 0);
    let (next, notes) = check(&snapshot(55, "The AMG Server", Some("x")), g, &s);
    assert_eq!(notes, vec![Notification::RecoveryAlert]);
    assert!(!next.since_empty);
    assert_eq!(next.previous_request, vec![10, 12, 55]);
    assert_eq!(next.since_player_trigger, 1);
}

#[test]
fn recovery_scenario_without_marker() {
    // Same inputs without the marker: no alert, but the flag still clears.
    let s = statics(123, 20, 5, 50);
    let g = global("g", true, vec![10, 12], 0);
    let (next, notes) = check(&snapshot(55, "The Plain Server", Some("x")), g, &s);
    assert!(notes.is_empty());
    assert!(!next.since_empty);
}

#[test]
fn empty_tracking_sets_flag() {
    let s = statics(123, 20, 5, 50);
    let g = global("g", false, vec![30], 0);
    let (next, notes) = check(&snapshot(3, "Some Server", None), g, &s);
    assert!(notes.is_empty());
    assert!(next.since_empty);
    assert_eq!(next.game_id, "");
}

#[test]
fn preround_scenario() {
    // Full window all below the threshold, current count at it: the
    // pre-round-over alert fires once against the pre-update history.
    let s = statics(123, 20, 2, 50);
    let g = global("g", false, vec![10, 12, 15, 18], 0);
    let (next, notes) = check(&snapshot(25, "Some Server", Some("x")), g, &s);
    assert_eq!(notes, vec![Notification::PreRoundOver]);
    assert_eq!(next.previous_request, vec![12, 15, 18, 25]);
}

#[test]
fn preround_needs_full_window() {
    let s = statics(123, 20, 2, 50);
    let g = global("g", false, vec![10, 12, 15], 0);
    let (next, notes) = check(&snapshot(25, "Some Server", Some("x")), g, &s);
    assert!(notes.is_empty());
    assert_eq!(next.previous_request, vec![10, 12, 15, 25]);
}

#[test]
fn drop_and_recovery_fire_in_order() {
    let s = statics(123, 20, 2, 50);
    let g = global("g", true, vec![80, 75], 30);
    let (next, notes) = check(&snapshot(55, "AMG Host", Some("x")), g, &s);
    assert_eq!(
        notes,
        vec![Notification::DropAlert, Notification::RecoveryAlert]
    );
    assert_eq!(next.since_player_trigger, 0);
    assert!(!next.since_empty);
}

#[test]
fn sentinel_channel_only_carries_game_id() {
    // With the disabled-channel sentinel, arbitrary fluctuating counts
    // never notify and never move the flag, window or cooldown.
    let s = statics(40, 20, 2, 50);
    let mut g = global("start", true, vec![30, 1], 7);
    let counts = [0, 55, 3, 80, 19, 21, 5, 64];
    for (i, &c) in counts.iter().enumerate() {
        let (next, notes) = check(&snapshot(c, "AMG Host", Some(&format!("id{}", i))), g, &s);
        assert!(notes.is_empty());
        assert!(next.since_empty);
        assert_eq!(next.previous_request, vec![30, 1]);
        assert_eq!(next.since_player_trigger, 7);
        assert_eq!(next.game_id, format!("id{}", i));
        g = next;
    }
}

#[test]
fn window_invariant_over_many_cycles() {
    // The window never exceeds 2*amount and evicts strictly FIFO.
    let s = statics(123, 20, 3, 50);
    let mut g = global("", false, Vec::new(), 0);
    let mut model: Vec<i32> = Vec::new();
    let counts = [10, 40, 3, 64, 22, 19, 55, 7, 30, 31, 32, 6, 44, 12];
    for &c in counts.iter() {
        let snap = snapshot(c, "Some Server", None);
        let (next, _) = check(&snap, g, &s);
        if model.len() >= 6 {
            model.remove(0);
        }
        model.push(c);
        assert!(next.previous_request.len() <= 6);
        assert_eq!(next.previous_request, model);
        g = next;
    }
}

#[test]
fn cooldown_counts_cycles_between_drop_alerts() {
    let s = statics(123, 25, 1, 100);
    let mut g = global("", false, vec![60, 60], 0);
    let mut expected = 0;
    for _ in 0..6 {
        let (next, notes) = check(&snapshot(10, "Some Server", None), g, &s);
        if notes.contains(&Notification::DropAlert) {
            expected = 0;
        } else {
            expected += 1;
        }
        assert_eq!(next.since_player_trigger, expected);
        g = next;
    }
    // The high counts left the window before the cooldown matured, so
    // the alert never fires and the counter keeps incrementing.
    assert_eq!(g.since_player_trigger, 6);
    let (after, notes) = check(&snapshot(10, "Some Server", None), g, &s);
    assert!(notes.is_empty());
    assert_eq!(after.since_player_trigger, 7);
}

#[test]
fn rollback_on_failed_cycle() {
    // A cycle that fails leaves the state exactly as it was.
    let prev = global("kept", true, vec![9, 8, 7], 4);
    let restored = resolve_cycle(&prev, Err(MonitorError::UpstreamUnavailable));
    assert_eq!(restored, prev);
}

#[test]
fn successful_cycle_installs_new_state() {
    let prev = global("old", false, vec![1], 0);
    let next = global("new", true, vec![2, 3], 5);
    let installed = resolve_cycle(&prev, Ok(next.clone()));
    assert_eq!(installed, next);
}

#[test]
fn retry_policy_allows_two_attempts() {
    assert!(should_retry(0));
    assert!(should_retry(1));
    assert!(!should_retry(2));
    assert!(!should_retry(3));
}

#[test]
fn cycle_stages_advance_and_fail_to_idle() {
    let mut stage = CycleStage::Idle;
    let order = [
        CycleStage::Fetching,
        CycleStage::Rendering,
        CycleStage::MaybeUpdatingProfile,
        CycleStage::Deciding,
        CycleStage::Idle,
    ];
    for &next in order.iter() {
        stage = stage.next(true);
        assert_eq!(stage, next);
    }
    assert_eq!(CycleStage::Rendering.next(false), CycleStage::Idle);
}

#[test]
fn fatal_and_absorbed_errors() {
    assert!(MonitorError::UpstreamUnavailable.is_fatal());
    assert!(MonitorError::NotFound.is_fatal());
    assert!(MonitorError::DecodeError.is_fatal());
    assert!(MonitorError::RenderFailure.is_fatal());
    assert!(!MonitorError::ProfileUpdateFailure.is_fatal());
    assert!(!MonitorError::DeliveryFailure.is_fatal());
    assert_eq!(MonitorError::NotFound.describe(), "no matching server");
}

#[test]
fn avatar_rate_limit_by_timer_comparison() {
    // With a five-minute interval, a successful update at t=1000 permits
    // the next attempt only from t=1300 on.
    let timer = next_avatar_timer(1000, 5, true);
    assert_eq!(timer, 1300);
    assert!(!update_permitted(timer, 1299));
    assert!(update_permitted(timer, 1300));
}

#[test]
fn avatar_failure_takes_fixed_penalty() {
    // A failure is penalized with the fixed five minutes, not the
    // configured interval.
    assert_eq!(next_avatar_timer(1000, 7, true), 1420);
    assert_eq!(next_avatar_timer(1000, 7, false), 1300);
}

#[test]
fn global_duplicate_is_exact() {
    let g = global("id", true, vec![5, 4, 3], 9);
    assert_eq!(g.duplicate(), g);
}
