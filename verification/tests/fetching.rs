use server_monitor::cycle::MonitorError;
use server_monitor::message::{GameVariant, Static};
use server_monitor::server_info::{
    apply_fake_players, detail_from_main, direct_status, legacy_status, resolve_game_id,
    select_server, DetailedInfo, MainInfo,
};

fn statics_with(game: GameVariant, owner_id: Option<&str>, server_id: Option<&str>) -> Static {
    Static {
        server_id: server_id.map(|s| s.to_string()),
        game,
        platform: "pc".to_string(),
        owner_id: owner_id.map(|s| s.to_string()),
        fake_players: false,
        set_banner_image: true,
        server_name: "Test Server".to_string(),
        lang: "en-us".to_string(),
        min_player_amount: 20,
        amount_of_prev_request: 5,
        message_channel: 123,
        started_amount: 50,
        mins_between_avatar_change: 1,
    }
}

fn entry(owner_id: Option<&str>, server_id: Option<&str>, game_id: Option<&str>) -> MainInfo {
    MainInfo {
        current_players: 30,
        max_players: 64,
        in_que: Some(2),
        small_mode: "CQ".to_string(),
        server_map: Some("Amiens".to_string()),
        map: None,
        map_url: Some("http://img".to_string()),
        map_image: None,
        map_mode: Some("Conquest".to_string()),
        server_name: "Host".to_string(),
        region: Some("EU".to_string()),
        game_id: game_id.map(|s| s.to_string()),
        owner_id: owner_id.map(|s| s.to_string()),
        server_id: server_id.map(|s| s.to_string()),
    }
}

#[test]
fn selects_first_owner_match_on_newer_variants() {
    let s = statics_with(GameVariant::Kingston, Some("own1"), None);
    let servers = vec![
        entry(Some("other"), None, Some("a")),
        entry(Some("own1"), None, Some("b")),
        entry(Some("own1"), None, Some("c")),
    ];
    assert_eq!(select_server(&servers, &s), Some(1));
}

#[test]
fn owner_search_does_not_apply_to_legacy_variants() {
    // A legacy variant ignores the configured owner and falls back to
    // the static server identifier.
    let s = statics_with(GameVariant::Tunguska, Some("own1"), Some("guid2"));
    let servers = vec![
        entry(Some("own1"), Some("guid1"), Some("a")),
        entry(None, Some("guid2"), Some("b")),
    ];
    assert_eq!(select_server(&servers, &s), Some(1));
}

#[test]
fn falls_back_to_first_entry_without_identity() {
    let s = statics_with(GameVariant::Casablanca, None, None);
    let servers = vec![entry(None, None, Some("a")), entry(None, None, Some("b"))];
    assert_eq!(select_server(&servers, &s), Some(0));
    assert_eq!(select_server(&Vec::new(), &s), None);
}

#[test]
fn no_match_selects_nothing() {
    let s = statics_with(GameVariant::Kingston, Some("own1"), None);
    let servers = vec![entry(Some("other"), None, Some("a"))];
    assert_eq!(select_server(&servers, &s), None);
}

#[test]
fn game_id_carries_forward_when_nothing_selected() {
    let previous = "old-id".to_string();
    assert_eq!(resolve_game_id(None, &previous), "old-id");
    let m = entry(None, None, Some("fresh"));
    assert_eq!(resolve_game_id(Some(&m), &previous), "fresh");
    let bare = entry(None, None, None);
    assert_eq!(resolve_game_id(Some(&bare), &previous), "");
}

#[test]
fn detail_derivation_uses_paired_fallbacks() {
    let mut m = entry(None, None, Some("g"));
    m.server_map = None;
    m.map = Some("Arras".to_string());
    m.map_url = None;
    m.map_image = Some("img2".to_string());
    m.map_mode = None;
    m.region = None;
    let d = detail_from_main(m.clone());
    assert_eq!(d.current_players, 30);
    assert_eq!(d.max_players, 64);
    assert_eq!(d.in_que, Some(2));
    assert_eq!(d.server_map, "Arras");
    assert_eq!(d.map_url, "img2");
    assert_eq!(d.map_mode, "");
    assert_eq!(d.region, "");
    assert_eq!(d.favorites, "0");
    assert_eq!(d.fake_players, Some(0));
}

#[test]
fn direct_status_fails_without_selection() {
    let previous = "prev".to_string();
    assert_eq!(
        direct_status(None, &previous),
        Err(MonitorError::DecodeError)
    );
    let info = direct_status(Some(entry(None, None, Some("g7"))), &previous).unwrap();
    assert_eq!(info.game_id, Some("g7".to_string()));
    assert_eq!(info.detailed.server_name, "Host");
}

fn detailed(current: i32, fake: Option<i32>) -> DetailedInfo {
    DetailedInfo {
        current_players: current,
        max_players: 64,
        in_que: Some(0),
        small_mode: "CQ".to_string(),
        server_name: "Host".to_string(),
        server_map: "Amiens".to_string(),
        map_url: "url".to_string(),
        map_mode: "Conquest".to_string(),
        region: "EU".to_string(),
        favorites: "3".to_string(),
        fake_players: fake,
    }
}

#[test]
fn fake_players_substitute_only_for_configured_legacy_variant() {
    let mut s = statics_with(GameVariant::Bf4, None, None);
    s.fake_players = true;
    assert_eq!(apply_fake_players(detailed(40, Some(7)), &s).current_players, 7);
    assert_eq!(apply_fake_players(detailed(40, None), &s).current_players, 0);

    s.fake_players = false;
    assert_eq!(apply_fake_players(detailed(40, Some(7)), &s).current_players, 40);

    let mut t = statics_with(GameVariant::Tunguska, None, None);
    t.fake_players = true;
    assert_eq!(apply_fake_players(detailed(40, Some(7)), &t).current_players, 40);
}

#[test]
fn legacy_status_keeps_resolved_identifier() {
    let mut s = statics_with(GameVariant::Bf4, None, None);
    s.fake_players = true;
    let info = legacy_status(detailed(40, Some(9)), "sess".to_string(), &s);
    assert_eq!(info.game_id, Some("sess".to_string()));
    assert_eq!(info.detailed.current_players, 9);
    assert_eq!(info.detailed.favorites, "3");
}
