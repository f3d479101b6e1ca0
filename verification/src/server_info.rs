//! Status snapshots fetched from the upstream game-status API, and the
//! verified selection logic that picks the monitored server out of a
//! search result and normalizes it into one `ServerInfo` per cycle.

use crate::cycle::MonitorError;
use crate::message::GameVariant;
use crate::message::Static;
use vstd::prelude::*;

verus! {

/// One entry of the upstream search endpoint's result list, already
/// decoded into plain values.
#[derive(Clone, Debug, PartialEq)]
pub struct MainInfo {
    pub current_players: i32,
    pub max_players: i32,
    pub in_que: Option<i32>,
    pub small_mode: String,
    pub server_map: Option<String>,
    pub map: Option<String>,
    pub map_url: Option<String>,
    pub map_image: Option<String>,
    pub map_mode: Option<String>,
    pub server_name: String,
    pub region: Option<String>,
    pub game_id: Option<String>,
    pub owner_id: Option<String>,
    pub server_id: Option<String>,
}

/// The normalized detail record every cycle works with, whether it came
/// from the detailed-lookup endpoint or was derived from a list entry.
#[derive(Clone, Debug, PartialEq)]
pub struct DetailedInfo {
    pub current_players: i32,
    pub max_players: i32,
    pub in_que: Option<i32>,
    pub small_mode: String,
    pub server_name: String,
    pub server_map: String,
    pub map_url: String,
    pub map_mode: String,
    pub region: String,
    pub favorites: String,
    pub fake_players: Option<i32>,
}

/// The immutable snapshot one poll cycle produces and consumes.
#[derive(Clone, Debug, PartialEq)]
pub struct ServerInfo {
    pub game_id: Option<String>,
    pub detailed: DetailedInfo,
}

impl ServerInfo {
    /// The session identifier this snapshot carries into the next state,
    /// an absent identifier reading as the empty string.
    pub open spec fn spec_game_id(&self) -> Seq<char> {
        match self.game_id {
            Some(s) => s@,
            None => Seq::empty(),
        }
    }
}

/// An absent optional field reads as the empty string, as the upstream
/// payloads leave identifier fields out rather than sending them empty.
pub open spec fn opt_str_view(o: Option<String>) -> Seq<char> {
    match o {
        Some(s) => s@,
        None => Seq::empty(),
    }
}

/// The first field when present, else the second, else empty: how a
/// list entry's paired map fields collapse into one.
pub open spec fn first_or_second(a: Option<String>, b: Option<String>) -> Seq<char> {
    match a {
        Some(s) => s@,
        None => opt_str_view(b),
    }
}

/// Owner-based selection applies when an owning account is configured
/// and the variant's list entries carry owner identifiers.
pub open spec fn owner_search_applies(s: Static) -> bool {
    &&& s.owner_id matches Some(_)
    &&& !s.game.spec_is_legacy()
}

/// Whether one list entry is the configured target: by owning account
/// when that applies, else by static server identifier when configured,
/// else every entry qualifies and the first one wins.
pub open spec fn entry_matches(m: MainInfo, s: Static) -> bool {
    if owner_search_applies(s) {
        opt_str_view(m.owner_id) == opt_str_view(s.owner_id)
    } else if s.server_id matches Some(_) {
        opt_str_view(m.server_id) == opt_str_view(s.server_id)
    } else {
        true
    }
}

/// Compares an optional identifier field against a configured value,
/// an absent field reading as the empty string.
fn opt_str_eq(field: &Option<String>, wanted: &String) -> (r: bool)
    ensures
        r == (opt_str_view(*field) == wanted@),
{
    match field {
        Some(s) => *s == *wanted,
        None => {
            let r = wanted.as_str().unicode_len() == 0;
            proof {
                if wanted@.len() == 0 {
                    assert(Seq::<char>::empty() =~= wanted@);
                }
            }
            r
        },
    }
}

/// Whether one list entry is the configured target; see `entry_matches`.
fn matches_entry(m: &MainInfo, statics: &Static) -> (r: bool)
    ensures
        r == entry_matches(*m, *statics),
{
    let legacy = statics.game.is_legacy();
    match (&statics.owner_id, legacy) {
        (Some(owner), false) => opt_str_eq(&m.owner_id, owner),
        _ => match &statics.server_id {
            Some(sid) => opt_str_eq(&m.server_id, sid),
            None => true,
        },
    }
}

/// Selects the target server from the search result: the first entry
/// matching the configured identity, ties broken by list order.
pub fn select_server(servers: &Vec<MainInfo>, statics: &Static) -> (r: Option<usize>)
    ensures
        match r {
            Some(i) => i < servers@.len() && entry_matches(servers@[i as int], *statics)
                && (forall|j: int| 0 <= j < i ==> !#[trigger] entry_matches(servers@[j], *statics)),
            None => forall|j: int|
                0 <= j < servers@.len() ==> !#[trigger] entry_matches(servers@[j], *statics),
        },
{
    let mut i: usize = 0;
    while i < servers.len()
        invariant
            i <= servers@.len(),
            forall|j: int| 0 <= j < i ==> !#[trigger] entry_matches(servers@[j], *statics),
        decreases servers@.len() - i,
    {
        if matches_entry(&servers[i], statics) {
            return Some(i);
        }
        i = i + 1;
    }
    None
}

/// The session identifier to use this cycle: the selected entry's when a
/// server was found, else the previously known one, kept so presence
/// text stays meaningful through failed resolutions.
pub fn resolve_game_id(selected: Option<&MainInfo>, previous: &String) -> (r: String)
    ensures
        r@ == match selected {
            Some(m) => opt_str_view(m.game_id),
            None => previous@,
        },
{
    match selected {
        Some(m) => match &m.game_id {
            Some(g) => g.clone(),
            None => String::new(),
        },
        None => previous.clone(),
    }
}

/// How a detail record derived from a list entry relates to that entry,
/// field for field.
pub open spec fn detail_matches_main(d: DetailedInfo, m: MainInfo) -> bool {
    &&& d.current_players == m.current_players
    &&& d.max_players == m.max_players
    &&& d.in_que == m.in_que
    &&& d.small_mode@ == m.small_mode@
    &&& d.server_name@ == m.server_name@
    &&& d.server_map@ == first_or_second(m.server_map, m.map)
    &&& d.map_url@ == first_or_second(m.map_url, m.map_image)
    &&& d.map_mode@ == opt_str_view(m.map_mode)
    &&& d.region@ == opt_str_view(m.region)
    &&& d.favorites@ == "0"@
    &&& d.fake_players == Some(0i32)
}

/// Derives the detail record straight from a list entry, as the newer
/// variants allow; absent optional fields fall back to their paired
/// fields or to empty values.
pub fn detail_from_main(payload: MainInfo) -> (r: DetailedInfo)
    ensures
        detail_matches_main(r, payload),
{
    DetailedInfo {
        current_players: payload.current_players,
        max_players: payload.max_players,
        in_que: payload.in_que,
        small_mode: payload.small_mode,
        server_name: payload.server_name,
        server_map: match payload.server_map {
            Some(map_name) => map_name,
            None => match payload.map {
                Some(other_name) => other_name,
                None => String::new(),
            },
        },
        map_url: match payload.map_url {
            Some(url) => url,
            None => match payload.map_image {
                Some(other_url) => other_url,
                None => String::new(),
            },
        },
        map_mode: match payload.map_mode {
            Some(mode) => mode,
            None => String::new(),
        },
        region: match payload.region {
            Some(region) => region,
            None => String::new(),
        },
        favorites: String::from_str("0"),
        fake_players: Some(0),
    }
}

/// The player count a cycle works with: the no-bots count substituted
/// for the real one when the legacy variant is configured to mask
/// bot-only test servers.
pub open spec fn spec_cycle_count(d: DetailedInfo, s: Static) -> i32 {
    if s.game matches GameVariant::Bf4 && s.fake_players {
        match d.fake_players {
            Some(f) => f,
            None => 0,
        }
    } else {
        d.current_players
    }
}

/// Applies the fake-player substitution to a detail record fetched for
/// a legacy variant; every other field passes through unchanged.
pub fn apply_fake_players(detailed: DetailedInfo, statics: &Static) -> (r: DetailedInfo)
    ensures
        r.current_players == spec_cycle_count(detailed, *statics),
        r.max_players == detailed.max_players,
        r.in_que == detailed.in_que,
        r.small_mode == detailed.small_mode,
        r.server_name == detailed.server_name,
        r.server_map == detailed.server_map,
        r.map_url == detailed.map_url,
        r.map_mode == detailed.map_mode,
        r.region == detailed.region,
        r.favorites == detailed.favorites,
        r.fake_players == detailed.fake_players,
{
    let substitute = match &statics.game {
        GameVariant::Bf4 => statics.fake_players,
        _ => false,
    };
    let current = if substitute {
        match detailed.fake_players {
            Some(f) => f,
            None => 0,
        }
    } else {
        detailed.current_players
    };
    DetailedInfo {
        current_players: current,
        max_players: detailed.max_players,
        in_que: detailed.in_que,
        small_mode: detailed.small_mode,
        server_name: detailed.server_name,
        server_map: detailed.server_map,
        map_url: detailed.map_url,
        map_mode: detailed.map_mode,
        region: detailed.region,
        favorites: detailed.favorites,
        fake_players: detailed.fake_players,
    }
}

/// Assembles the snapshot for the newer variants, whose detail record
/// comes straight from the selected list entry; with nothing selected
/// the list gave nothing the entry decoder could read, and the cycle
/// fails with a decode error.
pub fn direct_status(selected: Option<MainInfo>, previous_game_id: &String) -> (r: Result<
    ServerInfo,
    MonitorError,
>)
    ensures
        match selected {
            None => r == Result::<ServerInfo, MonitorError>::Err(MonitorError::DecodeError),
            Some(m) => {
                &&& r matches Ok(info)
                &&& info.game_id matches Some(g) && g@ == opt_str_view(m.game_id)
                &&& detail_matches_main(info.detailed, m)
            },
        },
{
    match selected {
        None => Err(MonitorError::DecodeError),
        Some(m) => {
            let gid = match &m.game_id {
                Some(g) => g.clone(),
                None => String::new(),
            };
            Ok(ServerInfo { game_id: Some(gid), detailed: detail_from_main(m) })
        },
    }
}

/// Assembles the snapshot for the legacy variants from the detail
/// lookup's record and the resolved session identifier, applying the
/// fake-player substitution.
pub fn legacy_status(detailed: DetailedInfo, game_id: String, statics: &Static) -> (r: ServerInfo)
    ensures
        r.game_id matches Some(g) && g@ == game_id@,
        r.detailed.current_players == spec_cycle_count(detailed, *statics),
        r.detailed.server_name == detailed.server_name,
        r.detailed.max_players == detailed.max_players,
        r.detailed.in_que == detailed.in_que,
        r.detailed.small_mode == detailed.small_mode,
        r.detailed.server_map == detailed.server_map,
        r.detailed.map_url == detailed.map_url,
        r.detailed.map_mode == detailed.map_mode,
        r.detailed.region == detailed.region,
        r.detailed.favorites == detailed.favorites,
        r.detailed.fake_players == detailed.fake_players,
{
    ServerInfo { game_id: Some(game_id), detailed: apply_fake_players(detailed, statics) }
}

} // verus!
