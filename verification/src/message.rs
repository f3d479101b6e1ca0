//! Monitor state, configuration, and the trend detector: the pure
//! decision function that one poll cycle applies to the rolling
//! player-count window and that says which notifications fire.

use crate::server_info::ServerInfo;
use crate::text::contains_seq;
use crate::text::str_contains;
use vstd::prelude::*;

verus! {

/// Channel identifier that means "notifications disabled": a cycle then
/// only carries the session identifier forward.
pub const DISABLED_CHANNEL: u64 = 40;

/// Player counts at or below this mark the server as empty.
pub const EMPTY_PLAYER_COUNT: i32 = 5;

/// The game variant being monitored, dispatched once at configuration
/// load; it decides endpoint shapes and which lookups apply.
#[derive(Clone, Debug)]
pub enum GameVariant {
    Tunguska,
    Casablanca,
    Kingston,
    Bf4,
    Other(String),
}

impl GameVariant {
    /// Legacy variants resolve details through a second lookup by
    /// session identifier instead of reading the list entry directly.
    pub open spec fn spec_is_legacy(&self) -> bool {
        match self {
            GameVariant::Tunguska => true,
            GameVariant::Bf4 => true,
            _ => false,
        }
    }

    pub fn is_legacy(&self) -> (r: bool)
        ensures
            r == self.spec_is_legacy(),
    {
        match self {
            GameVariant::Tunguska => true,
            GameVariant::Bf4 => true,
            _ => false,
        }
    }

    /// The path segment the upstream API and the deep link use for this
    /// variant; unknown variants pass their configured name through.
    pub open spec fn spec_slug(&self) -> Seq<char> {
        match self {
            GameVariant::Tunguska => "bf1"@,
            GameVariant::Casablanca => "bfv"@,
            GameVariant::Kingston => "bf2042"@,
            GameVariant::Bf4 => "bf4"@,
            GameVariant::Other(name) => name@,
        }
    }

    pub fn slug(&self) -> (r: &str)
        ensures
            r@ == self.spec_slug(),
    {
        match self {
            GameVariant::Tunguska => "bf1",
            GameVariant::Casablanca => "bfv",
            GameVariant::Kingston => "bf2042",
            GameVariant::Bf4 => "bf4",
            GameVariant::Other(name) => name.as_str(),
        }
    }
}

/// Immutable configuration, fixed for the process lifetime.
#[derive(Clone, Debug)]
pub struct Static {
    pub server_id: Option<String>,
    pub game: GameVariant,
    pub platform: String,
    pub owner_id: Option<String>,
    pub fake_players: bool,
    pub set_banner_image: bool,
    pub server_name: String,
    pub lang: String,
    pub min_player_amount: i32,
    pub amount_of_prev_request: i32,
    pub message_channel: u64,
    pub started_amount: i32,
    pub mins_between_avatar_change: i32,
}

impl Static {
    /// Bounds the window-size setting so that the window length, the
    /// doubled window bound and the quadrupled cooldown bound all fit
    /// the machine arithmetic of a cycle.
    pub open spec fn wf(&self) -> bool {
        1 <= self.amount_of_prev_request && 4 * self.amount_of_prev_request <= i32::MAX
    }
}

/// Mutable monitor state carried from one poll cycle to the next.
#[derive(Clone, Debug, PartialEq)]
pub struct Global {
    pub game_id: String,
    pub since_empty: bool,
    pub previous_request: Vec<i32>,
    pub since_player_trigger: i32,
}

/// Mathematical value of a `Global`: the session identifier, the
/// empty-tracking flag, the rolling window and the cooldown counter.
#[verifier::ext_equal]
pub struct GlobalV {
    pub game_id: Seq<char>,
    pub since_empty: bool,
    pub window: Seq<i32>,
    pub cooldown: int,
}

impl View for Global {
    type V = GlobalV;

    open spec fn view(&self) -> GlobalV {
        GlobalV {
            game_id: self.game_id@,
            since_empty: self.since_empty,
            window: self.previous_request@,
            cooldown: self.since_player_trigger as int,
        }
    }
}

impl Global {
    /// The window invariant: the rolling window never holds more than
    /// twice the configured number of previous requests.
    pub open spec fn wf(&self, s: Static) -> bool {
        self.previous_request@.len() <= 2 * s.amount_of_prev_request
    }

    /// An exact copy, used by the orchestrator to keep a rollback
    /// snapshot of the pre-cycle state.
    pub fn duplicate(&self) -> (r: Global)
        ensures
            r@ == self@,
    {
        let mut window: Vec<i32> = Vec::new();
        let mut i: usize = 0;
        while i < self.previous_request.len()
            invariant
                i <= self.previous_request@.len(),
                window@ == self.previous_request@.subrange(0, i as int),
            decreases self.previous_request@.len() - i,
        {
            window.push(self.previous_request[i]);
            proof {
                assert(window@ =~= self.previous_request@.subrange(0, i + 1));
            }
            i = i + 1;
        }
        proof {
            assert(window@ =~= self.previous_request@);
        }
        let r = Global {
            game_id: self.game_id.clone(),
            since_empty: self.since_empty,
            previous_request: window,
            since_player_trigger: self.since_player_trigger,
        };
        proof {
            assert(r@ =~= self@);
        }
        r
    }
}

/// Notifications the trend detector can fire in one cycle.
#[derive(Clone, Copy, Debug, PartialEq, Eq, Structural)]
pub enum Notification {
    DropAlert,
    RecoveryAlert,
    PreRoundOver,
}

/// Display names containing this marker select the favorites-style
/// image and are the only ones the recovery alert is delivered for.
pub open spec fn special_marker() -> Seq<char> {
    "AMG"@
}

/// Drop alert: some recorded count exceeds the current count by at least
/// the threshold, and the cooldown has run long enough.
pub open spec fn drop_alert_fires(window: Seq<i32>, current: i32, cooldown: int, s: Static) -> bool {
    &&& cooldown > 4 * s.amount_of_prev_request
    &&& exists|i: int| 0 <= i < window.len() && #[trigger] window[i] - current >= s.min_player_amount
}

/// The largest count in the window, over the empty window the smallest
/// machine count (the rules only read it from full, nonempty windows).
pub open spec fn window_max(w: Seq<i32>) -> int
    decreases w.len(),
{
    if w.len() == 0 {
        i32::MIN as int
    } else if w.len() == 1 {
        w[0] as int
    } else {
        let m = window_max(w.drop_last());
        if w.last() >= m {
            w.last() as int
        } else {
            m
        }
    }
}

/// Whether the window already holds a full two-windows-worth of samples,
/// the point at which eviction starts.
pub open spec fn window_full(window: Seq<i32>, s: Static) -> bool {
    window.len() >= 2 * s.amount_of_prev_request
}

/// Empty tracking joined with the recovery condition: the flag the
/// cycle ends with.
pub open spec fn next_since_empty(since_empty: bool, current: i32, s: Static) -> bool {
    if recovery_gate(since_empty, current, s) {
        false
    } else {
        since_empty || current <= EMPTY_PLAYER_COUNT
    }
}

/// The recovery condition: the server was empty and the current
/// count reached the started threshold. Clears the flag whether or not
/// the alert itself is delivered.
pub open spec fn recovery_gate(since_empty: bool, current: i32, s: Static) -> bool {
    (since_empty || current <= EMPTY_PLAYER_COUNT) && current >= s.started_amount
}

/// Recovery alert: an empty server came back up to the started
/// threshold and the display name carries the marker.
pub open spec fn recovery_fires(since_empty: bool, current: i32, name: Seq<char>, s: Static) -> bool {
    recovery_gate(since_empty, current, s) && contains_seq(name, special_marker())
}

/// Pre-round-over alert: the current count reached the threshold while every count
/// still in the full window is below it.
pub open spec fn preround_fires(window: Seq<i32>, current: i32, s: Static) -> bool {
    &&& current >= s.min_player_amount
    &&& window_full(window, s)
    &&& s.min_player_amount > window_max(window)
}

/// Window maintenance: evict the oldest sample once the window is full, then
/// append the current count.
pub open spec fn next_window(window: Seq<i32>, current: i32, s: Static) -> Seq<i32> {
    if window_full(window, s) {
        window.subrange(1, window.len() as int).push(current)
    } else {
        window.push(current)
    }
}

/// The cooldown counter resets to zero exactly when a drop alert fires,
/// and otherwise increments by one.
pub open spec fn next_cooldown(window: Seq<i32>, current: i32, cooldown: int, s: Static) -> int {
    if drop_alert_fires(window, current, cooldown, s) {
        0
    } else {
        cooldown + 1
    }
}

/// The notifications one cycle fires, in delivery order; none when the
/// channel is the disabled sentinel.
pub open spec fn cycle_notifications(g: GlobalV, current: i32, name: Seq<char>, s: Static) -> Seq<
    Notification,
> {
    if s.message_channel == DISABLED_CHANNEL {
        Seq::empty()
    } else {
        (if drop_alert_fires(g.window, current, g.cooldown, s) {
            seq![Notification::DropAlert]
        } else {
            Seq::empty()
        }) + (if recovery_fires(g.since_empty, current, name, s) {
            seq![Notification::RecoveryAlert]
        } else {
            Seq::empty()
        }) + (if preround_fires(g.window, current, s) {
            seq![Notification::PreRoundOver]
        } else {
            Seq::empty()
        })
    }
}

/// The monitor state one cycle ends with: the session identifier is
/// always carried over; with the sentinel channel nothing else moves.
pub open spec fn next_global(g: GlobalV, current: i32, name: Seq<char>, gid: Seq<char>, s: Static) -> GlobalV {
    if s.message_channel == DISABLED_CHANNEL {
        GlobalV { game_id: gid, since_empty: g.since_empty, window: g.window, cooldown: g.cooldown }
    } else {
        GlobalV {
            game_id: gid,
            since_empty: next_since_empty(g.since_empty, current, s),
            window: next_window(g.window, current, s),
            cooldown: next_cooldown(g.window, current, g.cooldown, s),
        }
    }
}

/// The trend detector: applies the five window rules to one fetched
/// snapshot and returns the next monitor state with the notifications
/// to deliver, in order. Pure — delivery belongs to the caller.
pub fn check(status: &ServerInfo, globals: Global, statics: &Static) -> (r: (Global, Vec<
    Notification,
>))
    requires
        statics.wf(),
        globals.wf(*statics),
        globals.since_player_trigger < i32::MAX,
    ensures
        r.0@ == next_global(
            globals@,
            status.detailed.current_players,
            status.detailed.server_name@,
            status.spec_game_id(),
            *statics,
        ),
        r.1@ == cycle_notifications(
            globals@,
            status.detailed.current_players,
            status.detailed.server_name@,
            *statics,
        ),
        r.0.wf(*statics),
{
    let current = status.detailed.current_players;
    let new_game_id = match &status.game_id {
        Some(s) => s.clone(),
        None => String::new(),
    };
    if statics.message_channel == DISABLED_CHANNEL {
        let out = Global {
            game_id: new_game_id,
            since_empty: globals.since_empty,
            previous_request: globals.previous_request,
            since_player_trigger: globals.since_player_trigger,
        };
        proof {
            assert(out@ =~= next_global(
                globals@,
                current,
                status.detailed.server_name@,
                status.spec_game_id(),
                *statics,
            ));
        }
        return (out, Vec::new());
    }
    let ghost g0 = globals@;
    let window_len = globals.previous_request.len();

    // Drop detection over the pre-update window.
    let mut dropped = false;
    let mut i: usize = 0;
    while i < window_len
        invariant
            window_len == globals.previous_request@.len(),
            i <= window_len,
            dropped == exists|j: int|
                0 <= j < i && #[trigger] globals.previous_request@[j] - current
                    >= statics.min_player_amount,
        decreases window_len - i,
    {
        let past = globals.previous_request[i];
        if (past as i64) - (current as i64) >= (statics.min_player_amount as i64) {
            dropped = true;
        }
        i = i + 1;
    }
    let cooldown_ready = (globals.since_player_trigger as i64) > 4 * (
    statics.amount_of_prev_request as i64);
    let fire_drop = dropped && cooldown_ready;
    assert(fire_drop == drop_alert_fires(g0.window, current, g0.cooldown, *statics));

    let mut notes: Vec<Notification> = Vec::new();
    let new_cooldown: i32;
    if fire_drop {
        notes.push(Notification::DropAlert);
        new_cooldown = 0;
    } else {
        new_cooldown = globals.since_player_trigger + 1;
    }

    // Empty tracking and the recovery alert.
    let empty_now = globals.since_empty || current <= EMPTY_PLAYER_COUNT;
    let mut new_since_empty = empty_now;
    if empty_now && current >= statics.started_amount {
        if str_contains(status.detailed.server_name.as_str(), "AMG") {
            notes.push(Notification::RecoveryAlert);
        }
        new_since_empty = false;
    }

    // The pre-round-over alert, judged against the window
    // before the current count is appended.
    let full = (window_len as i64) >= 2 * (statics.amount_of_prev_request as i64);
    assert(full == window_full(g0.window, *statics));
    if current >= statics.min_player_amount && full {
        let mut m = globals.previous_request[0];
        let mut k: usize = 1;
        while k < window_len
            invariant
                window_len == globals.previous_request@.len(),
                1 <= k <= window_len,
                m as int == window_max(globals.previous_request@.subrange(0, k as int)),
            decreases window_len - k,
        {
            let past = globals.previous_request[k];
            proof {
                let w = globals.previous_request@;
                assert(w.subrange(0, k + 1).drop_last() =~= w.subrange(0, k as int));
                assert(w.subrange(0, k + 1).last() == w[k as int]);
            }
            if past >= m {
                m = past;
            }
            k = k + 1;
        }
        proof {
            assert(globals.previous_request@.subrange(0, window_len as int)
                =~= globals.previous_request@);
        }
        if (statics.min_player_amount as i64) > (m as i64) {
            notes.push(Notification::PreRoundOver);
        }
    }

    // Window maintenance, eviction strictly before insertion.
    let mut new_window = globals.previous_request;
    if full {
        new_window.remove(0);
        proof {
            assert(g0.window.remove(0) =~= g0.window.subrange(1, g0.window.len() as int));
        }
    }
    new_window.push(current);

    let out = Global {
        game_id: new_game_id,
        since_empty: new_since_empty,
        previous_request: new_window,
        since_player_trigger: new_cooldown,
    };
    proof {
        assert(out@ =~= next_global(
            g0,
            current,
            status.detailed.server_name@,
            status.spec_game_id(),
            *statics,
        ));
        assert(notes@ =~= cycle_notifications(g0, current, status.detailed.server_name@, *statics));
    }
    (out, notes)
}

/// The inputs one cycle draws from its fetched snapshot, for stating
/// laws over whole runs of the detector.
pub struct CycleInput {
    pub current: i32,
    pub name: Seq<char>,
    pub game_id: Seq<char>,
}

/// The monitor state after running the detector over a sequence of
/// cycles, each fed the matching input.
pub open spec fn run_cycles(g: GlobalV, inputs: Seq<CycleInput>, s: Static) -> GlobalV
    decreases inputs.len(),
{
    if inputs.len() == 0 {
        g
    } else {
        run_cycles(
            next_global(g, inputs[0].current, inputs[0].name, inputs[0].game_id, s),
            inputs.drop_first(),
            s,
        )
    }
}

/// Window invariant: over any run of cycles the rolling window never
/// grows past twice the configured number of previous requests.
pub proof fn lemma_window_invariant(g: GlobalV, inputs: Seq<CycleInput>, s: Static)
    requires
        s.wf(),
        g.window.len() <= 2 * s.amount_of_prev_request,
    ensures
        run_cycles(g, inputs, s).window.len() <= 2 * s.amount_of_prev_request,
    decreases inputs.len(),
{
    if inputs.len() > 0 {
        let g1 = next_global(g, inputs[0].current, inputs[0].name, inputs[0].game_id, s);
        assert(g1.window.len() <= 2 * s.amount_of_prev_request);
        lemma_window_invariant(g1, inputs.drop_first(), s);
    }
}

/// Eviction is strictly first-in-first-out: a full window loses exactly
/// its oldest sample, every other sample keeps its order, and the
/// current count lands at the back.
pub proof fn lemma_window_fifo(g: GlobalV, current: i32, name: Seq<char>, gid: Seq<char>, s: Static)
    requires
        s.wf(),
        s.message_channel != DISABLED_CHANNEL,
    ensures
        ({
            let w = next_global(g, current, name, gid, s).window;
            &&& w.last() == current
            &&& window_full(g.window, s) ==> w.len() == g.window.len() && (forall|k: int|
                0 <= k < g.window.len() - 1 ==> w[k] == g.window[k + 1])
            &&& !window_full(g.window, s) ==> w.len() == g.window.len() + 1 && (forall|k: int|
                0 <= k < g.window.len() ==> w[k] == g.window[k])
        }),
{
    let w = next_global(g, current, name, gid, s).window;
    if window_full(g.window, s) {
        let tail = g.window.subrange(1, g.window.len() as int);
        assert forall|k: int| 0 <= k < g.window.len() - 1 implies w[k] == g.window[k + 1] by {
            assert(w[k] == tail[k]);
        }
    }
}

/// Cooldown monotonicity: in an enabled cycle the counter resets to
/// zero exactly when the drop alert fires, and otherwise increments by
/// exactly one.
pub proof fn lemma_cooldown_step(g: GlobalV, current: i32, name: Seq<char>, gid: Seq<char>, s: Static)
    requires
        s.message_channel != DISABLED_CHANNEL,
    ensures
        ({
            let fired = cycle_notifications(g, current, name, s).contains(Notification::DropAlert);
            let after = next_global(g, current, name, gid, s).cooldown;
            &&& fired ==> after == 0
            &&& !fired ==> after == g.cooldown + 1
        }),
{
    let notes = cycle_notifications(g, current, name, s);
    if drop_alert_fires(g.window, current, g.cooldown, s) {
        assert(notes[0] == Notification::DropAlert);
        assert(notes.contains(Notification::DropAlert));
    } else {
        assert(!notes.contains(Notification::DropAlert)) by {
            assert(forall|k: int| 0 <= k < notes.len() ==> notes[k] != Notification::DropAlert);
        }
    }
}

/// With the channel set to the disabled sentinel no cycle fires any
/// notification, whatever the counts do.
pub proof fn lemma_sentinel_silent(g: GlobalV, current: i32, name: Seq<char>, s: Static)
    requires
        s.message_channel == DISABLED_CHANNEL,
    ensures
        cycle_notifications(g, current, name, s) == Seq::<Notification>::empty(),
{
}

/// With the channel set to the disabled sentinel, any run of cycles
/// with arbitrary fluctuating counts leaves the empty-tracking flag,
/// the window and the cooldown counter exactly as they were.
pub proof fn lemma_sentinel_idempotent(g: GlobalV, inputs: Seq<CycleInput>, s: Static)
    requires
        s.message_channel == DISABLED_CHANNEL,
    ensures
        run_cycles(g, inputs, s).since_empty == g.since_empty,
        run_cycles(g, inputs, s).window == g.window,
        run_cycles(g, inputs, s).cooldown == g.cooldown,
    decreases inputs.len(),
{
    if inputs.len() > 0 {
        let g1 = next_global(g, inputs[0].current, inputs[0].name, inputs[0].game_id, s);
        lemma_sentinel_idempotent(g1, inputs.drop_first(), s);
    }
}

} // verus!
