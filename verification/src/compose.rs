//! Verified composition of the user-visible text a cycle produces: the
//! presence line, the notification embed's pieces, the deep link into
//! the server browser, and the annotated-image file names.

use crate::message::GameVariant;
use crate::message::Notification;
use crate::message::Static;
use crate::message::special_marker;
use crate::server_info::DetailedInfo;
use crate::text::contains_char;
use crate::text::contains_seq;
use crate::text::str_contains;
use crate::text::str_contains_char;
use vstd::prelude::*;

verus! {

/// The decimal digit character for `d`.
pub open spec fn digit_char(d: int) -> char {
    if d == 0 {
        '0'
    } else if d == 1 {
        '1'
    } else if d == 2 {
        '2'
    } else if d == 3 {
        '3'
    } else if d == 4 {
        '4'
    } else if d == 5 {
        '5'
    } else if d == 6 {
        '6'
    } else if d == 7 {
        '7'
    } else if d == 8 {
        '8'
    } else {
        '9'
    }
}

/// The decimal digits of a nonnegative number, most significant first.
pub open spec fn spec_udec(n: int) -> Seq<char>
    decreases n,
{
    if n < 10 {
        seq![digit_char(n)]
    } else {
        spec_udec(n / 10).push(digit_char(n % 10))
    }
}

/// The decimal rendering of a number, with a sign for negative ones.
pub open spec fn spec_dec(n: int) -> Seq<char> {
    if n < 0 {
        seq!['-'] + spec_udec(-n)
    } else {
        spec_udec(n)
    }
}

/// The one-character string for a decimal digit.
fn digit_str(d: u64) -> (r: &'static str)
    requires
        d < 10,
    ensures
        r@ == seq![digit_char(d as int)],
{
    proof {
        reveal_strlit("0");
        reveal_strlit("1");
        reveal_strlit("2");
        reveal_strlit("3");
        reveal_strlit("4");
        reveal_strlit("5");
        reveal_strlit("6");
        reveal_strlit("7");
        reveal_strlit("8");
        reveal_strlit("9");
    }
    if d == 0 {
        assert("0"@ =~= seq![digit_char(0int)]);
        "0"
    } else if d == 1 {
        assert("1"@ =~= seq![digit_char(1int)]);
        "1"
    } else if d == 2 {
        assert("2"@ =~= seq![digit_char(2int)]);
        "2"
    } else if d == 3 {
        assert("3"@ =~= seq![digit_char(3int)]);
        "3"
    } else if d == 4 {
        assert("4"@ =~= seq![digit_char(4int)]);
        "4"
    } else if d == 5 {
        assert("5"@ =~= seq![digit_char(5int)]);
        "5"
    } else if d == 6 {
        assert("6"@ =~= seq![digit_char(6int)]);
        "6"
    } else if d == 7 {
        assert("7"@ =~= seq![digit_char(7int)]);
        "7"
    } else if d == 8 {
        assert("8"@ =~= seq![digit_char(8int)]);
        "8"
    } else {
        assert("9"@ =~= seq![digit_char(9int)]);
        "9"
    }
}

/// Renders a nonnegative number in decimal.
pub fn u64_to_string(n: u64) -> (r: String)
    ensures
        r@ == spec_udec(n as int),
    decreases n,
{
    if n < 10 {
        String::from_str(digit_str(n))
    } else {
        let mut s = u64_to_string(n / 10);
        s.append(digit_str(n % 10));
        proof {
            assert(s@ =~= spec_udec(n as int / 10).push(digit_char(n as int % 10)));
        }
        s
    }
}

/// Renders a signed count in decimal.
pub fn i32_to_string(n: i32) -> (r: String)
    ensures
        r@ == spec_dec(n as int),
{
    if n >= 0 {
        u64_to_string(n as u64)
    } else {
        let magnitude = -(n as i64);
        let mut s = String::from_str("-");
        proof {
            reveal_strlit("-");
            assert("-"@ =~= seq!['-']);
        }
        s.append(u64_to_string(magnitude as u64).as_str());
        s
    }
}

/// The queue length a snapshot reports, an absent field reading as zero.
pub open spec fn spec_queue(q: Option<i32>) -> i32 {
    match q {
        Some(v) => v,
        None => 0,
    }
}

/// The presence line for one snapshot: players over capacity, the queue
/// length in brackets when anyone queues, and the running map.
pub open spec fn spec_status_line(current: i32, max: i32, que: i32, map: Seq<char>) -> Seq<char> {
    if que == 0 {
        spec_dec(current as int) + "/"@ + spec_dec(max as int) + " - "@ + map
    } else {
        spec_dec(current as int) + "/"@ + spec_dec(max as int) + " ["@ + spec_dec(que as int)
            + "] - "@ + map
    }
}

/// Builds the presence line from a detail record.
pub fn status_line(detailed: &DetailedInfo) -> (r: String)
    ensures
        r@ == spec_status_line(
            detailed.current_players,
            detailed.max_players,
            spec_queue(detailed.in_que),
            detailed.server_map@,
        ),
{
    let que = match detailed.in_que {
        Some(v) => v,
        None => 0,
    };
    let mut s = i32_to_string(detailed.current_players);
    s.append("/");
    let max_part = i32_to_string(detailed.max_players);
    s.append(max_part.as_str());
    if que == 0 {
        s.append(" - ");
    } else {
        s.append(" [");
        let que_part = i32_to_string(que);
        s.append(que_part.as_str());
        s.append("] - ");
    }
    s.append(detailed.server_map.as_str());
    s
}

/// The presence text when no snapshot could be fetched this cycle.
pub open spec fn spec_missing_presence() -> Seq<char> {
    "\u{af}\\_(\u{30c4})_/\u{af} server not found"@
}

/// The presence text a cycle publishes: the status line of the fetched
/// snapshot, or the not-found shrug when the fetch failed.
pub fn presence_text(fetched: Option<&DetailedInfo>) -> (r: String)
    ensures
        r@ == match fetched {
            Some(d) => spec_status_line(
                d.current_players,
                d.max_players,
                spec_queue(d.in_que),
                d.server_map@,
            ),
            None => spec_missing_presence(),
        },
{
    match fetched {
        Some(d) => status_line(d),
        None => String::from_str("\u{af}\\_(\u{30c4})_/\u{af} server not found"),
    }
}

/// The identifier kind the deep link passes: newer variants link by
/// static server identifier, addresses with a port link by address, and
/// everything else links by the opaque session identifier.
pub open spec fn spec_gather_type(s: Static, game_id: Seq<char>) -> Seq<char> {
    match s.game {
        GameVariant::Kingston => "serverid"@,
        _ => if contains_char(game_id, ':') {
            "serverip"@
        } else {
            "gameid"@
        },
    }
}

/// The deep link a notification embeds, built from the variant's slug,
/// the identifier kind, the session identifier and the platform.
pub open spec fn spec_server_link(s: Static, game_id: Seq<char>) -> Seq<char> {
    "https://gametools.network/servers/"@ + s.game.spec_slug() + "/"@ + spec_gather_type(
        s,
        game_id,
    ) + "/"@ + game_id + "/"@ + s.platform@
}

/// Builds the deep link for one notification.
pub fn server_link(statics: &Static, game_id: &String) -> (r: String)
    ensures
        r@ == spec_server_link(*statics, game_id@),
{
    let gather_type: &str = match &statics.game {
        GameVariant::Kingston => "serverid",
        _ => {
            if str_contains_char(game_id.as_str(), ':') {
                "serverip"
            } else {
                "gameid"
            }
        },
    };
    let mut s = String::from_str("https://gametools.network/servers/");
    s.append(statics.game.slug());
    s.append("/");
    s.append(gather_type);
    s.append("/");
    s.append(game_id.as_str());
    s.append("/");
    s.append(statics.platform.as_str());
    s
}

/// The footer every notification carries, naming the drop threshold and
/// the span of minutes the window covers.
pub open spec fn spec_footer(s: Static) -> Seq<char> {
    "player threshold set to "@ + spec_dec(s.min_player_amount as int)
        + " players, checks difference of previous "@ + spec_dec(2 * s.amount_of_prev_request)
        + " minutes and in-between"@
}

/// Builds the notification footer.
pub fn footer_text(statics: &Static) -> (r: String)
    requires
        statics.wf(),
    ensures
        r@ == spec_footer(*statics),
{
    let mut s = String::from_str("player threshold set to ");
    let min_part = i32_to_string(statics.min_player_amount);
    s.append(min_part.as_str());
    s.append(" players, checks difference of previous ");
    let span_part = i32_to_string(2 * statics.amount_of_prev_request);
    s.append(span_part.as_str());
    s.append(" minutes and in-between");
    s
}

impl Notification {
    /// The embed title for this notification.
    pub open spec fn spec_title(&self) -> Seq<char> {
        match self {
            Notification::DropAlert => "I'm low on players! Join me now!"@,
            Notification::RecoveryAlert => "I'm up and running!"@,
            Notification::PreRoundOver => "Pre-round is over!"@,
        }
    }

    pub fn title(&self) -> (r: &'static str)
        ensures
            r@ == self.spec_title(),
    {
        match self {
            Notification::DropAlert => "I'm low on players! Join me now!",
            Notification::RecoveryAlert => "I'm up and running!",
            Notification::PreRoundOver => "Pre-round is over!",
        }
    }

    /// The line the embed description opens with, before the status line.
    pub open spec fn spec_description_lead(&self) -> Seq<char> {
        match self {
            Notification::DropAlert => "Perfect time to join without queue!\n"@,
            Notification::RecoveryAlert => "Feeling good :slight_smile:\n"@,
            Notification::PreRoundOver => "No more waiting. If you join now you can instantly play.\n"@,
        }
    }

    /// Builds the embed description: the notification's lead line over
    /// the snapshot's status line.
    pub fn description(&self, detailed: &DetailedInfo) -> (r: String)
        ensures
            r@ == self.spec_description_lead() + spec_status_line(
                detailed.current_players,
                detailed.max_players,
                spec_queue(detailed.in_que),
                detailed.server_map@,
            ),
    {
        let mut s = match self {
            Notification::DropAlert => String::from_str("Perfect time to join without queue!\n"),
            Notification::RecoveryAlert => String::from_str("Feeling good :slight_smile:\n"),
            Notification::PreRoundOver => String::from_str(
                "No more waiting. If you join now you can instantly play.\n",
            ),
        };
        let line = status_line(detailed);
        s.append(line.as_str());
        s
    }
}

/// The annotated image a display name selects: the favorites-only
/// variant for names carrying the marker, else the general info image.
pub open spec fn spec_image_name(name: Seq<char>) -> Seq<char> {
    if contains_seq(name, special_marker()) {
        "only_favorites_image.jpg"@
    } else {
        "info_image.jpg"@
    }
}

/// Picks the annotated image file for a display name.
pub fn image_name(server_name: &String) -> (r: &'static str)
    ensures
        r@ == spec_image_name(server_name@),
{
    if str_contains(server_name.as_str(), "AMG") {
        "only_favorites_image.jpg"
    } else {
        "info_image.jpg"
    }
}

} // verus!
