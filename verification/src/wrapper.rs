//! A thin read-only view over a decoded replay: dotted-path access to
//! header scalars and properties, and the basic response object assembled
//! from them.

use vstd::prelude::*;

use crate::numfmt::{
    i64_to_string, millis_to_string, spec_i64_string, spec_millis_string, spec_u64_string,
    u64_to_string,
};
use crate::props::{spec_lookup, PropValue};
use crate::replay::Replay;
use crate::stamp::{fresh_id, now_rfc3339};

verus! {

/// The processing state of a replay.
#[allow(non_camel_case_types)]
pub enum ReplayStatus {
    ok,
    processing,
    failed,
}

/// A player's platform identity.
pub struct PlayerId {
    pub platform: String,
    pub id: String,
}

/// Core counters of a player; the percentage is rounded to a whole number.
pub struct CoreStats {
    pub shots: i32,
    pub goals: i32,
    pub saves: i32,
    pub assists: i32,
    pub score: i32,
    pub mvp: bool,
    pub shooting_percentage: u32,
}

/// Boost statistics; a placeholder, always zero.
pub struct BoostStats {
    pub bpm: u32,
}

/// Demolition statistics; a placeholder, always zero.
pub struct DemoStats {
    pub inflicted: i32,
    pub taken: i32,
}

/// A player's stats block.
pub struct Stats {
    pub core: CoreStats,
    pub boost: BoostStats,
    pub demo: DemoStats,
}

/// A resolved player of the basic response.
pub struct Player {
    pub name: String,
    pub id: PlayerId,
    pub car_id: i32,
    pub car_name: String,
    pub status: Stats,
}

/// A team of the basic response.
pub struct Team {
    pub color: String,
    pub name: String,
    pub players: Vec<Player>,
}

/// The basic response: header fields only, no team breakdown. Numeric
/// fields are fixed point, in thousandths.
pub struct ReplayResponse {
    pub id: Option<String>,
    pub created: Option<String>,
    pub status: Option<ReplayStatus>,
    pub rocket_league_id: Option<String>,
    pub match_guid: Option<String>,
    pub title: Option<String>,
    pub map_code: Option<String>,
    pub team_size: Option<i64>,
    pub playlist_id: Option<String>,
    pub duration: Option<i64>,
    pub date: Option<String>,
    pub blue: Option<Team>,
    pub orange: Option<Team>,
}

/// The index of the first '.' in a path, or the path's length when it
/// carries none.
pub open spec fn spec_first_dot(path: Seq<char>) -> int
    decreases path.len(),
{
    if path.len() == 0 {
        0
    } else if path[0] == '.' {
        0
    } else {
        1 + spec_first_dot(path.drop_first())
    }
}

/// The first dot index is the unique position `i` with no dot before it and
/// a dot (or the end) at it.
proof fn lemma_first_dot_at(path: Seq<char>, i: int)
    requires
        0 <= i <= path.len(),
        forall|j: int| 0 <= j < i ==> path[j] != '.',
        i < path.len() ==> path[i] == '.',
        i == path.len() ==> forall|j: int| 0 <= j < path.len() ==> path[j] != '.',
    ensures
        spec_first_dot(path) == i,
    decreases path.len(),
{
    if path.len() > 0 && path[0] != '.' {
        lemma_first_dot_at(path.drop_first(), i - 1);
    }
}

/// The dotted path's second segment: what stands between the first dot and
/// the next dot or the end.
pub open spec fn spec_second_segment(path: Seq<char>) -> Seq<char> {
    let rest = path.skip(spec_first_dot(path) + 1);
    rest.take(spec_first_dot(rest))
}

/// The string a property displays as: strings and names verbatim, numbers
/// in decimal (fixed-point scalars with their fraction trimmed), booleans
/// as "true"/"false"; nothing for the other tags.
pub open spec fn spec_prop_display(v: PropValue) -> Option<Seq<char>> {
    match v {
        PropValue::Str(s) => Some(s@),
        PropValue::Int(i) => Some(spec_i64_string(i as int)),
        PropValue::Float(m) => Some(spec_millis_string(m as int)),
        PropValue::Bool(b) => Some(
            if b {
                "true"@
            } else {
                "false"@
            },
        ),
        PropValue::Name(n) => Some(n@),
        _ => None,
    }
}

/// What a dotted path denotes on a replay: "properties.<key>" displays the
/// first property of that key; "header.version" renders
/// "<major>.<minor>", "header.length" and "header.crc" render their
/// scalars; "network_frames.count" renders the frame count when a stream
/// is present. Everything else denotes nothing.
pub open spec fn spec_wrapper_get(replay: Replay, path: Seq<char>) -> Option<Seq<char>> {
    let section = path.take(spec_first_dot(path));
    let key = spec_second_segment(path);
    if section == "properties"@ {
        match spec_lookup(replay.properties@, key) {
            Some(v) => spec_prop_display(v),
            None => None,
        }
    } else if section == "header"@ {
        if key == "version"@ {
            Some(
                spec_i64_string(replay.major_version as int) + "."@ + spec_i64_string(
                    replay.minor_version as int,
                ),
            )
        } else if key == "length"@ {
            Some(spec_i64_string(replay.header_size as int))
        } else if key == "crc"@ {
            Some(spec_u64_string(replay.header_crc as nat))
        } else {
            None
        }
    } else if section == "network_frames"@ {
        if key == "count"@ {
            match replay.network_frames {
                Some(nf) => Some(spec_u64_string(nf.frames@.len())),
                None => None,
            }
        } else {
            None
        }
    } else {
        None
    }
}

/// The numeric value of a property, in thousandths: a fractional scalar as
/// held, an integer widened; nothing for any other tag.
pub open spec fn spec_num_millis(props: Seq<(String, PropValue)>, key: Seq<char>) -> Option<i64> {
    match spec_lookup(props, key) {
        Some(PropValue::Float(m)) => Some(m),
        Some(PropValue::Int(i)) => Some((i * 1000) as i64),
        _ => None,
    }
}

fn get_num_millis(props: &crate::props::PropList, key: &str) -> (r: Option<i64>)
    ensures
        r == spec_num_millis(props@, key@),
{
    match crate::props::lookup(props, key) {
        Some(PropValue::Float(m)) => Some(*m),
        Some(PropValue::Int(i)) => Some(*i as i64 * 1000),
        _ => None,
    }
}

/// Find the first '.' at or after `from`; the path's length when none
/// follows.
fn find_dot(path: &str, from: usize) -> (r: usize)
    requires
        from <= path@.len(),
    ensures
        from <= r <= path@.len(),
        spec_first_dot(path@.skip(from as int)) == r - from,
        r < path@.len() ==> path@[r as int] == '.',
{
    let n = path.unicode_len();
    let mut i: usize = from;
    while i < n
        invariant
            from <= i <= n,
            n == path@.len(),
            forall|j: int| from <= j < i ==> path@[j] != '.',
        decreases n - i,
    {
        if path.get_char(i) == '.' {
            proof {
                lemma_first_dot_at(path@.skip(from as int), i - from);
            }
            return i;
        }
        i = i + 1;
    }
    proof {
        lemma_first_dot_at(path@.skip(from as int), n - from);
    }
    n
}

/// A read-only view over a decoded replay.
pub struct ReplayWrapper<'a> {
    pub replay: &'a Replay,
}

impl<'a> ReplayWrapper<'a> {
    /// Wrap a replay.
    pub fn new(replay: &'a Replay) -> (r: Self)
        ensures
            r.replay == replay,
    {
        Self { replay }
    }

    /// Display the value a dotted path denotes. The path must carry a dot.
    pub fn get(&self, path: &str) -> (r: Option<String>)
        requires
            spec_first_dot(path@) < path@.len(),
        ensures
            match r {
                Some(s) => spec_wrapper_get(*self.replay, path@) == Some(s@),
                None => spec_wrapper_get(*self.replay, path@) is None,
            },
    {
        let n = path.unicode_len();
        proof {
            assert(path@.skip(0) =~= path@);
        }
        let dot = find_dot(path, 0);
        let section = path.substring_char(0, dot);
        let dot2 = find_dot(path, dot + 1);
        let key = path.substring_char(dot + 1, dot2);
        proof {
            assert(section@ =~= path@.take(spec_first_dot(path@)));
            assert(key@ =~= spec_second_segment(path@));
        }
        if section.to_owned() == "properties".to_owned() {
            match crate::props::lookup(&self.replay.properties, key) {
                Some(PropValue::Str(s)) => Some(s.clone()),
                Some(PropValue::Int(i)) => Some(i64_to_string(*i as i64)),
                Some(PropValue::Float(m)) => Some(millis_to_string(*m)),
                Some(PropValue::Bool(b)) => Some(
                    if *b {
                        "true".to_owned()
                    } else {
                        "false".to_owned()
                    },
                ),
                Some(PropValue::Name(s)) => Some(s.clone()),
                _ => None,
            }
        } else if section.to_owned() == "header".to_owned() {
            if key.to_owned() == "version".to_owned() {
                let major = i64_to_string(self.replay.major_version as i64);
                let minor = i64_to_string(self.replay.minor_version as i64);
                proof {
                    reveal_strlit(".");
                    assert("."@ =~= seq!['.']);
                }
                Some(major.concat(".").concat(minor.as_str()))
            } else if key.to_owned() == "length".to_owned() {
                Some(i64_to_string(self.replay.header_size as i64))
            } else if key.to_owned() == "crc".to_owned() {
                Some(u64_to_string(self.replay.header_crc as u64))
            } else {
                None
            }
        } else if section.to_owned() == "network_frames".to_owned() {
            if key.to_owned() == "count".to_owned() {
                match &self.replay.network_frames {
                    Some(nf) => Some(u64_to_string(nf.frames.len() as u64)),
                    None => None,
                }
            } else {
                None
            }
        } else {
            None
        }
    }

    /// Assemble the basic response: a fresh identifier and timestamp, the
    /// fixed "ok" status, the displayed header properties, the numeric
    /// duration and team size, and no team breakdown.
    pub fn build_response(&self) -> (r: ReplayResponse)
        ensures
            match r.id {
                Some(id) => id@.len() == 36,
                None => false,
            },
            r.created is Some,
            r.status matches Some(ReplayStatus::ok),
            spec_opt_string_view(r.rocket_league_id) == spec_wrapper_get(
                *self.replay,
                "properties.Id"@,
            ),
            spec_opt_string_view(r.match_guid) == spec_wrapper_get(
                *self.replay,
                "properties.MatchGuid"@,
            ),
            spec_opt_string_view(r.date) == spec_wrapper_get(*self.replay, "properties.Date"@),
            spec_opt_string_view(r.playlist_id) == spec_wrapper_get(
                *self.replay,
                "properties.MatchType"@,
            ),
            spec_opt_string_view(r.title) == spec_wrapper_get(
                *self.replay,
                "properties.ReplayName"@,
            ),
            spec_opt_string_view(r.map_code) == spec_wrapper_get(
                *self.replay,
                "properties.MapName"@,
            ),
            r.duration == spec_num_millis(self.replay.properties@, "TotalSecondsPlayed"@),
            r.team_size == spec_num_millis(self.replay.properties@, "TeamSize"@),
            r.blue is None,
            r.orange is None,
    {
        proof {
            reveal_strlit("properties.Id");
            reveal_strlit("properties.MatchGuid");
            reveal_strlit("properties.Date");
            reveal_strlit("properties.MatchType");
            reveal_strlit("properties.ReplayName");
            reveal_strlit("properties.MapName");
            reveal_strlit("properties");
            lemma_literal_paths_have_dots();
        }
        ReplayResponse {
            id: Some(fresh_id()),
            created: Some(now_rfc3339()),
            status: Some(ReplayStatus::ok),
            rocket_league_id: self.get("properties.Id"),
            match_guid: self.get("properties.MatchGuid"),
            date: self.get("properties.Date"),
            playlist_id: self.get("properties.MatchType"),
            duration: get_num_millis(&self.replay.properties, "TotalSecondsPlayed"),
            title: self.get("properties.ReplayName"),
            map_code: self.get("properties.MapName"),
            team_size: get_num_millis(&self.replay.properties, "TeamSize"),
            blue: None,
            orange: None,
        }
    }
}

/// The view of an optional string.
pub open spec fn spec_opt_string_view(s: Option<String>) -> Option<Seq<char>> {
    match s {
        Some(v) => Some(v@),
        None => None,
    }
}

/// Every dotted property path used by the response builder carries its dot
/// at index 10 ("properties" is 10 characters long).
proof fn lemma_literal_paths_have_dots()
    ensures
        spec_first_dot("properties.Id"@) == 10,
        spec_first_dot("properties.MatchGuid"@) == 10,
        spec_first_dot("properties.Date"@) == 10,
        spec_first_dot("properties.MatchType"@) == 10,
        spec_first_dot("properties.ReplayName"@) == 10,
        spec_first_dot("properties.MapName"@) == 10,
{
    reveal_strlit("properties.Id");
    reveal_strlit("properties.MatchGuid");
    reveal_strlit("properties.Date");
    reveal_strlit("properties.MatchType");
    reveal_strlit("properties.ReplayName");
    reveal_strlit("properties.MapName");
    lemma_first_dot_at("properties.Id"@, 10);
    lemma_first_dot_at("properties.MatchGuid"@, 10);
    lemma_first_dot_at("properties.Date"@, 10);
    lemma_first_dot_at("properties.MatchType"@, 10);
    lemma_first_dot_at("properties.ReplayName"@, 10);
    lemma_first_dot_at("properties.MapName"@, 10);
}

} // verus!
