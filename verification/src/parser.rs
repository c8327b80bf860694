//! The transformation pipeline: raw player records into resolved players,
//! MVP selection over the full set, grouping into the two teams, and the
//! assembly of the match summary.

use vstd::prelude::*;

use crate::ballchasing::{
    BallchasingPlayer, BallchasingReplay, BallchasingReplayV, BallchasingTeam,
    BallchasingTeamStats, BoostStats, CoreStats, DemoStats, PlayerId, PlayerIdV, PlayerStats,
    PlayerV, TeamV,
};
use crate::helpers::{
    get_overtime_seconds, is_overtime, shooting_percentage, spec_is_overtime,
    spec_overtime_seconds, spec_shooting_percentage,
};
use crate::numfmt::{spec_u64_string, u64_to_string};
use crate::props::{
    get_array, get_i32, get_millis, get_string, lookup, spec_get_array, spec_get_i32,
    spec_get_millis, spec_get_string, spec_lookup, PropList, PropValue,
};
use crate::replay::{spec_frames_of, Replay};
use crate::resolver::{get_car_ids_by_name, spec_car_ids, CarMap};
use crate::stamp::{fresh_id, now_rfc3339};

verus! {

/// A raw counter wrapped into the unsigned output field, keeping its
/// two's-complement bits.
pub open spec fn spec_wrap_u32(x: i32) -> u32 {
    if x >= 0 {
        x as u32
    } else {
        (x + 0x1_0000_0000) as u32
    }
}

fn wrap_u32(x: i32) -> (r: u32)
    ensures
        r == spec_wrap_u32(x),
{
    if x >= 0 {
        x as u32
    } else {
        ((x as i64) + 0x1_0000_0000) as u32
    }
}

/// A raw team size wrapped into the unsigned output field.
pub open spec fn spec_wrap_u8(x: i32) -> u8 {
    (spec_wrap_u32(x) % 256) as u8
}

fn wrap_u8(x: i32) -> (r: u8)
    ensures
        r == spec_wrap_u8(x),
{
    (wrap_u32(x) % 256) as u8
}

/// The platform tag for an enumerated platform label: the known labels map
/// to their short tags, any other label passes through verbatim, an absent
/// label means the platform is unknown.
pub open spec fn spec_platform_tag(label: Option<Seq<char>>) -> Seq<char> {
    match label {
        Some(l) => {
            if l == "OnlinePlatform_Steam"@ {
                "steam"@
            } else if l == "OnlinePlatform_Epic"@ {
                "epic"@
            } else if l == "OnlinePlatform_PS4"@ {
                "ps4"@
            } else if l == "OnlinePlatform_PS5"@ {
                "ps5"@
            } else if l == "OnlinePlatform_Xbox"@ {
                "xbox"@
            } else if l == "OnlinePlatform_Switch"@ {
                "switch"@
            } else {
                l
            }
        },
        None => "unknown"@,
    }
}

fn platform_tag(label: Option<&String>) -> (r: String)
    ensures
        r@ == spec_platform_tag(match label {
            Some(l) => Some(l@),
            None => None,
        }),
{
    match label {
        Some(l) => {
            if *l == "OnlinePlatform_Steam".to_owned() {
                "steam".to_owned()
            } else if *l == "OnlinePlatform_Epic".to_owned() {
                "epic".to_owned()
            } else if *l == "OnlinePlatform_PS4".to_owned() {
                "ps4".to_owned()
            } else if *l == "OnlinePlatform_PS5".to_owned() {
                "ps5".to_owned()
            } else if *l == "OnlinePlatform_Xbox".to_owned() {
                "xbox".to_owned()
            } else if *l == "OnlinePlatform_Switch".to_owned() {
                "switch".to_owned()
            } else {
                l.clone()
            }
        },
        None => "unknown".to_owned(),
    }
}

/// The platform identity of a raw player record: decoded from the nested
/// "PlayerID" record when present, otherwise fully unknown.
pub open spec fn spec_identity_of(rec: Seq<(String, PropValue)>) -> PlayerIdV {
    match spec_lookup(rec, "PlayerID"@) {
        Some(PropValue::Struct { name: _, fields }) => {
            let platform = spec_platform_tag(
                match spec_lookup(fields@, "Platform"@) {
                    Some(PropValue::Byte { kind: _, label: Some(l) }) => Some(l@),
                    _ => None,
                },
            );
            let id = match spec_lookup(fields@, "Uid"@) {
                Some(PropValue::QWord(q)) => spec_u64_string(q as nat),
                _ => "unknown"@,
            };
            PlayerIdV { platform, id }
        },
        _ => PlayerIdV { platform: "unknown"@, id: "unknown"@ },
    }
}

fn identity_of(rec: &PropList) -> (r: PlayerId)
    ensures
        r@ == spec_identity_of(rec@),
{
    match lookup(rec, "PlayerID") {
        Some(PropValue::Struct { name: _, fields }) => {
            let label: Option<&String> = match lookup(fields, "Platform") {
                Some(PropValue::Byte { kind: _, label: Some(l) }) => Some(l),
                _ => None,
            };
            let platform = platform_tag(label);
            let id = match lookup(fields, "Uid") {
                Some(PropValue::QWord(q)) => u64_to_string(*q),
                _ => "unknown".to_owned(),
            };
            PlayerId { platform, id }
        },
        _ => PlayerId { platform: "unknown".to_owned(), id: "unknown".to_owned() },
    }
}

/// One raw player record turned into (score, team index, resolved player).
/// Every missing or mistyped field degrades to its stated default; the
/// extraction never fails.
pub open spec fn spec_entry_of(
    rec: Seq<(String, PropValue)>,
    car_ids: Map<Seq<char>, (u32, Seq<char>)>,
) -> (i32, i32, PlayerV) {
    let team = match spec_lookup(rec, "Team"@) {
        Some(PropValue::Int(i)) => i,
        _ => -1i32,
    };
    let name = spec_get_string(rec, "Name"@, "Unknown"@);
    let score = spec_get_i32(rec, "Score"@);
    let goals = spec_get_i32(rec, "Goals"@);
    let shots = spec_get_i32(rec, "Shots"@);
    let assists = spec_get_i32(rec, "Assists"@);
    let saves = spec_get_i32(rec, "Saves"@);
    let car = if car_ids.contains_key(name) {
        car_ids[name]
    } else {
        (0u32, "Unknown"@)
    };
    (
        score,
        team,
        PlayerV {
            name,
            id: spec_identity_of(rec),
            car_id: car.0,
            car_name: car.1,
            stats: PlayerStats {
                core: CoreStats {
                    shots: spec_wrap_u32(shots),
                    goals: spec_wrap_u32(goals),
                    saves: spec_wrap_u32(saves),
                    assists: spec_wrap_u32(assists),
                    score: spec_wrap_u32(score),
                    mvp: false,
                    shooting_percentage: spec_shooting_percentage(goals as int, shots as int),
                },
                boost: BoostStats { bpm: 0 },
                demo: DemoStats { inflicted: 0, taken: 0 },
            },
        },
    )
}

/// The view of one extracted entry.
pub open spec fn entry_view(e: (i32, i32, BallchasingPlayer)) -> (i32, i32, PlayerV) {
    (e.0, e.1, e.2@)
}

/// The view of an extracted entry list.
pub open spec fn entries_view(s: Seq<(i32, i32, BallchasingPlayer)>) -> Seq<(i32, i32, PlayerV)> {
    s.map_values(|e: (i32, i32, BallchasingPlayer)| entry_view(e))
}

fn extract_player(rec: &PropList, car_ids: &CarMap) -> (r: (i32, i32, BallchasingPlayer))
    ensures
        entry_view(r) == spec_entry_of(rec@, car_ids@),
{
    let team: i32 = match lookup(rec, "Team") {
        Some(PropValue::Int(i)) => *i,
        _ => -1,
    };
    let name = get_string(rec, "Name", "Unknown");
    let id = identity_of(rec);
    let score = get_i32(rec, "Score");
    let goals = get_i32(rec, "Goals");
    let shots = get_i32(rec, "Shots");
    let assists = get_i32(rec, "Assists");
    let saves = get_i32(rec, "Saves");
    let percentage = shooting_percentage(goals, shots);
    let (car_id, car_name): (u32, String) = match car_ids.get(&name) {
        Some(found) => found,
        None => (0, "Unknown".to_owned()),
    };
    let player = BallchasingPlayer {
        name,
        id,
        car_id,
        car_name,
        stats: PlayerStats {
            core: CoreStats {
                shots: wrap_u32(shots),
                goals: wrap_u32(goals),
                saves: wrap_u32(saves),
                assists: wrap_u32(assists),
                score: wrap_u32(score),
                mvp: false,
                shooting_percentage: percentage,
            },
            boost: BoostStats { bpm: 0 },
            demo: DemoStats { inflicted: 0, taken: 0 },
        },
    };
    (score, team, player)
}

/// The raw entries of a record array, in order, before the MVP flag is
/// assigned.
pub open spec fn spec_raw_entries(
    records: Seq<Vec<(String, PropValue)>>,
    car_ids: Map<Seq<char>, (u32, Seq<char>)>,
) -> Seq<(i32, i32, PlayerV)> {
    records.map_values(|r: Vec<(String, PropValue)>| spec_entry_of(r@, car_ids))
}

/// The index of the entry with the numerically greatest score; ties are
/// broken by the first index encountered.
pub open spec fn spec_first_max(entries: Seq<(i32, i32, PlayerV)>) -> int
    decreases entries.len(),
{
    if entries.len() <= 1 {
        0
    } else {
        let rest = spec_first_max(entries.drop_last());
        if entries.last().0 > entries[rest].0 {
            entries.len() - 1
        } else {
            rest
        }
    }
}

/// The MVP index is in range, carries a maximal score, and every earlier
/// entry scores strictly less (ties are broken by extraction order).
pub proof fn lemma_first_max_properties(entries: Seq<(i32, i32, PlayerV)>)
    requires
        entries.len() > 0,
    ensures
        0 <= spec_first_max(entries) < entries.len(),
        forall|j: int|
            0 <= j < entries.len() ==> (#[trigger] entries[j]).0 <= entries[spec_first_max(
                entries,
            )].0,
        forall|j: int|
            0 <= j < spec_first_max(entries) ==> (#[trigger] entries[j]).0 < entries[
                spec_first_max(entries)
            ].0,
    decreases entries.len(),
{
    if entries.len() > 1 {
        lemma_first_max_properties(entries.drop_last());
        assert(forall|j: int|
            0 <= j < entries.len() - 1 ==> entries.drop_last()[j] == entries[j]);
    }
}

/// A player's stats with the MVP flag raised.
pub open spec fn spec_with_mvp(p: PlayerV) -> PlayerV {
    PlayerV {
        name: p.name,
        id: p.id,
        car_id: p.car_id,
        car_name: p.car_name,
        stats: PlayerStats {
            core: CoreStats {
                shots: p.stats.core.shots,
                goals: p.stats.core.goals,
                saves: p.stats.core.saves,
                assists: p.stats.core.assists,
                score: p.stats.core.score,
                mvp: true,
                shooting_percentage: p.stats.core.shooting_percentage,
            },
            boost: p.stats.boost,
            demo: p.stats.demo,
        },
    }
}

/// The entry list with exactly one MVP flag raised: on the first entry of
/// maximal score. An empty list stays empty (there is nothing to flag).
pub open spec fn spec_flag_mvp(entries: Seq<(i32, i32, PlayerV)>) -> Seq<(i32, i32, PlayerV)> {
    if entries.len() == 0 {
        entries
    } else {
        let m = spec_first_max(entries);
        let e = entries[m];
        entries.update(m, (e.0, e.1, spec_with_mvp(e.2)))
    }
}

/// All player entries of a property list: the "PlayerStats" records in
/// order, with the global MVP flagged.
pub open spec fn spec_players(
    props: Seq<(String, PropValue)>,
    car_ids: Map<Seq<char>, (u32, Seq<char>)>,
) -> Seq<(i32, i32, PlayerV)> {
    spec_flag_mvp(spec_raw_entries(spec_get_array(props, "PlayerStats"@), car_ids))
}

fn first_max_index(players: &Vec<(i32, i32, BallchasingPlayer)>) -> (r: usize)
    requires
        players@.len() > 0,
    ensures
        r < players@.len(),
        r as int == spec_first_max(entries_view(players@)),
{
    let ghost w = entries_view(players@);
    let n = players.len();
    let mut best: usize = 0;
    let mut i: usize = 1;
    proof {
        assert(w.take(1).drop_last() =~= w.take(0));
        assert(w.take(1).len() == 1);
    }
    while i < n
        invariant
            1 <= i <= n,
            best < i,
            n == players@.len(),
            w == entries_view(players@),
            best as int == spec_first_max(w.take(i as int)),
        decreases n - i,
    {
        proof {
            assert(w.take(i as int + 1).drop_last() =~= w.take(i as int));
            assert(w.take(i as int + 1).last() == w[i as int]);
            assert(w[i as int] == entry_view(players@[i as int]));
            assert(forall|j: int| 0 <= j < i ==> w.take(i as int)[j] == w[j]);
        }
        if players[i].0 > players[best].0 {
            best = i;
        }
        i = i + 1;
    }
    proof {
        assert(w.take(n as int) =~= w);
    }
    best
}

/// Parse all players of the "PlayerStats" record array, in order, and flag
/// the global MVP: the first entry of maximal score over the whole set,
/// regardless of team.
pub fn parse_players(props: &PropList, car_ids: &CarMap) -> (r: Vec<
    (i32, i32, BallchasingPlayer),
>)
    ensures
        entries_view(r@) == spec_players(props@, car_ids@),
{
    let empty_records: Vec<Vec<(String, PropValue)>> = Vec::new();
    let records: &Vec<Vec<(String, PropValue)>> = match get_array(props, "PlayerStats") {
        Some(a) => a,
        None => &empty_records,
    };
    let ghost recs = spec_get_array(props@, "PlayerStats"@);
    proof {
        assert(records@ =~= recs);
    }
    let mut players: Vec<(i32, i32, BallchasingPlayer)> = Vec::new();
    let n = records.len();
    let mut i: usize = 0;
    while i < n
        invariant
            i <= n,
            n == records@.len(),
            records@ == recs,
            players@.len() == i,
            forall|k: int|
                0 <= k < i ==> entry_view(players@[k]) == spec_entry_of(recs[k]@, car_ids@),
        decreases n - i,
    {
        let entry = extract_player(&records[i], car_ids);
        players.push(entry);
        i = i + 1;
    }
    proof {
        assert(entries_view(players@) =~= spec_raw_entries(recs, car_ids@));
    }
    if players.len() > 0 {
        let ghost raw = entries_view(players@);
        let m = first_max_index(&players);
        players[m].2.stats.core.mvp = true;
        proof {
            let flagged = entries_view(players@);
            assert forall|k: int| 0 <= k < flagged.len() implies flagged[k] == spec_flag_mvp(
                raw,
            )[k] by {
                assert(flagged[k] == entry_view(players@[k]));
            }
            assert(entries_view(players@) =~= spec_flag_mvp(raw));
        }
    }
    players
}

/// The roster of one team: the resolved players whose team index equals the
/// team's, in extraction order. An entry with any other index (including
/// the unassigned sentinel) joins no roster.
pub open spec fn spec_team_players(entries: Seq<(i32, i32, PlayerV)>, team_index: i32) -> Seq<
    PlayerV,
>
    decreases entries.len(),
{
    if entries.len() == 0 {
        Seq::empty()
    } else {
        let rest = spec_team_players(entries.drop_last(), team_index);
        if entries.last().1 == team_index {
            rest.push(entries.last().2)
        } else {
            rest
        }
    }
}

/// A team's placeholder stats block: always zero.
pub open spec fn spec_zero_team_stats() -> BallchasingTeamStats {
    BallchasingTeamStats {
        core: CoreStats {
            shots: 0,
            goals: 0,
            saves: 0,
            assists: 0,
            score: 0,
            mvp: false,
            shooting_percentage: 0,
        },
        demo: DemoStats { inflicted: 0, taken: 0 },
    }
}

/// A team assembled from the full entry list: its color, "<color> team" as
/// its name, its roster, and the zero stats placeholder.
pub open spec fn spec_build_team(
    color: Seq<char>,
    entries: Seq<(i32, i32, PlayerV)>,
    team_index: i32,
) -> TeamV {
    TeamV {
        color,
        name: color + " team"@,
        players: spec_team_players(entries, team_index),
        stats: spec_zero_team_stats(),
    }
}

/// Group the players whose team index matches into a team object,
/// preserving extraction order.
pub fn build_team(
    color: &str,
    all_players: &Vec<(i32, i32, BallchasingPlayer)>,
    team_index: i32,
) -> (r: BallchasingTeam)
    ensures
        r@ == spec_build_team(color@, entries_view(all_players@), team_index),
{
    let ghost w = entries_view(all_players@);
    let mut members: Vec<BallchasingPlayer> = Vec::new();
    let n = all_players.len();
    let mut i: usize = 0;
    proof {
        assert(w.take(0) =~= Seq::<(i32, i32, PlayerV)>::empty());
        assert(members@.map_values(|p: BallchasingPlayer| p@) =~= Seq::<PlayerV>::empty());
    }
    while i < n
        invariant
            i <= n,
            n == all_players@.len(),
            w == entries_view(all_players@),
            members@.map_values(|p: BallchasingPlayer| p@) == spec_team_players(
                w.take(i as int),
                team_index,
            ),
        decreases n - i,
    {
        proof {
            assert(w.take(i as int + 1).drop_last() =~= w.take(i as int));
            assert(w.take(i as int + 1).last() == w[i as int]);
            assert(w[i as int] == entry_view(all_players@[i as int]));
        }
        if all_players[i].1 == team_index {
            members.push(all_players[i].2.clone());
            proof {
                assert(members@.map_values(|p: BallchasingPlayer| p@) =~= members@.drop_last()
                    .map_values(|p: BallchasingPlayer| p@).push(all_players@[i as int].2@));
            }
        }
        i = i + 1;
    }
    proof {
        assert(w.take(n as int) =~= w);
    }
    let team = BallchasingTeam {
        color: color.to_owned(),
        name: color.to_owned().concat(" team"),
        players: members,
        stats: BallchasingTeamStats {
            core: CoreStats {
                shots: 0,
                goals: 0,
                saves: 0,
                assists: 0,
                score: 0,
                mvp: false,
                shooting_percentage: 0,
            },
            demo: DemoStats { inflicted: 0, taken: 0 },
        },
    };
    team
}

/// The summary assembled from a decoded replay, a generated identifier and
/// a generation timestamp. Every field but the identifier and timestamp is
/// a function of the replay alone.
pub open spec fn spec_summary(replay: Replay, id: Seq<char>, created: Seq<char>) -> (r:
    BallchasingReplayV) {
    let props = replay.properties@;
    let car_ids = spec_car_ids(spec_frames_of(replay));
    let entries = spec_players(props, car_ids);
    let duration = spec_get_millis(props, "TotalSecondsPlayed"@);
    let overtime = spec_is_overtime(props);
    BallchasingReplayV {
        id,
        created,
        status: "ok"@,
        rocket_league_id: spec_get_string(props, "Id"@, ""@),
        match_guid: spec_get_string(props, "MatchGuid"@, ""@),
        title: spec_get_string(props, "ReplayName"@, ""@),
        map_code: spec_get_string(props, "MapName"@, ""@),
        match_type: spec_get_string(props, "MatchType"@, ""@),
        team_size: spec_wrap_u8(spec_get_i32(props, "TeamSize"@)),
        playlist_id: spec_get_string(props, "MatchType"@, ""@),
        duration_millis: duration,
        overtime,
        overtime_seconds: spec_overtime_seconds(duration, overtime),
        date: spec_get_string(props, "Date"@, ""@),
        blue: spec_build_team("blue"@, entries, 0),
        orange: spec_build_team("orange"@, entries, 1),
        playlist_name: spec_get_string(props, "MatchType"@, ""@),
        map_name: spec_get_string(props, "MapName"@, ""@),
    }
}

/// Parse the replay into the consumer-facing summary object. The identifier
/// and timestamp are freshly generated; everything else is determined by
/// the replay.
pub fn parse_to_ballchasing(replay: &Replay) -> (r: BallchasingReplay)
    ensures
        r@ == spec_summary(*replay, r@.id, r@.created),
        r@.id.len() == 36,
{
    let empty_frames: Vec<crate::frames::Frame> = Vec::new();
    let frames: &Vec<crate::frames::Frame> = match &replay.network_frames {
        Some(nf) => &nf.frames,
        None => &empty_frames,
    };
    proof {
        assert(frames@ =~= spec_frames_of(*replay));
    }
    let car_ids = get_car_ids_by_name(frames);
    let id = fresh_id();
    let created = now_rfc3339();
    let props = &replay.properties;
    let duration = get_millis(props, "TotalSecondsPlayed");
    let overtime = is_overtime(props);
    let overtime_seconds = get_overtime_seconds(duration, overtime);
    let all_players = parse_players(props, &car_ids);
    BallchasingReplay {
        id,
        created,
        status: "ok".to_owned(),
        rocket_league_id: get_string(props, "Id", ""),
        match_guid: get_string(props, "MatchGuid", ""),
        title: get_string(props, "ReplayName", ""),
        map_code: get_string(props, "MapName", ""),
        match_type: get_string(props, "MatchType", ""),
        team_size: wrap_u8(get_i32(props, "TeamSize")),
        playlist_id: get_string(props, "MatchType", ""),
        duration_millis: duration,
        overtime,
        overtime_seconds,
        date: get_string(props, "Date", ""),
        blue: build_team("blue", &all_players, 0),
        orange: build_team("orange", &all_players, 1),
        playlist_name: get_string(props, "MatchType", ""),
        map_name: get_string(props, "MapName", ""),
    }
}

/// Fields other than the generated identifier and timestamp agree between
/// two summaries.
pub open spec fn spec_same_but_fresh(a: BallchasingReplayV, b: BallchasingReplayV) -> bool {
    &&& a.status == b.status
    &&& a.rocket_league_id == b.rocket_league_id
    &&& a.match_guid == b.match_guid
    &&& a.title == b.title
    &&& a.map_code == b.map_code
    &&& a.match_type == b.match_type
    &&& a.team_size == b.team_size
    &&& a.playlist_id == b.playlist_id
    &&& a.duration_millis == b.duration_millis
    &&& a.overtime == b.overtime
    &&& a.overtime_seconds == b.overtime_seconds
    &&& a.date == b.date
    &&& a.blue == b.blue
    &&& a.orange == b.orange
    &&& a.playlist_name == b.playlist_name
    &&& a.map_name == b.map_name
}

/// Transforming one decoded input twice yields identical output apart from
/// the generated identifier and timestamp fields.
pub proof fn lemma_transform_deterministic(
    replay: Replay,
    id1: Seq<char>,
    created1: Seq<char>,
    id2: Seq<char>,
    created2: Seq<char>,
)
    ensures
        spec_same_but_fresh(spec_summary(replay, id1, created1), spec_summary(replay, id2, created2)),
{
}

/// A property list without a "PlayerStats" record array yields no player
/// entries: both team rosters are empty and no entry carries the MVP flag.
pub proof fn lemma_no_player_stats(
    props: Seq<(String, PropValue)>,
    car_ids: Map<Seq<char>, (u32, Seq<char>)>,
)
    requires
        spec_get_array(props, "PlayerStats"@) == Seq::<Vec<(String, PropValue)>>::empty(),
    ensures
        spec_players(props, car_ids).len() == 0,
        spec_team_players(spec_players(props, car_ids), 0) == Seq::<PlayerV>::empty(),
        spec_team_players(spec_players(props, car_ids), 1) == Seq::<PlayerV>::empty(),
{
    assert(spec_raw_entries(spec_get_array(props, "PlayerStats"@), car_ids) =~= Seq::<
        (i32, i32, PlayerV),
    >::empty());
}

/// An entry whose team index matches neither team joins no roster: removing
/// it leaves both rosters unchanged.
pub proof fn lemma_unmatched_entry_in_no_roster(entries: Seq<(i32, i32, PlayerV)>, i: int)
    requires
        0 <= i < entries.len(),
        entries[i].1 != 0,
        entries[i].1 != 1,
    ensures
        spec_team_players(entries, 0) == spec_team_players(entries.remove(i), 0),
        spec_team_players(entries, 1) == spec_team_players(entries.remove(i), 1),
    decreases entries.len(),
{
    if i == entries.len() - 1 {
        assert(entries.remove(i) =~= entries.drop_last());
    } else {
        lemma_unmatched_entry_in_no_roster(entries.drop_last(), i);
        assert(entries.remove(i).drop_last() =~= entries.drop_last().remove(i));
        assert(entries.remove(i).last() == entries.last());
    }
}

/// Yet such an entry still participates in MVP selection: when its score
/// strictly exceeds every other entry's, it is the flagged index.
pub proof fn lemma_strict_top_score_is_mvp(entries: Seq<(i32, i32, PlayerV)>, i: int)
    requires
        0 <= i < entries.len(),
        forall|j: int| 0 <= j < entries.len() && j != i ==> entries[j].0 < entries[i].0,
    ensures
        spec_first_max(entries) == i,
{
    lemma_first_max_properties(entries);
}

} // verus!
