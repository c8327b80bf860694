//! The assembled match summary on a full concrete replay.

use replay_summary::ballchasing::BallchasingReplay;
use replay_summary::frames::{
    Attribute, Frame, LoadoutConfig, NetworkFrames, TeamLoadout, UpdatedActor,
};
use replay_summary::parser::parse_to_ballchasing;
use replay_summary::props::PropValue;
use replay_summary::replay::Replay;

fn props_of(entries: Vec<(&str, PropValue)>) -> Vec<(String, PropValue)> {
    entries.into_iter().map(|(k, v)| (k.to_string(), v)).collect()
}

fn loadout(body: u32) -> LoadoutConfig {
    LoadoutConfig {
        version: 22,
        body,
        decal: 0,
        wheels: 376,
        rocket_trail: 35,
        antenna: 0,
        topper: 0,
        unknown1: 0,
        unknown2: 0,
        engine_audio: 0,
        trail: 3224,
        goal_explosion: 3525,
        banner: 0,
        product_id: 0,
    }
}

fn player_record(name: &str, team: i32, score: i32, goals: i32, shots: i32) -> Vec<(String, PropValue)> {
    props_of(vec![
        ("Name", PropValue::Str(name.to_string())),
        ("Team", PropValue::Int(team)),
        ("Score", PropValue::Int(score)),
        ("Goals", PropValue::Int(goals)),
        ("Shots", PropValue::Int(shots)),
        ("Assists", PropValue::Int(1)),
        ("Saves", PropValue::Int(2)),
    ])
}

fn sample_replay() -> Replay {
    let records = vec![
        player_record("Ana", 0, 500, 3, 4),
        player_record("Bo", 1, 300, 1, 1),
        player_record("Cy", 1, 700, 2, 3),
    ];
    let properties = props_of(vec![
        ("Id", PropValue::Str("match-id-1".to_string())),
        ("MatchGuid", PropValue::Str("guid-1".to_string())),
        ("ReplayName", PropValue::Str("Grand Final".to_string())),
        ("MapName", PropValue::Name("Stadium_P".to_string())),
        ("MatchType", PropValue::Name("Online".to_string())),
        ("TeamSize", PropValue::Int(2)),
        ("TotalSecondsPlayed", PropValue::Float(310_250)),
        ("Team0Score", PropValue::Int(2)),
        ("Team1Score", PropValue::Int(1)),
        ("Date", PropValue::Str("2024-03-01 12-00-00".to_string())),
        ("PlayerStats", PropValue::Array(records)),
    ]);
    let frame = Frame {
        time_millis: 100,
        delta_millis: 33,
        updated_actors: vec![
            UpdatedActor {
                actor_id: 7,
                stream_id: 1,
                object_id: 2,
                attribute: Attribute::TeamLoadout(TeamLoadout {
                    blue: loadout(23),
                    orange: loadout(4284),
                }),
            },
            UpdatedActor {
                actor_id: 7,
                stream_id: 3,
                object_id: 4,
                attribute: Attribute::Str("Ana".to_string()),
            },
        ],
    };
    Replay {
        header_size: 5555,
        header_crc: 123456,
        major_version: 868,
        minor_version: 32,
        properties,
        network_frames: Some(NetworkFrames { frames: vec![frame] }),
    }
}

#[test]
fn summary_carries_header_fields_and_overtime() {
    let replay = sample_replay();
    let summary = parse_to_ballchasing(&replay);
    assert_eq!(summary.status, "ok");
    assert_eq!(summary.rocket_league_id, "match-id-1");
    assert_eq!(summary.match_guid, "guid-1");
    assert_eq!(summary.title, "Grand Final");
    assert_eq!(summary.map_code, "Stadium_P");
    assert_eq!(summary.map_name, "Stadium_P");
    assert_eq!(summary.match_type, "Online");
    assert_eq!(summary.playlist_id, "Online");
    assert_eq!(summary.playlist_name, "Online");
    assert_eq!(summary.team_size, 2);
    assert_eq!(summary.duration_millis, 310_250);
    assert!(summary.overtime);
    assert_eq!(summary.overtime_seconds, 10);
    assert_eq!(summary.date, "2024-03-01 12-00-00");
    assert_eq!(summary.id.len(), 36);
}

#[test]
fn summary_groups_teams_and_resolves_cars() {
    let replay = sample_replay();
    let summary = parse_to_ballchasing(&replay);
    assert_eq!(summary.blue.color, "blue");
    assert_eq!(summary.blue.name, "blue team");
    assert_eq!(summary.orange.color, "orange");
    assert_eq!(summary.orange.name, "orange team");
    assert_eq!(summary.blue.players.len(), 1);
    assert_eq!(summary.orange.players.len(), 2);
    let ana = &summary.blue.players[0];
    assert_eq!(ana.name, "Ana");
    assert_eq!(ana.car_id, 23);
    assert_eq!(ana.car_name, "Octane");
    assert_eq!(ana.stats.core.shooting_percentage, 75);
    assert!(!ana.stats.core.mvp);
    // Bo and Cy had no loadout update; they fall back to the default car.
    let bo = &summary.orange.players[0];
    assert_eq!(bo.name, "Bo");
    assert_eq!(bo.car_id, 0);
    assert_eq!(bo.car_name, "Unknown");
    // Cy holds the top score of the whole match.
    let cy = &summary.orange.players[1];
    assert_eq!(cy.name, "Cy");
    assert!(cy.stats.core.mvp);
}

#[test]
fn absent_frame_stream_leaves_every_car_unknown() {
    let mut replay = sample_replay();
    replay.network_frames = None;
    let summary = parse_to_ballchasing(&replay);
    assert_eq!(summary.blue.players[0].car_id, 0);
    assert_eq!(summary.blue.players[0].car_name, "Unknown");
    assert_eq!(summary.orange.players[0].car_id, 0);
    assert_eq!(summary.orange.players[0].car_name, "Unknown");
}

fn assert_same_but_fresh(a: &BallchasingReplay, b: &BallchasingReplay) {
    assert_eq!(a.status, b.status);
    assert_eq!(a.rocket_league_id, b.rocket_league_id);
    assert_eq!(a.match_guid, b.match_guid);
    assert_eq!(a.title, b.title);
    assert_eq!(a.map_code, b.map_code);
    assert_eq!(a.match_type, b.match_type);
    assert_eq!(a.team_size, b.team_size);
    assert_eq!(a.playlist_id, b.playlist_id);
    assert_eq!(a.duration_millis, b.duration_millis);
    assert_eq!(a.overtime, b.overtime);
    assert_eq!(a.overtime_seconds, b.overtime_seconds);
    assert_eq!(a.date, b.date);
    assert_eq!(a.playlist_name, b.playlist_name);
    assert_eq!(a.map_name, b.map_name);
    for (x, y) in [(&a.blue, &b.blue), (&a.orange, &b.orange)] {
        assert_eq!(x.color, y.color);
        assert_eq!(x.name, y.name);
        assert_eq!(x.players.len(), y.players.len());
        for (p, q) in x.players.iter().zip(y.players.iter()) {
            assert_eq!(p.name, q.name);
            assert_eq!(p.id.platform, q.id.platform);
            assert_eq!(p.id.id, q.id.id);
            assert_eq!(p.car_id, q.car_id);
            assert_eq!(p.car_name, q.car_name);
            assert_eq!(p.stats, q.stats);
        }
        assert_eq!(x.stats, y.stats);
    }
}

#[test]
fn transforming_twice_differs_only_in_id_and_timestamp() {
    let replay = sample_replay();
    let first = parse_to_ballchasing(&replay);
    let second = parse_to_ballchasing(&replay);
    assert_same_but_fresh(&first, &second);
    // The generated identifiers are fresh on every call.
    assert_eq!(first.id.len(), 36);
    assert_eq!(second.id.len(), 36);
    assert_ne!(first.id, second.id);
}

#[test]
fn missing_player_stats_gives_empty_teams_and_no_mvp() {
    let mut replay = sample_replay();
    replay.properties.retain(|(k, _)| k != "PlayerStats");
    let summary = parse_to_ballchasing(&replay);
    assert!(summary.blue.players.is_empty());
    assert!(summary.orange.players.is_empty());
}

#[test]
fn empty_property_list_still_yields_a_complete_summary() {
    let replay = Replay {
        header_size: 0,
        header_crc: 0,
        major_version: 0,
        minor_version: 0,
        properties: Vec::new(),
        network_frames: None,
    };
    let summary = parse_to_ballchasing(&replay);
    assert_eq!(summary.status, "ok");
    assert_eq!(summary.rocket_league_id, "");
    assert_eq!(summary.title, "");
    assert_eq!(summary.team_size, 0);
    assert_eq!(summary.duration_millis, 0);
    assert!(!summary.overtime);
    assert_eq!(summary.overtime_seconds, 0);
    assert!(summary.blue.players.is_empty());
    assert!(summary.orange.players.is_empty());
}
