//! Player extraction, MVP selection and team grouping on concrete values.

use replay_summary::parser::{build_team, parse_players};
use replay_summary::props::PropValue;
use replay_summary::resolver::CarMap;

fn props_of(entries: Vec<(&str, PropValue)>) -> Vec<(String, PropValue)> {
    entries.into_iter().map(|(k, v)| (k.to_string(), v)).collect()
}

fn player_record(name: &str, team: i32, score: i32) -> Vec<(String, PropValue)> {
    props_of(vec![
        ("Name", PropValue::Str(name.to_string())),
        ("Team", PropValue::Int(team)),
        ("Score", PropValue::Int(score)),
        ("Goals", PropValue::Int(1)),
        ("Shots", PropValue::Int(2)),
        ("Assists", PropValue::Int(0)),
        ("Saves", PropValue::Int(3)),
    ])
}

fn stats_props(records: Vec<Vec<(String, PropValue)>>) -> Vec<(String, PropValue)> {
    props_of(vec![("PlayerStats", PropValue::Array(records))])
}

#[test]
fn mvp_goes_to_first_maximal_score() {
    let props = stats_props(vec![
        player_record("a", 0, 200),
        player_record("b", 0, 500),
        player_record("c", 1, 500),
        player_record("d", 1, 100),
    ]);
    let players = parse_players(&props, &CarMap::new());
    assert_eq!(players.len(), 4);
    let flags: Vec<bool> = players.iter().map(|e| e.2.stats.core.mvp).collect();
    assert_eq!(flags, vec![false, true, false, false]);
}

#[test]
fn exactly_one_mvp_even_with_all_equal_scores() {
    let props = stats_props(vec![
        player_record("a", 0, 0),
        player_record("b", 1, 0),
        player_record("c", 0, 0),
    ]);
    let players = parse_players(&props, &CarMap::new());
    let flags: Vec<bool> = players.iter().map(|e| e.2.stats.core.mvp).collect();
    assert_eq!(flags, vec![true, false, false]);
}

#[test]
fn empty_record_array_flags_nobody() {
    let props = stats_props(vec![]);
    let players = parse_players(&props, &CarMap::new());
    assert_eq!(players.len(), 0);
}

#[test]
fn invalid_team_index_joins_no_roster_but_can_be_mvp() {
    let props = stats_props(vec![
        player_record("blue player", 0, 100),
        player_record("stray", 2, 900),
        player_record("orange player", 1, 200),
    ]);
    let players = parse_players(&props, &CarMap::new());
    let blue = build_team("blue", &players, 0);
    let orange = build_team("orange", &players, 1);
    assert_eq!(blue.players.len(), 1);
    assert_eq!(blue.players[0].name, "blue player");
    assert_eq!(orange.players.len(), 1);
    assert_eq!(orange.players[0].name, "orange player");
    // The stray entry appears in neither roster, yet it won the MVP flag.
    assert!(players[1].2.stats.core.mvp);
    assert!(!blue.players[0].stats.core.mvp);
    assert!(!orange.players[0].stats.core.mvp);
}

#[test]
fn unassigned_sentinel_team_joins_no_roster() {
    let props = stats_props(vec![player_record("nobody", -1, 10)]);
    let players = parse_players(&props, &CarMap::new());
    assert_eq!(players[0].1, -1);
    let blue = build_team("blue", &players, 0);
    let orange = build_team("orange", &players, 1);
    assert!(blue.players.is_empty());
    assert!(orange.players.is_empty());
}

#[test]
fn team_objects_carry_color_name_and_zero_stats() {
    let players = Vec::new();
    let team = build_team("blue", &players, 0);
    assert_eq!(team.color, "blue");
    assert_eq!(team.name, "blue team");
    assert_eq!(team.stats.core.score, 0);
    assert_eq!(team.stats.core.shots, 0);
    assert_eq!(team.stats.demo.inflicted, 0);
    assert!(!team.stats.core.mvp);
}

#[test]
fn grouping_preserves_extraction_order() {
    let props = stats_props(vec![
        player_record("one", 0, 5),
        player_record("two", 1, 6),
        player_record("three", 0, 7),
        player_record("four", 0, 8),
    ]);
    let players = parse_players(&props, &CarMap::new());
    let blue = build_team("blue", &players, 0);
    let names: Vec<&str> = blue.players.iter().map(|p| p.name.as_str()).collect();
    assert_eq!(names, vec!["one", "three", "four"]);
}

#[test]
fn player_fields_degrade_to_defaults() {
    let props = stats_props(vec![vec![]]);
    let players = parse_players(&props, &CarMap::new());
    assert_eq!(players.len(), 1);
    let (score, team, player) = &players[0];
    assert_eq!(*score, 0);
    assert_eq!(*team, -1);
    assert_eq!(player.name, "Unknown");
    assert_eq!(player.id.platform, "unknown");
    assert_eq!(player.id.id, "unknown");
    assert_eq!(player.car_id, 0);
    assert_eq!(player.car_name, "Unknown");
    assert_eq!(player.stats.core.shooting_percentage, 0);
    assert_eq!(player.stats.boost.bpm, 0);
    assert_eq!(player.stats.demo.inflicted, 0);
    assert_eq!(player.stats.demo.taken, 0);
}

#[test]
fn player_identity_decodes_nested_record() {
    let identity = PropValue::Struct {
        name: "UniqueNetId".to_string(),
        fields: props_of(vec![
            ("Uid", PropValue::QWord(76561198012345678)),
            (
                "Platform",
                PropValue::Byte {
                    kind: "OnlinePlatform".to_string(),
                    label: Some("OnlinePlatform_Steam".to_string()),
                },
            ),
        ]),
    };
    let mut record = player_record("ana", 0, 50);
    record.push(("PlayerID".to_string(), identity));
    let props = stats_props(vec![record]);
    let players = parse_players(&props, &CarMap::new());
    assert_eq!(players[0].2.id.platform, "steam");
    assert_eq!(players[0].2.id.id, "76561198012345678");
}

#[test]
fn player_platform_labels_map_to_tags() {
    let cases = vec![
        ("OnlinePlatform_Steam", "steam"),
        ("OnlinePlatform_Epic", "epic"),
        ("OnlinePlatform_PS4", "ps4"),
        ("OnlinePlatform_PS5", "ps5"),
        ("OnlinePlatform_Xbox", "xbox"),
        ("OnlinePlatform_Switch", "switch"),
        ("OnlinePlatform_Dingus", "OnlinePlatform_Dingus"),
    ];
    for (label, expected) in cases {
        let identity = PropValue::Struct {
            name: "UniqueNetId".to_string(),
            fields: props_of(vec![(
                "Platform",
                PropValue::Byte { kind: "OnlinePlatform".to_string(), label: Some(label.to_string()) },
            )]),
        };
        let mut record = player_record("p", 0, 1);
        record.push(("PlayerID".to_string(), identity));
        let props = stats_props(vec![record]);
        let players = parse_players(&props, &CarMap::new());
        assert_eq!(players[0].2.id.platform, expected);
        // The Uid sub-field was absent, so the id falls back.
        assert_eq!(players[0].2.id.id, "unknown");
    }
}

#[test]
fn player_stats_wrap_and_percentage() {
    let record = props_of(vec![
        ("Name", PropValue::Str("sharp".to_string())),
        ("Team", PropValue::Int(1)),
        ("Score", PropValue::Int(740)),
        ("Goals", PropValue::Int(3)),
        ("Shots", PropValue::Int(4)),
        ("Assists", PropValue::Int(2)),
        ("Saves", PropValue::Int(1)),
    ]);
    let props = stats_props(vec![record]);
    let players = parse_players(&props, &CarMap::new());
    let core = &players[0].2.stats.core;
    assert_eq!(core.score, 740);
    assert_eq!(core.goals, 3);
    assert_eq!(core.shots, 4);
    assert_eq!(core.assists, 2);
    assert_eq!(core.saves, 1);
    assert_eq!(core.shooting_percentage, 75);
}
