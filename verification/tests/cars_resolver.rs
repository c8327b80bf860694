//! The car catalogue and the cross-stream car-identity resolver on concrete
//! frames.

use replay_summary::cars::{car_name_of, get_car_map};
use replay_summary::frames::{Attribute, Frame, LoadoutConfig, TeamLoadout, UpdatedActor};
use replay_summary::resolver::{get_car_ids_by_name, CarMap};

fn loadout(body: u32) -> LoadoutConfig {
    LoadoutConfig {
        version: 22,
        body,
        decal: 0,
        wheels: 376,
        rocket_trail: 35,
        antenna: 0,
        topper: 0,
        unknown1: 0,
        unknown2: 0,
        engine_audio: 0,
        trail: 3224,
        goal_explosion: 3525,
        banner: 0,
        product_id: 0,
    }
}

fn team_loadout_update(actor_id: i32, body: u32) -> UpdatedActor {
    UpdatedActor {
        actor_id,
        stream_id: 1,
        object_id: 2,
        attribute: Attribute::TeamLoadout(TeamLoadout { blue: loadout(body), orange: loadout(body + 1) }),
    }
}

fn string_update(actor_id: i32, value: &str) -> UpdatedActor {
    UpdatedActor {
        actor_id,
        stream_id: 3,
        object_id: 4,
        attribute: Attribute::Str(value.to_string()),
    }
}

fn frame_of(updated_actors: Vec<UpdatedActor>) -> Frame {
    Frame { time_millis: 0, delta_millis: 33, updated_actors }
}

#[test]
fn catalogue_names_octane() {
    let table = get_car_map();
    assert_eq!(table.len(), 143);
    assert_eq!(car_name_of(&table, 23), "Octane");
    assert_eq!(car_name_of(&table, 4284), "Fennec");
    assert_eq!(car_name_of(&table, 999999), "Unknown");
}

#[test]
fn loadout_and_name_on_same_actor_resolve_in_one_frame() {
    let frames = vec![frame_of(vec![
        team_loadout_update(7, 23),
        string_update(7, "Ana"),
    ])];
    let map = get_car_ids_by_name(&frames);
    let found = map.get(&"Ana".to_string());
    assert_eq!(found, Some((23, "Octane".to_string())));
}

#[test]
fn different_actor_ids_do_not_correlate() {
    let frames = vec![frame_of(vec![
        team_loadout_update(7, 23),
        string_update(8, "Ana"),
    ])];
    let map = get_car_ids_by_name(&frames);
    assert_eq!(map.get(&"Ana".to_string()), None);
}

#[test]
fn updates_in_different_frames_do_not_correlate() {
    let frames = vec![
        frame_of(vec![team_loadout_update(7, 23)]),
        frame_of(vec![string_update(7, "Ana")]),
    ];
    let map = get_car_ids_by_name(&frames);
    assert_eq!(map.get(&"Ana".to_string()), None);
}

#[test]
fn later_loadout_for_same_name_wins() {
    let frames = vec![
        frame_of(vec![team_loadout_update(7, 23), string_update(7, "Ana")]),
        frame_of(vec![team_loadout_update(9, 4284), string_update(9, "Ana")]),
    ];
    let map = get_car_ids_by_name(&frames);
    assert_eq!(map.get(&"Ana".to_string()), Some((4284, "Fennec".to_string())));
}

#[test]
fn unknown_body_id_maps_to_unknown_name() {
    let frames = vec![frame_of(vec![
        team_loadout_update(5, 424242),
        string_update(5, "Mystery"),
    ])];
    let map = get_car_ids_by_name(&frames);
    assert_eq!(map.get(&"Mystery".to_string()), Some((424242, "Unknown".to_string())));
}

#[test]
fn empty_stream_resolves_nothing() {
    let frames: Vec<Frame> = Vec::new();
    let map = get_car_ids_by_name(&frames);
    assert_eq!(map.get(&"Ana".to_string()), None);
    let empty = CarMap::new();
    assert_eq!(empty.get(&"Ana".to_string()), None);
}

#[test]
fn resolver_reads_the_blue_side_of_the_loadout() {
    // The update carries body 23 on the blue side and 24 on the orange side;
    // the resolver always records the blue side.
    let frames = vec![frame_of(vec![
        team_loadout_update(3, 23),
        string_update(3, "Orange Player"),
    ])];
    let map = get_car_ids_by_name(&frames);
    assert_eq!(map.get(&"Orange Player".to_string()), Some((23, "Octane".to_string())));
}
