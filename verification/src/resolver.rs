//! The car identity resolver: a one-shot mapping from player display name
//! to the car the player was using, built by correlating two attribute
//! updates that share one actor identifier within a single frame.

use vstd::prelude::*;

use crate::cars::{car_name_of, get_car_map, spec_car_name, spec_car_table, spec_table_view};
use crate::frames::{Attribute, Frame, UpdatedActor};

verus! {

/// A name → (body id, car name) mapping. Later writes shadow earlier ones.
pub struct CarMap {
    entries: Vec<(String, u32, String)>,
}

/// The mapping an entry list denotes: entries applied in order, last write
/// wins.
pub open spec fn spec_entries_map(entries: Seq<(String, u32, String)>) -> Map<
    Seq<char>,
    (u32, Seq<char>),
>
    decreases entries.len(),
{
    if entries.len() == 0 {
        Map::empty()
    } else {
        spec_entries_map(entries.drop_last()).insert(
            entries.last().0@,
            (entries.last().1, entries.last().2@),
        )
    }
}

impl View for CarMap {
    type V = Map<Seq<char>, (u32, Seq<char>)>;

    closed spec fn view(&self) -> Map<Seq<char>, (u32, Seq<char>)> {
        spec_entries_map(self.entries@)
    }
}

impl CarMap {
    /// An empty mapping.
    pub fn new() -> (r: CarMap)
        ensures
            r@ == Map::<Seq<char>, (u32, Seq<char>)>::empty(),
    {
        CarMap { entries: Vec::new() }
    }

    /// Record a player's car; overwrites what an earlier write recorded
    /// under the same name.
    pub fn insert(&mut self, name: String, body: u32, car: String)
        ensures
            final(self)@ == old(self)@.insert(name@, (body, car@)),
    {
        self.entries.push((name, body, car));
        proof {
            assert(self.entries@.drop_last() =~= old(self).entries@);
        }
    }

    /// The car recorded for a name, if any.
    pub fn get(&self, name: &String) -> (r: Option<(u32, String)>)
        ensures
            match r {
                Some(v) => self@.contains_key(name@) && self@[name@] == (v.0, v.1@),
                None => !self@.contains_key(name@),
            },
    {
        let n = self.entries.len();
        let mut i: usize = n;
        proof {
            assert(self.entries@.take(n as int) =~= self.entries@);
        }
        while i > 0
            invariant
                i <= n,
                n == self.entries@.len(),
                spec_entries_map(self.entries@).contains_key(name@) == spec_entries_map(
                    self.entries@.take(i as int),
                ).contains_key(name@),
                spec_entries_map(self.entries@).contains_key(name@) ==> spec_entries_map(
                    self.entries@.take(i as int),
                )[name@] == spec_entries_map(self.entries@)[name@],
            decreases i,
        {
            i = i - 1;
            proof {
                assert(self.entries@.take(i as int + 1).drop_last() =~= self.entries@.take(
                    i as int,
                ));
                assert(self.entries@.take(i as int + 1).last() == self.entries@[i as int]);
            }
            if self.entries[i].0 == *name {
                return Some((self.entries[i].1, self.entries[i].2.clone()));
            }
        }
        proof {
            assert(self.entries@.take(0) =~= Seq::<(String, u32, String)>::empty());
        }
        None
    }
}

/// The display name replicated for an actor within one frame: the first
/// update on the same actor identifier whose attribute is a plain string.
pub open spec fn spec_name_for_actor(updates: Seq<UpdatedActor>, actor: i32) -> Option<Seq<char>>
    decreases updates.len(),
{
    if updates.len() == 0 {
        None
    } else {
        match updates[0].attribute {
            Attribute::Str(s) => if updates[0].actor_id == actor {
                Some(s@)
            } else {
                spec_name_for_actor(updates.drop_first(), actor)
            },
            _ => spec_name_for_actor(updates.drop_first(), actor),
        }
    }
}

/// Search a frame's update list for a plain-string update on the given
/// actor identifier.
fn name_for_actor<'a>(updates: &'a Vec<UpdatedActor>, actor: i32) -> (r: Option<&'a String>)
    ensures
        match r {
            Some(s) => spec_name_for_actor(updates@, actor) == Some(s@),
            None => spec_name_for_actor(updates@, actor) is None,
        },
{
    let n = updates.len();
    let mut i: usize = 0;
    proof {
        assert(updates@.skip(0) =~= updates@);
    }
    while i < n
        invariant
            i <= n,
            n == updates@.len(),
            spec_name_for_actor(updates@, actor) == spec_name_for_actor(
                updates@.skip(i as int),
                actor,
            ),
        decreases n - i,
    {
        proof {
            assert(updates@.skip(i as int)[0] == updates@[i as int]);
            assert(updates@.skip(i as int).drop_first() =~= updates@.skip(i as int + 1));
        }
        let u = &updates[i];
        if u.actor_id == actor {
            match &u.attribute {
                Attribute::Str(s) => {
                    return Some(s);
                },
                _ => {},
            }
        }
        i = i + 1;
    }
    proof {
        assert(updates@.skip(n as int) =~= Seq::<UpdatedActor>::empty());
    }
    None
}

/// What one update contributes to the mapping: a team-loadout update whose
/// actor also replicated a string name records that name against the
/// loadout's blue-side car body.
pub open spec fn spec_update_step(
    m: Map<Seq<char>, (u32, Seq<char>)>,
    all: Seq<UpdatedActor>,
    u: UpdatedActor,
) -> Map<Seq<char>, (u32, Seq<char>)> {
    match u.attribute {
        Attribute::TeamLoadout(l) => match spec_name_for_actor(all, u.actor_id) {
            Some(name) => m.insert(name, (l.blue.body, spec_car_name(l.blue.body))),
            None => m,
        },
        _ => m,
    }
}

/// The mapping after the first `n` updates of one frame.
pub open spec fn spec_updates_map(
    m0: Map<Seq<char>, (u32, Seq<char>)>,
    all: Seq<UpdatedActor>,
    n: int,
) -> Map<Seq<char>, (u32, Seq<char>)>
    decreases n,
{
    if n <= 0 {
        m0
    } else {
        spec_update_step(spec_updates_map(m0, all, n - 1), all, all[n - 1])
    }
}

/// The mapping after the first `n` frames.
pub open spec fn spec_frames_map(
    m0: Map<Seq<char>, (u32, Seq<char>)>,
    frames: Seq<Frame>,
    n: int,
) -> Map<Seq<char>, (u32, Seq<char>)>
    decreases n,
{
    if n <= 0 {
        m0
    } else {
        spec_updates_map(
            spec_frames_map(m0, frames, n - 1),
            frames[n - 1].updated_actors@,
            frames[n - 1].updated_actors@.len() as int,
        )
    }
}

/// The car mapping of a whole frame stream: frames in order, updates in
/// order within each frame, later matches for one name overwriting earlier
/// ones.
pub open spec fn spec_car_ids(frames: Seq<Frame>) -> Map<Seq<char>, (u32, Seq<char>)> {
    spec_frames_map(Map::empty(), frames, frames.len() as int)
}

/// Match car id and name by player name from the team-loadout attributes of
/// the frame stream.
pub fn get_car_ids_by_name(frames: &Vec<Frame>) -> (r: CarMap)
    ensures
        r@ == spec_car_ids(frames@),
{
    let mut car_ids = CarMap::new();
    let table = get_car_map();
    let frame_count = frames.len();
    let mut i: usize = 0;
    while i < frame_count
        invariant
            i <= frame_count,
            frame_count == frames@.len(),
            spec_table_view(table@) == spec_car_table(),
            car_ids@ == spec_frames_map(Map::empty(), frames@, i as int),
        decreases frame_count - i,
    {
        let updates = &frames[i].updated_actors;
        let update_count = updates.len();
        let mut j: usize = 0;
        while j < update_count
            invariant
                j <= update_count,
                i < frame_count,
                frame_count == frames@.len(),
                update_count == frames@[i as int].updated_actors@.len(),
                updates@ == frames@[i as int].updated_actors@,
                spec_table_view(table@) == spec_car_table(),
                car_ids@ == spec_updates_map(
                    spec_frames_map(Map::empty(), frames@, i as int),
                    frames@[i as int].updated_actors@,
                    j as int,
                ),
            decreases update_count - j,
        {
            let u = &updates[j];
            match &u.attribute {
                Attribute::TeamLoadout(loadout) => {
                    match name_for_actor(updates, u.actor_id) {
                        Some(player_name) => {
                            let body_id = loadout.blue.body;
                            let car_name = car_name_of(&table, body_id);
                            car_ids.insert(player_name.clone(), body_id, car_name.to_owned());
                        },
                        None => {},
                    }
                },
                _ => {},
            }
            j = j + 1;
        }
        i = i + 1;
    }
    car_ids
}

} // verus!
