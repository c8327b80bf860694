//! The basic match summary: match type, the two team scores, and the raw
//! per-player counters, without car resolution, MVP selection or team
//! grouping.

use vstd::prelude::*;

use crate::props::{
    get_array, get_i32, get_string, spec_get_array, spec_get_i32, spec_get_string, PropList,
    PropValue,
};

verus! {

/// One player's raw counters.
pub struct BasicPlayer {
    pub name: String,
    pub goals: i32,
    pub assists: i32,
    pub saves: i32,
    pub shots: i32,
    pub score: i32,
    pub team: i32,
}

/// The view of a basic player.
pub struct BasicPlayerV {
    pub name: Seq<char>,
    pub goals: i32,
    pub assists: i32,
    pub saves: i32,
    pub shots: i32,
    pub score: i32,
    pub team: i32,
}

impl View for BasicPlayer {
    type V = BasicPlayerV;

    open spec fn view(&self) -> BasicPlayerV {
        BasicPlayerV {
            name: self.name@,
            goals: self.goals,
            assists: self.assists,
            saves: self.saves,
            shots: self.shots,
            score: self.score,
            team: self.team,
        }
    }
}

/// The basic summary of a match.
pub struct BasicSummary {
    pub match_type: String,
    pub team0_score: i32,
    pub team1_score: i32,
    pub players: Vec<BasicPlayer>,
}

/// The view of a basic summary.
pub struct BasicSummaryV {
    pub match_type: Seq<char>,
    pub team0_score: i32,
    pub team1_score: i32,
    pub players: Seq<BasicPlayerV>,
}

impl View for BasicSummary {
    type V = BasicSummaryV;

    open spec fn view(&self) -> BasicSummaryV {
        BasicSummaryV {
            match_type: self.match_type@,
            team0_score: self.team0_score,
            team1_score: self.team1_score,
            players: self.players@.map_values(|p: BasicPlayer| p@),
        }
    }
}

/// One raw record's basic counters; every missing or mistyped field
/// degrades to its default ("Unknown" for the name, 0 for every counter and
/// the team index).
pub open spec fn spec_basic_player_of(rec: Seq<(String, PropValue)>) -> BasicPlayerV {
    BasicPlayerV {
        name: spec_get_string(rec, "Name"@, "Unknown"@),
        goals: spec_get_i32(rec, "Goals"@),
        assists: spec_get_i32(rec, "Assists"@),
        saves: spec_get_i32(rec, "Saves"@),
        shots: spec_get_i32(rec, "Shots"@),
        score: spec_get_i32(rec, "Score"@),
        team: spec_get_i32(rec, "Team"@),
    }
}

/// The basic summary a property list denotes.
pub open spec fn spec_basic_summary(props: Seq<(String, PropValue)>) -> BasicSummaryV {
    BasicSummaryV {
        match_type: spec_get_string(props, "MatchType"@, "Unknown"@),
        team0_score: spec_get_i32(props, "Team0Score"@),
        team1_score: spec_get_i32(props, "Team1Score"@),
        players: spec_get_array(props, "PlayerStats"@).map_values(
            |r: Vec<(String, PropValue)>| spec_basic_player_of(r@),
        ),
    }
}

fn basic_player_of(rec: &PropList) -> (r: BasicPlayer)
    ensures
        r@ == spec_basic_player_of(rec@),
{
    BasicPlayer {
        name: get_string(rec, "Name", "Unknown"),
        goals: get_i32(rec, "Goals"),
        assists: get_i32(rec, "Assists"),
        saves: get_i32(rec, "Saves"),
        shots: get_i32(rec, "Shots"),
        score: get_i32(rec, "Score"),
        team: get_i32(rec, "Team"),
    }
}

/// Extract the basic summary: match type, team scores, and each raw player
/// record's counters, in order.
pub fn basic_summary(props: &PropList) -> (r: BasicSummary)
    ensures
        r@ == spec_basic_summary(props@),
{
    let empty_records: Vec<Vec<(String, PropValue)>> = Vec::new();
    let records: &Vec<Vec<(String, PropValue)>> = match get_array(props, "PlayerStats") {
        Some(a) => a,
        None => &empty_records,
    };
    let ghost recs = spec_get_array(props@, "PlayerStats"@);
    proof {
        assert(records@ =~= recs);
    }
    let mut players: Vec<BasicPlayer> = Vec::new();
    let n = records.len();
    let mut i: usize = 0;
    while i < n
        invariant
            i <= n,
            n == records@.len(),
            records@ == recs,
            players@.len() == i,
            forall|k: int| 0 <= k < i ==> players@[k]@ == spec_basic_player_of(recs[k]@),
        decreases n - i,
    {
        let entry = basic_player_of(&records[i]);
        players.push(entry);
        i = i + 1;
    }
    let summary = BasicSummary {
        match_type: get_string(props, "MatchType", "Unknown"),
        team0_score: get_i32(props, "Team0Score"),
        team1_score: get_i32(props, "Team1Score"),
        players,
    };
    proof {
        assert(summary@.players =~= spec_basic_summary(props@).players);
    }
    summary
}

} // verus!
