//! The consumer-facing summary schema: match, team and player objects, and
//! their mathematical views. Durations are fixed point in thousandths of a
//! second.

use vstd::prelude::*;

verus! {

/// The assembled match summary.
pub struct BallchasingReplay {
    pub id: String,
    pub created: String,
    pub status: String,
    pub rocket_league_id: String,
    pub match_guid: String,
    pub title: String,
    pub map_code: String,
    pub match_type: String,
    pub team_size: u8,
    pub playlist_id: String,
    pub duration_millis: i64,
    pub overtime: bool,
    pub overtime_seconds: u32,
    pub date: String,
    pub blue: BallchasingTeam,
    pub orange: BallchasingTeam,
    pub playlist_name: String,
    pub map_name: String,
}

/// One team: a color label, display name, its players and a placeholder
/// stats block (always zero; no per-team aggregation is performed).
pub struct BallchasingTeam {
    pub color: String,
    pub name: String,
    pub players: Vec<BallchasingPlayer>,
    pub stats: BallchasingTeamStats,
}

/// One resolved player.
pub struct BallchasingPlayer {
    pub name: String,
    pub id: PlayerId,
    pub car_id: u32,
    pub car_name: String,
    pub stats: PlayerStats,
}

/// A player's platform identity: platform tag and opaque id string.
pub struct PlayerId {
    pub platform: String,
    pub id: String,
}

/// A player's stats block.
#[derive(Clone, Copy, Debug, PartialEq, Eq, Structural)]
pub struct PlayerStats {
    pub core: CoreStats,
    pub boost: BoostStats,
    pub demo: DemoStats,
}

/// Core counters of a player or team.
#[derive(Clone, Copy, Debug, PartialEq, Eq, Structural)]
pub struct CoreStats {
    pub shots: u32,
    pub goals: u32,
    pub saves: u32,
    pub assists: u32,
    pub score: u32,
    pub mvp: bool,
    pub shooting_percentage: u32,
}

/// Boost statistics; a placeholder, always zero.
#[derive(Clone, Copy, Debug, PartialEq, Eq, Structural)]
pub struct BoostStats {
    pub bpm: u32,
}

/// Demolition statistics; a placeholder, always zero.
#[derive(Clone, Copy, Debug, PartialEq, Eq, Structural)]
pub struct DemoStats {
    pub inflicted: u32,
    pub taken: u32,
}

/// A team's stats block; a placeholder, always zero.
#[derive(Clone, Copy, Debug, PartialEq, Eq, Structural)]
pub struct BallchasingTeamStats {
    pub core: CoreStats,
    pub demo: DemoStats,
}

/// The view of a platform identity.
pub struct PlayerIdV {
    pub platform: Seq<char>,
    pub id: Seq<char>,
}

/// The view of a resolved player.
pub struct PlayerV {
    pub name: Seq<char>,
    pub id: PlayerIdV,
    pub car_id: u32,
    pub car_name: Seq<char>,
    pub stats: PlayerStats,
}

/// The view of a team.
pub struct TeamV {
    pub color: Seq<char>,
    pub name: Seq<char>,
    pub players: Seq<PlayerV>,
    pub stats: BallchasingTeamStats,
}

/// The view of a match summary.
pub struct BallchasingReplayV {
    pub id: Seq<char>,
    pub created: Seq<char>,
    pub status: Seq<char>,
    pub rocket_league_id: Seq<char>,
    pub match_guid: Seq<char>,
    pub title: Seq<char>,
    pub map_code: Seq<char>,
    pub match_type: Seq<char>,
    pub team_size: u8,
    pub playlist_id: Seq<char>,
    pub duration_millis: i64,
    pub overtime: bool,
    pub overtime_seconds: u32,
    pub date: Seq<char>,
    pub blue: TeamV,
    pub orange: TeamV,
    pub playlist_name: Seq<char>,
    pub map_name: Seq<char>,
}

impl View for PlayerId {
    type V = PlayerIdV;

    open spec fn view(&self) -> PlayerIdV {
        PlayerIdV { platform: self.platform@, id: self.id@ }
    }
}

impl View for BallchasingPlayer {
    type V = PlayerV;

    open spec fn view(&self) -> PlayerV {
        PlayerV {
            name: self.name@,
            id: self.id@,
            car_id: self.car_id,
            car_name: self.car_name@,
            stats: self.stats,
        }
    }
}

impl View for BallchasingTeam {
    type V = TeamV;

    open spec fn view(&self) -> TeamV {
        TeamV {
            color: self.color@,
            name: self.name@,
            players: self.players@.map_values(|p: BallchasingPlayer| p@),
            stats: self.stats,
        }
    }
}

impl View for BallchasingReplay {
    type V = BallchasingReplayV;

    open spec fn view(&self) -> BallchasingReplayV {
        BallchasingReplayV {
            id: self.id@,
            created: self.created@,
            status: self.status@,
            rocket_league_id: self.rocket_league_id@,
            match_guid: self.match_guid@,
            title: self.title@,
            map_code: self.map_code@,
            match_type: self.match_type@,
            team_size: self.team_size,
            playlist_id: self.playlist_id@,
            duration_millis: self.duration_millis,
            overtime: self.overtime,
            overtime_seconds: self.overtime_seconds,
            date: self.date@,
            blue: self.blue@,
            orange: self.orange@,
            playlist_name: self.playlist_name@,
            map_name: self.map_name@,
        }
    }
}

impl Clone for PlayerId {
    /// An exact copy.
    fn clone(&self) -> (res: Self)
        ensures
            res == *self,
    {
        PlayerId { platform: self.platform.clone(), id: self.id.clone() }
    }
}

impl Clone for BallchasingPlayer {
    /// An exact copy.
    fn clone(&self) -> (res: Self)
        ensures
            res == *self,
    {
        BallchasingPlayer {
            name: self.name.clone(),
            id: self.id.clone(),
            car_id: self.car_id,
            car_name: self.car_name.clone(),
            stats: self.stats,
        }
    }
}

} // verus!
