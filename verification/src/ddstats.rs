//! Data model and URL builders for the player-statistics API.

use vstd::prelude::*;
use crate::encoding::{encode, slugify2, spec_encode, spec_slugify};

verus! {

/// Points of a player on one date.
#[derive(Default, Debug, Clone, PartialEq)]
pub struct PointsGraph {
    pub date: String,
    pub points: i64,
    pub rank_points: i64,
    pub team_points: i64,
}

/// A map, as the statistics site lists it.
#[derive(Default, Debug, Clone, PartialEq)]
pub struct StatsMap {
    pub map: String,
    pub server: String,
    pub points: u8,
    pub stars: u8,
    pub mapper: String,
    pub timestamp: Option<String>,
}

/// A teammate a player shares ranks with.
#[derive(Default, Debug, Clone, PartialEq)]
pub struct FavouriteTeammate {
    pub name: String,
    pub ranks_together: u64,
}

/// The profile of a player.
#[derive(Default, Debug, Clone, PartialEq)]
pub struct Profile {
    pub name: String,
    pub points: u64,
    pub clan: Option<String>,
    pub country: Option<u64>,
    pub skin_name: Option<String>,
    pub skin_color_body: Option<i64>,
    pub skin_color_feet: Option<i64>,
}

/// Points and rank over one span.
#[derive(Default, Debug, Clone, PartialEq)]
pub struct PPoints {
    pub points: i64,
    pub rank: i64,
}

/// One recent play session of a player.
#[derive(Default, Debug, Clone, PartialEq)]
pub struct RecentActivity {
    pub name: String,
    pub date: String,
    pub map_name: String,
    pub map: Option<StatsMap>,
    pub seconds_played: i64,
}

/// What was last seen of a player.
#[derive(Default, Debug, Clone, PartialEq)]
pub struct RecentPlayerInfo {
    pub name: String,
    pub clan: String,
    pub country: i16,
    pub skin_name: Option<String>,
    pub skin_color_body: Option<u64>,
    pub skin_color_feet: Option<u64>,
    pub last_seen: String,
    pub seconds_played: u64,
}

/// A map a player spends time on.
#[derive(Default, Debug, Clone, PartialEq)]
pub struct MostPlayedMap {
    pub map_name: String,
    pub seconds_played: u64,
    pub map: Option<StatsMap>,
}

/// Play time under one key, such as a game type or a location.
#[derive(Default, Debug, Clone, PartialEq)]
pub struct MostPlayed {
    pub key: String,
    pub seconds_played: u64,
}

/// Play time in one month.
#[derive(Default, Debug, Clone, PartialEq)]
pub struct PlaytimePerMonth {
    pub year_month: String,
    pub month: String,
    pub seconds_played: u64,
}

/// Aggregate play time of a player.
#[derive(Default, Debug, Clone, PartialEq)]
pub struct GeneralActivity {
    pub total_seconds_played: u64,
    pub start_of_playtime: String,
    pub average_seconds_played: u64,
}

/// A teammate a player shares first ranks with.
#[derive(Default, Debug, Clone, PartialEq)]
pub struct FavouriteRank1sTeammates {
    pub name: String,
    pub ranks_together: u64,
}

/// Play time of one player on a map.
#[derive(Default, Debug, Clone, PartialEq)]
pub struct PlaytimeSMap {
    pub name: String,
    pub seconds_played: u64,
}

impl StatsMap {
    /// The site link for this map.
    pub fn url(&self) -> (r: String)
        ensures
            r@ == "https://ddstats.tw/map/"@ + spec_encode(spec_slugify(self.map@)),
    {
        let mut s = "https://ddstats.tw/map/".to_owned();
        let slug = slugify2(self.map.as_str());
        let e = encode(slug.as_str());
        s.append(e.as_str());
        s
    }

    /// The site link for a map name.
    pub fn url_with_name(map: &str) -> (r: String)
        ensures
            r@ == "https://ddstats.tw/map/"@ + spec_encode(spec_slugify(map@)),
    {
        let mut s = "https://ddstats.tw/map/".to_owned();
        let slug = slugify2(map);
        let e = encode(slug.as_str());
        s.append(e.as_str());
        s
    }

    /// The endpoint that lists every map.
    pub fn api() -> (r: String)
        ensures
            r@ == "https://ddstats.tw/maps/json"@,
    {
        "https://ddstats.tw/maps/json".to_owned()
    }
}

impl Profile {
    /// The site link for this player.
    pub fn url(&self) -> (r: String)
        ensures
            r@ == "https://ddstats.tw/player/"@ + spec_encode(self.name@),
    {
        let mut s = "https://ddstats.tw/player/".to_owned();
        let e = encode(self.name.as_str());
        s.append(e.as_str());
        s
    }

    /// The site link for a player name.
    pub fn url_with_name(player: &str) -> (r: String)
        ensures
            r@ == "https://ddstats.tw/player/"@ + spec_encode(player@),
    {
        let mut s = "https://ddstats.tw/player/".to_owned();
        let e = encode(player);
        s.append(e.as_str());
        s
    }

    /// The profile endpoint for a player name.
    pub fn api(player: &str) -> (r: String)
        ensures
            r@ == "https://ddstats.tw/profile/json?player="@ + spec_encode(player@),
    {
        let mut s = "https://ddstats.tw/profile/json?player=".to_owned();
        let e = encode(player);
        s.append(e.as_str());
        s
    }
}

/// The player-details endpoint of the statistics site.
pub fn stats_player_api(player: &str) -> (r: String)
    ensures
        r@ == "https://ddstats.tw/player/json?player="@ + spec_encode(player@),
{
    let mut s = "https://ddstats.tw/player/json?player=".to_owned();
    let e = encode(player);
    s.append(e.as_str());
    s
}

/// The site link for a map name, as the map-details record links it:
/// percent-encoded only, with no slug replacement.
pub fn stats_map_url(map: &str) -> (r: String)
    ensures
        r@ == "https://ddstats.tw/map/"@ + spec_encode(map@),
{
    let mut s = "https://ddstats.tw/map/".to_owned();
    let e = encode(map);
    s.append(e.as_str());
    s
}

/// The map-details endpoint of the statistics site.
pub fn stats_map_api(map: &str) -> (r: String)
    ensures
        r@ == "https://ddstats.tw/map/json?map="@ + spec_encode(map@),
{
    let mut s = "https://ddstats.tw/map/json?map=".to_owned();
    let e = encode(map);
    s.append(e.as_str());
    s
}

} // verus!
