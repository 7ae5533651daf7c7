use ddapi_rs::ddnet::{
    default_location, map_api, map_url_with_name, player_api, player_url_with_name, status_api,
    str_eq, Master, MasterServer, Query, ReleasesMaps,
};
use ddapi_rs::ddstats::{stats_map_api, stats_map_url, stats_player_api, Profile, StatsMap};
use ddapi_rs::encoding::{encode, slugify2};

#[test]
fn master_api_urls() {
    assert_eq!(
        Master::api(MasterServer::One),
        "https://master1.ddnet.org/ddnet/15/servers.json"
    );
    assert_eq!(
        Master::api(MasterServer::Four),
        "https://master4.ddnet.org/ddnet/15/servers.json"
    );
}

#[test]
fn master_server_indices() {
    assert_eq!(MasterServer::One.get_index(), 1);
    assert_eq!(MasterServer::Two.get_index(), 2);
    assert_eq!(MasterServer::Three.get_index(), 3);
    assert_eq!(MasterServer::Four.get_index(), 4);
}

#[test]
fn query_api_url() {
    assert_eq!(Query::api("ByFox"), "https://ddnet.org/players/?query=ByFox");
}

#[test]
fn releases_maps_api_url() {
    assert_eq!(ReleasesMaps::api(), "https://ddnet.org/releases/maps.json");
}

#[test]
fn status_api_url() {
    assert_eq!(status_api(), "https://ddnet.org/status/json/stats.json");
}

#[test]
fn player_api_urls() {
    assert_eq!(player_api("ByFox"), "https://ddnet.org/players/?json2=ByFox");
    assert_eq!(
        player_url_with_name("ByFox"),
        "https://ddnet.org/players/ByFox"
    );
}

#[test]
fn map_api_urls() {
    assert_eq!(map_api("Multeasymap"), "https://ddnet.org/maps/?json=Multeasymap");
    assert_eq!(
        map_url_with_name("Multeasymap"),
        "https://ddnet.org/maps/Multeasymap"
    );
}

#[test]
fn stats_api_urls() {
    assert_eq!(
        stats_player_api("ByFox"),
        "https://ddstats.tw/player/json?player=ByFox"
    );
    assert_eq!(stats_map_api("Multeasymap"), "https://ddstats.tw/map/json?map=Multeasymap");
    assert_eq!(stats_map_url("Multeasymap"), "https://ddstats.tw/map/Multeasymap");
    // the record link keeps the name as is; the site link slugifies it
    assert_eq!(stats_map_url("a b"), "https://ddstats.tw/map/a b");
    assert_eq!(StatsMap::url_with_name("a b"), "https://ddstats.tw/map/a-32-b");
    assert_eq!(StatsMap::api(), "https://ddstats.tw/maps/json");
    assert_eq!(
        StatsMap::url_with_name("Multeasymap"),
        "https://ddstats.tw/map/Multeasymap"
    );
    assert_eq!(Profile::api("ByFox"), "https://ddstats.tw/profile/json?player=ByFox");
    assert_eq!(
        Profile::url_with_name("ByFox"),
        "https://ddstats.tw/player/ByFox"
    );
}

#[test]
fn stats_struct_urls_use_own_fields() {
    let m = StatsMap { map: "Multeasymap".to_string(), ..Default::default() };
    assert_eq!(m.url(), "https://ddstats.tw/map/Multeasymap");
    let p = Profile { name: "ByFox".to_string(), ..Default::default() };
    assert_eq!(p.url(), "https://ddstats.tw/player/ByFox");
}

#[test]
fn slugify_keeps_plain_ascii() {
    assert_eq!(slugify2("Multeasymap"), "Multeasymap");
}

#[test]
fn slugify_replaces_symbols_with_code_points() {
    assert_eq!(slugify2("ban+eblan"), "ban-43-eblan");
    assert_eq!(slugify2("a b"), "a-32-b");
}

#[test]
fn slugify_keeps_fully_non_ascii_names() {
    // no character is ASCII or a slug symbol, so the name passes through
    assert_eq!(slugify2("\u{43c}\u{438}\u{440}"), "\u{43c}\u{438}\u{440}");
}

#[test]
fn slugify_encodes_non_ascii_when_mixed() {
    // one ASCII symbol makes the whole name run through the replacement
    assert_eq!(slugify2("\u{43c}!"), "-1084--33-");
}

#[test]
fn encode_keeps_printable_ascii() {
    assert_eq!(encode("ByFox"), "ByFox");
    assert_eq!(encode("ban+eblan"), "ban+eblan");
}

#[test]
fn encode_percent_encodes_non_ascii() {
    assert_eq!(encode("\u{442}\u{435}\u{441}\u{442}"), "%D1%82%D0%B5%D1%81%D1%82");
}

#[test]
fn encode_percent_encodes_control_characters() {
    assert_eq!(encode("a\tb"), "a%09b");
}

#[test]
fn str_eq_compares_characters() {
    assert!(str_eq("abc", "abc"));
    assert!(!str_eq("abc", "abd"));
    assert!(!str_eq("abc", "ab"));
    assert!(str_eq("", ""));
}

#[test]
fn default_location_is_unknown() {
    assert_eq!(default_location(), "unknown");
}
