//! Data model and logic for the game-server list API: the master-server
//! list, its per-server info, and aggregation over the clients it reports.

use vstd::prelude::*;
use crate::digits::{decimal_digits, u64_to_decimal};
use crate::encoding::{encode, slugify2, spec_encode, spec_slugify};

verus! {

/// One of the four mirror hosts that serve the master list.
#[derive(Debug, Clone, Copy, PartialEq, Eq, Structural)]
pub enum MasterServer {
    One,
    Two,
    Three,
    Four,
}

pub open spec fn spec_master_index(m: MasterServer) -> int {
    match m {
        MasterServer::One => 1,
        MasterServer::Two => 2,
        MasterServer::Three => 3,
        MasterServer::Four => 4,
    }
}

impl MasterServer {
    /// The number of the mirror host, as it appears in its host name.
    pub fn get_index(&self) -> (r: i32)
        ensures
            r as int == spec_master_index(*self),
    {
        match self {
            MasterServer::One => 1,
            MasterServer::Two => 2,
            MasterServer::Three => 3,
            MasterServer::Four => 4,
        }
    }
}

/// One row of a player-search result.
#[derive(Default, Debug, Clone, PartialEq)]
pub struct Query {
    pub points: i64,
    pub name: String,
}

/// One released map, as the releases endpoint lists it.
#[derive(Default, Debug, Clone, PartialEq)]
pub struct ReleasesMaps {
    pub name: String,
    pub website: String,
    pub thumbnail: String,
    pub web_preview: String,
    pub type_field: String,
    pub points: u8,
    pub difficulty: u8,
    pub mapper: String,
    pub release: String,
    pub width: u64,
    pub height: u64,
    pub tiles: Vec<String>,
}

/// A clan name together with how many clients currently wear it.
#[derive(Default, Debug, Clone, PartialEq)]
pub struct ClansCount {
    pub name: String,
    pub count: usize,
}

/// The map a server currently runs.
#[derive(Default, Debug, Clone, PartialEq)]
pub struct IMap {
    pub name: String,
    pub sha256: Option<String>,
    pub size: Option<i64>,
}

/// The skin a client wears.
#[derive(Default, Debug, Clone, PartialEq)]
pub struct Skin {
    pub name: Option<String>,
    pub color_body: Option<i64>,
    pub color_feet: Option<i64>,
}

/// The community a server belongs to.
#[derive(Default, Debug, Clone, PartialEq)]
pub struct Community {
    pub id: String,
    pub icon: String,
    pub admin: Vec<String>,
    pub public_key: Option<String>,
    pub signature: Option<String>,
}

/// One client connected to a server.
#[derive(Default, Debug, Clone, PartialEq)]
pub struct Client {
    pub name: String,
    pub clan: String,
    pub country: i32,
    pub score: i64,
    pub is_player: bool,
    pub skin: Option<Skin>,
    pub afk: bool,
    pub team: i64,
}

/// What a server reports about itself.
#[derive(Default, Debug, Clone, PartialEq)]
pub struct Info {
    pub max_clients: i64,
    pub max_players: i64,
    pub passworded: bool,
    pub gametype: String,
    pub name: String,
    pub map: IMap,
    pub version: String,
    pub clients: Vec<Client>,
    pub requires_login: bool,
    pub community: Option<Community>,
}

/// One server of the master list.
#[derive(Default, Debug, Clone, PartialEq)]
pub struct Server {
    pub addresses: Vec<String>,
    pub location: String,
    pub info: Info,
}

/// The whole master list.
#[derive(Default, Debug, Clone, PartialEq)]
pub struct Master {
    pub servers: Vec<Server>,
}

/// Points of a player, with optional rank information.
#[derive(Default, Debug, Clone, PartialEq)]
pub struct Points {
    pub total: u64,
    pub points: Option<u64>,
    pub rank: Option<u64>,
}

/// A rank entry of a player.
#[derive(Default, Debug, Clone, PartialEq)]
pub struct Rank {
    pub points: Option<u64>,
    pub rank: Option<u64>,
}

/// The server a player plays on most.
#[derive(Default, Debug, Clone, PartialEq)]
pub struct FavoriteServer {
    pub server: String,
}

/// A partner a player finishes maps with.
#[derive(Default, Debug, Clone, PartialEq)]
pub struct FavoritePartner {
    pub name: String,
    pub finishes: i64,
}

/// Hours played on one date.
#[derive(Default, Debug, Clone, PartialEq)]
pub struct Activity {
    pub date: String,
    pub hours_played: i64,
}

/// The location a server is given when it reports none.
pub fn default_location() -> (r: String)
    ensures
        r@ == "unknown"@,
{
    "unknown".to_owned()
}

/// Whether two string slices hold the same characters.
pub fn str_eq(a: &str, b: &str) -> (r: bool)
    ensures
        r == (a@ == b@),
{
    let n = a.unicode_len();
    if n != b.unicode_len() {
        return false;
    }
    let mut i: usize = 0;
    while i < n
        invariant
            n == a@.len(),
            n == b@.len(),
            0 <= i <= n,
            forall|j: int| 0 <= j < i ==> a@[j] == b@[j],
        decreases n - i,
    {
        if a.get_char(i) != b.get_char(i) {
            return false;
        }
        i += 1;
    }
    proof {
        assert(a@ =~= b@);
    }
    true
}

impl Query {
    /// The player-search endpoint for a name.
    pub fn api(player: &str) -> (r: String)
        ensures
            r@ == "https://ddnet.org/players/?query="@ + spec_encode(player@),
    {
        let mut s = "https://ddnet.org/players/?query=".to_owned();
        let e = encode(player);
        s.append(e.as_str());
        s
    }
}

impl ReleasesMaps {
    /// The released-maps endpoint.
    pub fn api() -> (r: String)
        ensures
            r@ == "https://ddnet.org/releases/maps.json"@,
    {
        "https://ddnet.org/releases/maps.json".to_owned()
    }
}

/// The player-details endpoint for a name.
pub fn player_api(player: &str) -> (r: String)
    ensures
        r@ == "https://ddnet.org/players/?json2="@ + spec_encode(player@),
{
    let mut s = "https://ddnet.org/players/?json2=".to_owned();
    let e = encode(player);
    s.append(e.as_str());
    s
}

/// The site link for a player name.
pub fn player_url_with_name(player: &str) -> (r: String)
    ensures
        r@ == "https://ddnet.org/players/"@ + spec_encode(spec_slugify(player@)),
{
    let mut s = "https://ddnet.org/players/".to_owned();
    let slug = slugify2(player);
    let e = encode(slug.as_str());
    s.append(e.as_str());
    s
}

/// The map-details endpoint for a map name.
pub fn map_api(map: &str) -> (r: String)
    ensures
        r@ == "https://ddnet.org/maps/?json="@ + spec_encode(map@),
{
    let mut s = "https://ddnet.org/maps/?json=".to_owned();
    let e = encode(map);
    s.append(e.as_str());
    s
}

/// The server-status endpoint.
pub fn status_api() -> (r: String)
    ensures
        r@ == "https://ddnet.org/status/json/stats.json"@,
{
    "https://ddnet.org/status/json/stats.json".to_owned()
}

/// The site link for a map name.
pub fn map_url_with_name(map: &str) -> (r: String)
    ensures
        r@ == "https://ddnet.org/maps/"@ + spec_encode(spec_slugify(map@)),
{
    let mut s = "https://ddnet.org/maps/".to_owned();
    let slug = slugify2(map);
    let e = encode(slug.as_str());
    s.append(e.as_str());
    s
}

impl Server {
    /// How many clients this server reports.
    pub fn count_client(&self) -> (r: usize)
        ensures
            r == self.info.clients@.len(),
    {
        self.info.clients.len()
    }
}

/// All clients of all servers, in listing order.
pub open spec fn all_clients(servers: Seq<Server>) -> Seq<Client>
    decreases servers.len(),
{
    if servers.len() == 0 {
        Seq::empty()
    } else {
        all_clients(servers.drop_last()) + servers.last().info.clients@
    }
}

proof fn lemma_all_clients_take_step(servers: Seq<Server>, i: int)
    requires
        0 <= i < servers.len(),
    ensures
        all_clients(servers.take(i + 1)) =~= all_clients(servers.take(i))
            + servers[i].info.clients@,
{
    assert(servers.take(i + 1).drop_last() =~= servers.take(i));
    assert(servers.take(i + 1).last() == servers[i]);
}

proof fn lemma_all_clients_prefix_len(servers: Seq<Server>, i: int)
    requires
        0 <= i <= servers.len(),
    ensures
        all_clients(servers.take(i)).len() <= all_clients(servers).len(),
    decreases servers.len() - i,
{
    if i == servers.len() {
        assert(servers.take(i) =~= servers);
    } else {
        lemma_all_clients_take_step(servers, i);
        lemma_all_clients_prefix_len(servers, i + 1);
    }
}

/// Whether a client's clan is counted: a name is worn, and it is not on the
/// removal list.
pub open spec fn kept_clan(c: Client, removed: Seq<Seq<char>>) -> bool {
    c.clan@.len() > 0 && !removed.contains(c.clan@)
}

/// The clan names of the counted clients, one entry per client.
pub open spec fn kept_clans(cs: Seq<Client>, removed: Seq<Seq<char>>) -> Seq<Seq<char>>
    decreases cs.len(),
{
    if cs.len() == 0 {
        Seq::empty()
    } else {
        kept_clans(cs.drop_last(), removed) + if kept_clan(cs.last(), removed) {
            seq![cs.last().clan@]
        } else {
            Seq::empty()
        }
    }
}

/// How often a name occurs in a sequence of names.
pub open spec fn count_names(ns: Seq<Seq<char>>, name: Seq<char>) -> nat
    decreases ns.len(),
{
    if ns.len() == 0 {
        0
    } else {
        count_names(ns.drop_last(), name) + if ns.last() == name {
            1nat
        } else {
            0nat
        }
    }
}

/// How many of the given clients are in the given clan.
pub open spec fn count_clients_in(cs: Seq<Client>, name: Seq<char>) -> nat
    decreases cs.len(),
{
    if cs.len() == 0 {
        0
    } else {
        count_clients_in(cs.drop_last(), name) + if cs.last().clan@ == name {
            1nat
        } else {
            0nat
        }
    }
}

/// How many clients across all servers are in the given clan.
pub open spec fn clan_occurrences(servers: Seq<Server>, name: Seq<char>) -> nat {
    count_clients_in(all_clients(servers), name)
}

proof fn lemma_count_names_le_len(ns: Seq<Seq<char>>, name: Seq<char>)
    ensures
        count_names(ns, name) <= ns.len(),
    decreases ns.len(),
{
    if ns.len() > 0 {
        lemma_count_names_le_len(ns.drop_last(), name);
    }
}

proof fn lemma_count_names_absent(ns: Seq<Seq<char>>, name: Seq<char>)
    requires
        forall|i: int| 0 <= i < ns.len() ==> ns[i] != name,
    ensures
        count_names(ns, name) == 0,
    decreases ns.len(),
{
    if ns.len() > 0 {
        lemma_count_names_absent(ns.drop_last(), name);
    }
}

/// Counting a kept name over the kept-clan names equals counting it over
/// the clients themselves.
proof fn lemma_kept_count(cs: Seq<Client>, removed: Seq<Seq<char>>, name: Seq<char>)
    requires
        name.len() > 0,
        !removed.contains(name),
    ensures
        count_names(kept_clans(cs, removed), name) == count_clients_in(cs, name),
    decreases cs.len(),
{
    if cs.len() > 0 {
        lemma_kept_count(cs.drop_last(), removed, name);
        let pre = kept_clans(cs.drop_last(), removed);
        if kept_clan(cs.last(), removed) {
            assert((pre + seq![cs.last().clan@]).drop_last() =~= pre);
        } else {
            assert(pre + Seq::<Seq<char>>::empty() =~= pre);
            assert(cs.last().clan@ != name);
        }
    }
}

/// Every kept-clan entry is a non-empty, non-removed name.
proof fn lemma_kept_clans_entries(cs: Seq<Client>, removed: Seq<Seq<char>>)
    ensures
        forall|i: int|
            0 <= i < kept_clans(cs, removed).len() ==> (#[trigger] kept_clans(cs, removed)[i]).len()
                > 0 && !removed.contains(kept_clans(cs, removed)[i]),
    decreases cs.len(),
{
    if cs.len() > 0 {
        lemma_kept_clans_entries(cs.drop_last(), removed);
        let pre = kept_clans(cs.drop_last(), removed);
        assert forall|i: int| 0 <= i < kept_clans(cs, removed).len() implies (#[trigger] kept_clans(
            cs,
            removed,
        )[i]).len() > 0 && !removed.contains(kept_clans(cs, removed)[i]) by {
            if i < pre.len() {
                assert(kept_clans(cs, removed)[i] == pre[i]);
            } else {
                assert(kept_clan(cs.last(), removed));
                assert(kept_clans(cs, removed)[i] == cs.last().clan@);
            }
        }
    }
}

/// The clan of every counted client appears among the kept-clan names.
proof fn lemma_kept_clans_contains(cs: Seq<Client>, removed: Seq<Seq<char>>, i: int)
    requires
        0 <= i < cs.len(),
        kept_clan(cs[i], removed),
    ensures
        kept_clans(cs, removed).contains(cs[i].clan@),
    decreases cs.len(),
{
    let pre = kept_clans(cs.drop_last(), removed);
    if i == cs.len() - 1 {
        assert(kept_clans(cs, removed)[pre.len() as int] == cs[i].clan@);
    } else {
        lemma_kept_clans_contains(cs.drop_last(), removed, i);
        let k = choose|k: int| 0 <= k < pre.len() && pre[k] == cs[i].clan@;
        assert(kept_clans(cs, removed)[k] == cs[i].clan@);
    }
}

/// The views of a sequence of owned strings.
pub open spec fn str_views(ss: Seq<String>) -> Seq<Seq<char>> {
    ss.map_values(|s: String| s@)
}

/// The views of a sequence of string slices.
pub open spec fn ref_views(ss: Seq<&str>) -> Seq<Seq<char>> {
    ss.map_values(|s: &str| s@)
}

/// The clans that are never counted when no removal list is given.
pub open spec fn default_remove_list() -> Seq<Seq<char>> {
    seq!["DD-Persian"@, "/vDQMHSss8W"@]
}

/// The removal list in force for a call: the given names, or the default.
pub open spec fn removed_names(rm: Option<Vec<&str>>) -> Seq<Seq<char>> {
    match rm {
        Option::Some(v) => ref_views(v@),
        Option::None => default_remove_list(),
    }
}

fn name_in_list(name: &str, list: &Vec<&str>) -> (r: bool)
    ensures
        r == ref_views(list@).contains(name@),
{
    let mut i: usize = 0;
    while i < list.len()
        invariant
            0 <= i <= list@.len(),
            forall|j: int| 0 <= j < i ==> ref_views(list@)[j] != name@,
        decreases list@.len() - i,
    {
        if str_eq(list[i], name) {
            assert(ref_views(list@)[i as int] == name@);
            return true;
        }
        i += 1;
    }
    false
}

fn find_name(counts: &Vec<ClansCount>, nm: &str) -> (r: Option<usize>)
    ensures
        match r {
            Option::Some(p) => p < counts@.len() && counts@[p as int].name@ == nm@,
            Option::None => forall|q: int| 0 <= q < counts@.len() ==> counts@[q].name@ != nm@,
        },
{
    let mut p: usize = 0;
    while p < counts.len()
        invariant
            0 <= p <= counts@.len(),
            forall|q: int| 0 <= q < p ==> counts@[q].name@ != nm@,
        decreases counts@.len() - p,
    {
        if str_eq(counts[p].name.as_str(), nm) {
            return Some(p);
        }
        p += 1;
    }
    None
}

/// Whether some row of the tally carries the given name.
pub open spec fn clan_listed(nm: Seq<char>, rows: Seq<ClansCount>) -> bool {
    exists|k: int| 0 <= k < rows.len() && (#[trigger] rows[k]).name@ == nm
}

/// Every gathered name is represented by a row of one of the two vectors.
pub open spec fn names_covered(ns: Seq<Seq<char>>, a: Seq<ClansCount>, b: Seq<ClansCount>) -> bool {
    forall|idx: int| #![trigger ns[idx]]
        0 <= idx < ns.len() ==> clan_listed(ns[idx], a) || clan_listed(ns[idx], b)
}

proof fn lemma_covered_initial(ns: Seq<Seq<char>>, a: Seq<ClansCount>, b: Seq<ClansCount>)
    requires
        forall|idx: int| #![trigger ns[idx]] 0 <= idx < ns.len() ==> clan_listed(ns[idx], a),
    ensures
        names_covered(ns, a, b),
{
}

proof fn lemma_covered_after_move(
    ns: Seq<Seq<char>>,
    a_pre: Seq<ClansCount>,
    b_pre: Seq<ClansCount>,
    a_post: Seq<ClansCount>,
    b_post: Seq<ClansCount>,
    m: int,
)
    requires
        names_covered(ns, a_pre, b_pre),
        0 <= m < a_pre.len(),
        a_post == a_pre.remove(m),
        b_post == b_pre.push(a_pre[m]),
    ensures
        names_covered(ns, a_post, b_post),
{
    a_pre.remove_ensures(m);
    assert forall|idx: int| #![trigger ns[idx]] 0 <= idx < ns.len() implies clan_listed(
        ns[idx],
        a_post,
    ) || clan_listed(ns[idx], b_post) by {
        if clan_listed(ns[idx], a_pre) {
            let k0 = choose|k0: int|
                0 <= k0 < a_pre.len() && (#[trigger] a_pre[k0]).name@ == ns[idx];
            if k0 == m {
                assert(b_post[b_post.len() - 1].name@ == ns[idx]);
                assert(clan_listed(ns[idx], b_post));
            } else if k0 < m {
                assert(a_post[k0].name@ == ns[idx]);
                assert(clan_listed(ns[idx], a_post));
            } else {
                assert(a_post[k0 - 1].name@ == ns[idx]);
                assert(clan_listed(ns[idx], a_post));
            }
        } else {
            assert(clan_listed(ns[idx], b_pre));
            let k0 = choose|k0: int|
                0 <= k0 < b_pre.len() && (#[trigger] b_pre[k0]).name@ == ns[idx];
            assert(b_post[k0].name@ == ns[idx]);
            assert(clan_listed(ns[idx], b_post));
        }
    }
}

/// Whether a run of clan counts is sorted by descending count.
pub open spec fn sorted_desc(r: Seq<ClansCount>) -> bool {
    forall|i: int, j: int| 0 <= i < j < r.len() ==> #[trigger] r[i].count >= #[trigger] r[j].count
}

impl Master {
    /// The master-list endpoint of the chosen mirror host.
    pub fn api(master: MasterServer) -> (r: String)
        ensures
            r@ == "https://master"@ + decimal_digits(spec_master_index(master) as nat)
                + ".ddnet.org/ddnet/15/servers.json"@,
    {
        let index = master.get_index();
        let mut s = "https://master".to_owned();
        let digits = u64_to_decimal(index as u64);
        s.append(digits.as_str());
        s.append(".ddnet.org/ddnet/15/servers.json");
        s
    }

    /// The total number of clients across all listed servers.
    pub fn count_clients(&self) -> (r: usize)
        requires
            all_clients(self.servers@).len() <= usize::MAX,
        ensures
            r == all_clients(self.servers@).len(),
    {
        let n = self.servers.len();
        let mut total: usize = 0;
        let mut i: usize = 0;
        while i < n
            invariant
                n == self.servers@.len(),
                0 <= i <= n,
                all_clients(self.servers@).len() <= usize::MAX,
                total == all_clients(self.servers@.take(i as int)).len(),
            decreases n - i,
        {
            proof {
                lemma_all_clients_take_step(self.servers@, i as int);
                lemma_all_clients_prefix_len(self.servers@, i + 1);
            }
            let c = self.servers[i].count_client();
            total = total + c;
            i += 1;
        }
        proof {
            assert(self.servers@.take(n as int) =~= self.servers@);
        }
        total
    }

    /// The clans currently represented on the master list, counted and
    /// sorted by descending count, with the default removal list applied.
    pub fn get_clans(&self) -> (r: Vec<ClansCount>)
        ensures
            forall|k: int|
                0 <= k < r@.len() ==> (#[trigger] r@[k]).name@.len() > 0
                    && !default_remove_list().contains(r@[k].name@) && r@[k].count
                    == clan_occurrences(self.servers@, r@[k].name@) && r@[k].count >= 1,
            sorted_desc(r@),
            forall|i: int, j: int| 0 <= i < j < r@.len() ==> r@[i].name@ != r@[j].name@,
            forall|i: int|
                0 <= i < all_clients(self.servers@).len() && kept_clan(
                    #[trigger] all_clients(self.servers@)[i],
                    default_remove_list(),
                ) ==> exists|k: int|
                    0 <= k < r@.len() && (#[trigger] r@[k]).name@ == all_clients(
                        self.servers@,
                    )[i].clan@,
    {
        self.get_clans_with_custom_rm(None)
    }

    /// The clans currently represented on the master list, counted and
    /// sorted by descending count.  Clients without a clan are skipped, and
    /// so is every clan on the removal list (the default list when none is
    /// given).  Each kept clan appears exactly once, with the exact number
    /// of clients wearing it.
    pub fn get_clans_with_custom_rm(&self, rm: Option<Vec<&str>>) -> (r: Vec<ClansCount>)
        ensures
            forall|k: int|
                0 <= k < r@.len() ==> (#[trigger] r@[k]).name@.len() > 0 && !removed_names(
                    rm,
                ).contains(r@[k].name@) && r@[k].count == clan_occurrences(
                    self.servers@,
                    r@[k].name@,
                ) && r@[k].count >= 1,
            sorted_desc(r@),
            forall|i: int, j: int| 0 <= i < j < r@.len() ==> r@[i].name@ != r@[j].name@,
            forall|i: int|
                0 <= i < all_clients(self.servers@).len() && kept_clan(
                    #[trigger] all_clients(self.servers@)[i],
                    removed_names(rm),
                ) ==> exists|k: int|
                    0 <= k < r@.len() && (#[trigger] r@[k]).name@ == all_clients(
                        self.servers@,
                    )[i].clan@,
    {
        let ghost removed = removed_names(rm);
        let list: Vec<&str> = match rm {
            Option::Some(v) => {
                proof {
                    assert(ref_views(v@) =~= removed);
                }
                v
            },
            Option::None => {
                let l: Vec<&str> = vec!["DD-Persian", "/vDQMHSss8W"];
                proof {
                    assert(ref_views(l@) =~= removed);
                }
                l
            },
        };
        assert(ref_views(list@) == removed);

        // Gather the clan name of every counted client, one entry each.
        let mut names: Vec<String> = Vec::new();
        let n_servers = self.servers.len();
        let mut i: usize = 0;
        while i < n_servers
            invariant
                n_servers == self.servers@.len(),
                0 <= i <= n_servers,
                ref_views(list@) == removed,
                str_views(names@) == kept_clans(all_clients(self.servers@.take(i as int)), removed),
            decreases n_servers - i,
        {
            let clients = &self.servers[i].info.clients;
            let n_c = clients.len();
            let mut j: usize = 0;
            while j < n_c
                invariant
                    n_servers == self.servers@.len(),
                    0 <= i < n_servers,
                    n_c == clients@.len(),
                    0 <= j <= n_c,
                    clients@ == self.servers@[i as int].info.clients@,
                    ref_views(list@) == removed,
                    str_views(names@) == kept_clans(
                        all_clients(self.servers@.take(i as int)) + clients@.take(j as int),
                        removed,
                    ),
                decreases n_c - j,
            {
                let ghost pre = all_clients(self.servers@.take(i as int)) + clients@.take(j as int);
                let ghost names_pre = names@;
                let c = &clients[j];
                proof {
                    assert(all_clients(self.servers@.take(i as int)) + clients@.take(j + 1)
                        =~= pre.push(clients@[j as int]));
                    assert(pre.push(clients@[j as int]).drop_last() =~= pre);
                }
                let counted = !c.clan.as_str().is_empty() && !name_in_list(c.clan.as_str(), &list);
                if counted {
                    names.push(c.clan.clone());
                    proof {
                        assert(str_views(names@) =~= str_views(names_pre) + seq![
                            clients@[j as int].clan@,
                        ]);
                        assert(kept_clan(clients@[j as int], removed));
                    }
                } else {
                    proof {
                        assert(!kept_clan(clients@[j as int], removed));
                        assert(kept_clans(pre, removed) + Seq::<Seq<char>>::empty() =~= kept_clans(
                            pre,
                            removed,
                        ));
                    }
                }
                j += 1;
            }
            proof {
                assert(clients@.take(n_c as int) =~= clients@);
                lemma_all_clients_take_step(self.servers@, i as int);
            }
            i += 1;
        }
        proof {
            assert(self.servers@.take(n_servers as int) =~= self.servers@);
        }
        let ghost n_seq = str_views(names@);

        // Tally the gathered names: one row per distinct name.
        let mut counts: Vec<ClansCount> = Vec::new();
        let n_names = names.len();
        let mut t: usize = 0;
        while t < n_names
            invariant
                n_names == names@.len(),
                0 <= t <= n_names,
                n_seq == str_views(names@),
                n_seq.len() == n_names,
                forall|k: int|
                    0 <= k < counts@.len() ==> (#[trigger] counts@[k]).count == count_names(
                        n_seq.take(t as int),
                        counts@[k].name@,
                    ) && counts@[k].count >= 1 && n_seq.contains(counts@[k].name@),
                forall|k1: int, k2: int|
                    0 <= k1 < k2 < counts@.len() ==> counts@[k1].name@ != counts@[k2].name@,
                forall|idx: int| #![trigger n_seq[idx]]
                    0 <= idx < t ==> clan_listed(n_seq[idx], counts@),
            decreases n_names - t,
        {
            let nm = &names[t];
            proof {
                assert(n_seq[t as int] == nm@);
                assert(n_seq.take(t + 1).drop_last() =~= n_seq.take(t as int));
                assert(n_seq.take(t + 1).last() == n_seq[t as int]);
            }
            let ghost counts_pre = counts@;
            match find_name(&counts, nm.as_str()) {
                Option::Some(p) => {
                    proof {
                        lemma_count_names_le_len(n_seq.take(t as int), nm@);
                    }
                    let prev = counts[p].count;
                    let entry = ClansCount { name: nm.clone(), count: prev + 1 };
                    let ghost entry_snap = entry;
                    counts[p] = entry;
                    proof {
                        assert(counts@ =~= counts_pre.update(p as int, entry_snap));
                        assert forall|k: int|
                            0 <= k < counts@.len() implies (#[trigger] counts@[k]).count
                            == count_names(n_seq.take(t + 1), counts@[k].name@) && counts@[k].count
                            >= 1 && n_seq.contains(counts@[k].name@) by {
                            if k == p {
                                assert(counts@[k].name@ == nm@);
                                assert(count_names(n_seq.take(t + 1), nm@) == count_names(
                                    n_seq.take(t as int),
                                    nm@,
                                ) + 1);
                            } else {
                                assert(counts@[k] == counts_pre[k]);
                                assert(counts_pre[k].name@ != nm@);
                                assert(count_names(n_seq.take(t + 1), counts@[k].name@)
                                    == count_names(n_seq.take(t as int), counts@[k].name@));
                            }
                        }
                        assert forall|idx: int| #![trigger n_seq[idx]] 0 <= idx < t + 1 implies
                            clan_listed(n_seq[idx], counts@) by {
                            if idx == t {
                                assert(counts@[p as int].name@ == n_seq[idx]);
                            } else {
                                assert(clan_listed(n_seq[idx], counts_pre));
                                let k0 = choose|k0: int|
                                    0 <= k0 < counts_pre.len() && (#[trigger] counts_pre[k0]).name@
                                        == n_seq[idx];
                                assert(counts@[k0].name@ == n_seq[idx]);
                            }
                        }
                    }
                },
                Option::None => {
                    proof {
                        // names seen so far are covered by rows, none of which is `nm`
                        assert forall|idx: int| #![trigger n_seq.take(t as int)[idx]] 0 <= idx < t
                            implies n_seq.take(t as int)[idx] != nm@ by {
                            assert(n_seq.take(t as int)[idx] == n_seq[idx]);
                            assert(clan_listed(n_seq[idx], counts_pre));
                            let k0 = choose|k0: int|
                                0 <= k0 < counts_pre.len() && (#[trigger] counts_pre[k0]).name@
                                    == n_seq[idx];
                        }
                        lemma_count_names_absent(n_seq.take(t as int), nm@);
                    }
                    counts.push(ClansCount { name: nm.clone(), count: 1 });
                    proof {
                        assert forall|k: int|
                            0 <= k < counts@.len() implies (#[trigger] counts@[k]).count
                            == count_names(n_seq.take(t + 1), counts@[k].name@) && counts@[k].count
                            >= 1 && n_seq.contains(counts@[k].name@) by {
                            if k == counts@.len() - 1 {
                                assert(counts@[k].name@ == nm@);
                                assert(count_names(n_seq.take(t + 1), nm@) == count_names(
                                    n_seq.take(t as int),
                                    nm@,
                                ) + 1);
                            } else {
                                assert(counts@[k] == counts_pre[k]);
                                assert(counts_pre[k].name@ != nm@);
                                assert(count_names(n_seq.take(t + 1), counts@[k].name@)
                                    == count_names(n_seq.take(t as int), counts@[k].name@));
                            }
                        }
                        assert forall|idx: int| #![trigger n_seq[idx]] 0 <= idx < t + 1 implies
                            clan_listed(n_seq[idx], counts@) by {
                            if idx == t {
                                assert(counts@[counts@.len() - 1].name@ == n_seq[idx]);
                            } else {
                                assert(clan_listed(n_seq[idx], counts_pre));
                                let k0 = choose|k0: int|
                                    0 <= k0 < counts_pre.len() && (#[trigger] counts_pre[k0]).name@
                                        == n_seq[idx];
                                assert(counts@[k0].name@ == n_seq[idx]);
                            }
                        }
                    }
                },
            }
            t += 1;
        }
        proof {
            assert(n_seq.take(n_names as int) =~= n_seq);
        }

        // Sort by descending count, extracting a maximum each round.
        let mut out: Vec<ClansCount> = Vec::new();
        proof {
            lemma_covered_initial(n_seq, counts@, out@);
        }
        while counts.len() > 0
            invariant
                forall|k: int|
                    0 <= k < counts@.len() ==> (#[trigger] counts@[k]).count == count_names(
                        n_seq,
                        counts@[k].name@,
                    ) && counts@[k].count >= 1 && n_seq.contains(counts@[k].name@),
                forall|k: int|
                    0 <= k < out@.len() ==> (#[trigger] out@[k]).count == count_names(
                        n_seq,
                        out@[k].name@,
                    ) && out@[k].count >= 1 && n_seq.contains(out@[k].name@),
                sorted_desc(out@),
                forall|a: int, b: int|
                    0 <= a < out@.len() && 0 <= b < counts@.len() ==> (#[trigger] out@[a]).count
                        >= (#[trigger] counts@[b]).count,
                forall|k1: int, k2: int|
                    0 <= k1 < k2 < counts@.len() ==> counts@[k1].name@ != counts@[k2].name@,
                forall|k1: int, k2: int|
                    0 <= k1 < k2 < out@.len() ==> out@[k1].name@ != out@[k2].name@,
                forall|a: int, b: int|
                    0 <= a < out@.len() && 0 <= b < counts@.len() ==> (#[trigger] out@[a]).name@
                        != (#[trigger] counts@[b]).name@,
                names_covered(n_seq, counts@, out@),
            decreases counts@.len(),
        {
            let n_counts = counts.len();
            let mut m: usize = 0;
            let mut q: usize = 1;
            while q < n_counts
                invariant
                    n_counts == counts@.len(),
                    0 <= m < n_counts,
                    1 <= q <= n_counts,
                    forall|l: int| 0 <= l < q ==> counts@[l].count <= counts@[m as int].count,
                decreases n_counts - q,
            {
                if counts[q].count > counts[m].count {
                    m = q;
                }
                q += 1;
            }
            let ghost counts_pre = counts@;
            let ghost out_pre = out@;
            let e = counts.remove(m);
            out.push(e);
            proof {
                counts_pre.remove_ensures(m as int);
                assert(out@ =~= out_pre.push(counts_pre[m as int]));
                lemma_covered_after_move(n_seq, counts_pre, out_pre, counts@, out@, m as int);
            }
        }

        // Carry the tally on the gathered names back to the clients.
        proof {
            let servers = self.servers@;
            let cs = all_clients(servers);
            assert(n_seq == kept_clans(cs, removed));
            lemma_kept_clans_entries(cs, removed);
            assert forall|k: int| 0 <= k < out@.len() implies (#[trigger] out@[k]).name@.len() > 0
                && !removed.contains(out@[k].name@) && out@[k].count == clan_occurrences(
                servers,
                out@[k].name@,
            ) && out@[k].count >= 1 by {
                let nm = out@[k].name@;
                let idx = choose|idx: int| 0 <= idx < n_seq.len() && n_seq[idx] == nm;
                assert(kept_clans(cs, removed)[idx] == nm);
                assert(nm.len() > 0 && !removed.contains(nm));
                lemma_kept_count(cs, removed, nm);
            }
            assert forall|i: int|
                0 <= i < cs.len() && kept_clan(#[trigger] cs[i], removed) implies exists|k: int|
                0 <= k < out@.len() && (#[trigger] out@[k]).name@ == cs[i].clan@ by {
                lemma_kept_clans_contains(cs, removed, i);
                let idx = choose|idx: int| 0 <= idx < n_seq.len() && n_seq[idx] == cs[i].clan@;
                assert(clan_listed(n_seq[idx], counts@) || clan_listed(n_seq[idx], out@));
                assert(counts@.len() == 0);
                let k0 = choose|k0: int|
                    0 <= k0 < out@.len() && (#[trigger] out@[k0]).name@ == n_seq[idx];
                assert(out@[k0].name@ == cs[i].clan@);
            }
        }
        out
    }
}

} // verus!
