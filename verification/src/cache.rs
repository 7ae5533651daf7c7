//! The optional response cache: a size- and time-bounded store of raw
//! response bodies, keyed by the target type together with the request URI
//! so that the same URI requested as two different types never shares an
//! entry.
//!
//! The store itself is a bounded cache of an outside crate; entries expire
//! after the configured time to live and are evicted to keep the configured
//! capacity, so nothing can be promised about what a lookup returns.  What
//! is proved here is the shape of the key: two requests collide exactly
//! when both the target type and the URI agree.

use vstd::prelude::*;

verus! {

/// The longest time to live the store accepts: a thousand years, in
/// seconds.  Past that, building the store panics to protect its expiry
/// arithmetic.
pub const MAX_TTL_SECS: u64 = 31536000000;

/// Identifies the target type of a request, for keying the cache.
#[derive(Debug, Clone, Copy, PartialEq, Eq, Structural)]
pub enum TypeTag {
    Master,
    Skins,
    Player,
    Query,
    QueryMap,
    QueryMapper,
    MapInfo,
    ReleasesMaps,
    Status,
    StatsPlayer,
    StatsMapInfo,
    StatsMaps,
    StatsProfile,
}

/// The name under which a target type appears in cache keys.
pub open spec fn tag_ident(t: TypeTag) -> Seq<char> {
    match t {
        TypeTag::Master => "Master"@,
        TypeTag::Skins => "Skins"@,
        TypeTag::Player => "Player"@,
        TypeTag::Query => "Query"@,
        TypeTag::QueryMap => "QueryMap"@,
        TypeTag::QueryMapper => "QueryMapper"@,
        TypeTag::MapInfo => "MapInfo"@,
        TypeTag::ReleasesMaps => "ReleasesMaps"@,
        TypeTag::Status => "Status"@,
        TypeTag::StatsPlayer => "StatsPlayer"@,
        TypeTag::StatsMapInfo => "StatsMapInfo"@,
        TypeTag::StatsMaps => "StatsMaps"@,
        TypeTag::StatsProfile => "StatsProfile"@,
    }
}

/// The tag, recovered from its name.
pub open spec fn tag_of_ident(s: Seq<char>) -> Option<TypeTag> {
    if s == tag_ident(TypeTag::Master) {
        Some(TypeTag::Master)
    } else if s == tag_ident(TypeTag::Skins) {
        Some(TypeTag::Skins)
    } else if s == tag_ident(TypeTag::Player) {
        Some(TypeTag::Player)
    } else if s == tag_ident(TypeTag::Query) {
        Some(TypeTag::Query)
    } else if s == tag_ident(TypeTag::QueryMap) {
        Some(TypeTag::QueryMap)
    } else if s == tag_ident(TypeTag::QueryMapper) {
        Some(TypeTag::QueryMapper)
    } else if s == tag_ident(TypeTag::MapInfo) {
        Some(TypeTag::MapInfo)
    } else if s == tag_ident(TypeTag::ReleasesMaps) {
        Some(TypeTag::ReleasesMaps)
    } else if s == tag_ident(TypeTag::Status) {
        Some(TypeTag::Status)
    } else if s == tag_ident(TypeTag::StatsPlayer) {
        Some(TypeTag::StatsPlayer)
    } else if s == tag_ident(TypeTag::StatsMapInfo) {
        Some(TypeTag::StatsMapInfo)
    } else if s == tag_ident(TypeTag::StatsMaps) {
        Some(TypeTag::StatsMaps)
    } else if s == tag_ident(TypeTag::StatsProfile) {
        Some(TypeTag::StatsProfile)
    } else {
        None
    }
}

proof fn lemma_tag_ident_decode(t: TypeTag)
    ensures
        tag_of_ident(tag_ident(t)) == Some(t),
{
    reveal_strlit("Master");
    reveal_strlit("Skins");
    reveal_strlit("Player");
    reveal_strlit("Query");
    reveal_strlit("QueryMap");
    reveal_strlit("QueryMapper");
    reveal_strlit("MapInfo");
    reveal_strlit("ReleasesMaps");
    reveal_strlit("Status");
    reveal_strlit("StatsPlayer");
    reveal_strlit("StatsMapInfo");
    reveal_strlit("StatsMaps");
    reveal_strlit("StatsProfile");
    // ground character facts that tell equal-length names apart
    assert("Master"@[0] == 'M');
    assert("Skins"@[0] == 'S');
    assert("Player"@[0] == 'P');
    assert("Query"@[0] == 'Q');
    assert("Status"@[0] == 'S');
    assert("Status"@[1] == 't');
    assert("Skins"@[1] == 'k');
    assert("QueryMap"@[0] == 'Q');
    assert("QueryMapper"@[0] == 'Q');
    assert("MapInfo"@[0] == 'M');
    assert("ReleasesMaps"@[0] == 'R');
    assert("StatsPlayer"@[0] == 'S');
    assert("StatsMaps"@[0] == 'S');
    assert("StatsMapInfo"@[5] == 'M');
    assert("StatsProfile"@[5] == 'P');
    match t {
        TypeTag::Master => {
            assert(tag_ident(t) == "Master"@);
            assert(tag_of_ident("Master"@) == Some(TypeTag::Master));
        },
        TypeTag::Skins => {
            assert(tag_ident(t) == "Skins"@);
            assert(tag_of_ident("Skins"@) == Some(TypeTag::Skins));
        },
        TypeTag::Player => {
            assert(tag_ident(t) == "Player"@);
            assert(tag_of_ident("Player"@) == Some(TypeTag::Player));
        },
        TypeTag::Query => {
            assert(tag_ident(t) == "Query"@);
            assert(tag_of_ident("Query"@) == Some(TypeTag::Query));
        },
        TypeTag::QueryMap => {
            assert(tag_ident(t) == "QueryMap"@);
            assert(tag_of_ident("QueryMap"@) == Some(TypeTag::QueryMap));
        },
        TypeTag::QueryMapper => {
            assert(tag_ident(t) == "QueryMapper"@);
            assert(tag_of_ident("QueryMapper"@) == Some(TypeTag::QueryMapper));
        },
        TypeTag::MapInfo => {
            assert(tag_ident(t) == "MapInfo"@);
            assert(tag_of_ident("MapInfo"@) == Some(TypeTag::MapInfo));
        },
        TypeTag::ReleasesMaps => {
            assert(tag_ident(t) == "ReleasesMaps"@);
            assert(tag_of_ident("ReleasesMaps"@) == Some(TypeTag::ReleasesMaps));
        },
        TypeTag::Status => {
            assert(tag_ident(t) == "Status"@);
            assert(tag_of_ident("Status"@) == Some(TypeTag::Status));
        },
        TypeTag::StatsPlayer => {
            assert(tag_ident(t) == "StatsPlayer"@);
            assert(tag_of_ident("StatsPlayer"@) == Some(TypeTag::StatsPlayer));
        },
        TypeTag::StatsMapInfo => {
            assert(tag_ident(t) == "StatsMapInfo"@);
            assert(tag_of_ident("StatsMapInfo"@) == Some(TypeTag::StatsMapInfo));
        },
        TypeTag::StatsMaps => {
            assert(tag_ident(t) == "StatsMaps"@);
            assert(tag_of_ident("StatsMaps"@) == Some(TypeTag::StatsMaps));
        },
        TypeTag::StatsProfile => {
            assert(tag_ident(t) == "StatsProfile"@);
            assert(tag_of_ident("StatsProfile"@) == Some(TypeTag::StatsProfile));
        },
    }
}

proof fn lemma_tag_ident_injective(t1: TypeTag, t2: TypeTag)
    requires
        tag_ident(t1) == tag_ident(t2),
    ensures
        t1 == t2,
{
    lemma_tag_ident_decode(t1);
    lemma_tag_ident_decode(t2);
}

proof fn lemma_tag_ident_no_colon(t: TypeTag)
    ensures
        forall|i: int| 0 <= i < tag_ident(t).len() ==> tag_ident(t)[i] != ':',
{
    reveal_strlit("Master");
    reveal_strlit("Skins");
    reveal_strlit("Player");
    reveal_strlit("Query");
    reveal_strlit("QueryMap");
    reveal_strlit("QueryMapper");
    reveal_strlit("MapInfo");
    reveal_strlit("ReleasesMaps");
    reveal_strlit("Status");
    reveal_strlit("StatsPlayer");
    reveal_strlit("StatsMapInfo");
    reveal_strlit("StatsMaps");
    reveal_strlit("StatsProfile");
    reveal_strlit(":");
    let ident = tag_ident(t);
    assert forall|i: int| 0 <= i < ident.len() implies ident[i] != ':' by {
        match t {
            TypeTag::Master => assert(ident[i] != ':'),
            TypeTag::Skins => assert(ident[i] != ':'),
            TypeTag::Player => assert(ident[i] != ':'),
            TypeTag::Query => assert(ident[i] != ':'),
            TypeTag::QueryMap => assert(ident[i] != ':'),
            TypeTag::QueryMapper => assert(ident[i] != ':'),
            TypeTag::MapInfo => assert(ident[i] != ':'),
            TypeTag::ReleasesMaps => assert(ident[i] != ':'),
            TypeTag::Status => assert(ident[i] != ':'),
            TypeTag::StatsPlayer => assert(ident[i] != ':'),
            TypeTag::StatsMapInfo => assert(ident[i] != ':'),
            TypeTag::StatsMaps => assert(ident[i] != ':'),
            TypeTag::StatsProfile => assert(ident[i] != ':'),
        }
    }
}

impl TypeTag {
    /// The name of the tag, as it appears in cache keys.
    pub fn ident(&self) -> (r: &'static str)
        ensures
            r@ == tag_ident(*self),
    {
        match self {
            TypeTag::Master => "Master",
            TypeTag::Skins => "Skins",
            TypeTag::Player => "Player",
            TypeTag::Query => "Query",
            TypeTag::QueryMap => "QueryMap",
            TypeTag::QueryMapper => "QueryMapper",
            TypeTag::MapInfo => "MapInfo",
            TypeTag::ReleasesMaps => "ReleasesMaps",
            TypeTag::Status => "Status",
            TypeTag::StatsPlayer => "StatsPlayer",
            TypeTag::StatsMapInfo => "StatsMapInfo",
            TypeTag::StatsMaps => "StatsMaps",
            TypeTag::StatsProfile => "StatsProfile",
        }
    }
}

/// The composite cache key of a request: the target type's name, a colon,
/// and the request URI.
pub open spec fn spec_cache_key(t: TypeTag, uri: Seq<char>) -> Seq<char> {
    tag_ident(t) + seq![':'] + uri
}

/// Builds the cache key for a target type and a request URI.
pub fn cache_key(tag: &TypeTag, uri: &str) -> (r: String)
    ensures
        r@ == spec_cache_key(*tag, uri@),
{
    let mut s = tag.ident().to_owned();
    s.append(":");
    s.append(uri);
    proof {
        reveal_strlit(":");
        assert(":"@ =~= seq![':']);
        assert(s@ =~= spec_cache_key(*tag, uri@));
    }
    s
}

/// Law: cache keys isolate requests by type and URI.  Two requests share a
/// cache key exactly when they ask for the same target type at the same
/// URI, so entries of different types never cross-contaminate.
pub proof fn lemma_cache_key_isolated(t1: TypeTag, u1: Seq<char>, t2: TypeTag, u2: Seq<char>)
    requires
        spec_cache_key(t1, u1) == spec_cache_key(t2, u2),
    ensures
        t1 == t2,
        u1 == u2,
{
    let i1 = tag_ident(t1);
    let i2 = tag_ident(t2);
    let k = spec_cache_key(t1, u1);
    if i1.len() == i2.len() {
        assert forall|j: int| 0 <= j < i1.len() implies i1[j] == i2[j] by {
            assert(k[j] == i1[j]);
            assert(spec_cache_key(t2, u2)[j] == i2[j]);
        }
        assert(i1 =~= i2);
        lemma_tag_ident_injective(t1, t2);
        assert(k.len() == i1.len() + 1 + u1.len());
        assert(spec_cache_key(t2, u2).len() == i2.len() + 1 + u2.len());
        assert(u1.len() == u2.len());
        assert forall|j: int| 0 <= j < u1.len() implies u1[j] == u2[j] by {
            assert(k[i1.len() + 1 + j] == u1[j]);
            assert(spec_cache_key(t2, u2)[i2.len() + 1 + j] == u2[j]);
        }
        assert(u1 =~= u2);
    } else if i1.len() < i2.len() {
        lemma_tag_ident_no_colon(t2);
        assert(k[i1.len() as int] == ':');
        assert(spec_cache_key(t2, u2)[i1.len() as int] == i2[i1.len() as int]);
        assert(false);
    } else {
        lemma_tag_ident_no_colon(t1);
        assert(spec_cache_key(t2, u2)[i2.len() as int] == ':');
        assert(k[i2.len() as int] == i1[i2.len() as int]);
        assert(false);
    }
}

#[verifier::external_type_specification]
#[verifier::external_body]
#[verifier::reject_recursive_types(K)]
#[verifier::reject_recursive_types(V)]
#[verifier::reject_recursive_types(S)]
pub struct ExCache<K, V, S>(moka::sync::Cache<K, V, S>);

/// Relies on `moka::sync::Cache`'s `Clone`: a clone is another handle to
/// the same shared store.  Nothing is promised of it.
pub assume_specification<K, V, S>[ <moka::sync::Cache<K, V, S> as core::clone::Clone>::clone ](
    c: &moka::sync::Cache<K, V, S>,
) -> moka::sync::Cache<K, V, S>;

/// Relies on moka's cache builder (`Cache::builder`, `max_capacity`,
/// `time_to_live`, `build`): makes a store that holds at most `capacity`
/// entries and expires each entry `ttl_secs` after its insertion.  `build`
/// panics on a time to live past a thousand years, so that input is kept
/// out.
#[verifier::external_body]
fn new_store(capacity: u64, ttl_secs: u64) -> moka::sync::Cache<String, String>
    requires
        ttl_secs <= MAX_TTL_SECS,
{
    moka::sync::Cache::builder()
        .max_capacity(capacity)
        .time_to_live(std::time::Duration::from_secs(ttl_secs))
        .build()
}

/// Relies on `moka::sync::Cache::get`: a live entry under the key is
/// returned as a clone of its body; an absent, expired or evicted key
/// yields `None`.  Expiry and eviction make the outcome depend on the
/// clock, so nothing is promised of it.
#[verifier::external_body]
fn store_get(store: &moka::sync::Cache<String, String>, key: &str) -> Option<String> {
    store.get(key)
}

/// Relies on `moka::sync::Cache::insert`: records the body under the key,
/// replacing any previous entry; the store evicts as needed to keep its
/// capacity.  Fire-and-forget, so nothing is promised of it.
#[verifier::external_body]
fn store_insert(store: &moka::sync::Cache<String, String>, key: String, body: String) {
    store.insert(key, body);
}

/// A bounded, expiring store of raw response bodies.
#[derive(Clone)]
pub struct ResponseCache {
    store: moka::sync::Cache<String, String>,
    capacity: u64,
    ttl_secs: u64,
}

impl ResponseCache {
    /// The greatest number of entries the store keeps.
    pub closed spec fn spec_capacity(self) -> u64 {
        self.capacity
    }

    /// How long an entry is served after its insertion, in seconds.
    pub closed spec fn spec_ttl_secs(self) -> u64 {
        self.ttl_secs
    }

    /// Makes a store bounded by the given entry count, whose entries expire
    /// the given number of seconds after insertion.
    pub fn new(capacity: u64, ttl_secs: u64) -> (r: Self)
        requires
            ttl_secs <= MAX_TTL_SECS,
        ensures
            r.spec_capacity() == capacity,
            r.spec_ttl_secs() == ttl_secs,
    {
        ResponseCache { store: new_store(capacity, ttl_secs), capacity, ttl_secs }
    }

    /// The configured entry bound.
    pub fn capacity(&self) -> (r: u64)
        ensures
            r == self.spec_capacity(),
    {
        self.capacity
    }

    /// The configured time to live, in seconds.
    pub fn ttl_secs(&self) -> (r: u64)
        ensures
            r == self.spec_ttl_secs(),
    {
        self.ttl_secs
    }

    /// Looks a key up.  A hit returns a body previously stored under
    /// exactly this key; whether a stored body is still served depends on
    /// expiry and eviction, so a miss is always possible.
    pub fn get(&self, key: &str) -> Option<String> {
        store_get(&self.store, key)
    }

    /// Stores a body under a key, best-effort: a failure to retain it never
    /// surfaces, and the store may evict it at any time.
    pub fn put(&self, key: String, body: String) {
        store_insert(&self.store, key, body);
    }
}

} // verus!
