use vstd::prelude::*;

use crate::error::ApiError;
use crate::model::{Config, ConfigModel, Guild, GuildModel, Id, Member, MemberModel};

verus! {

/// How long a cached configuration stays fresh, in seconds.
pub const CONFIG_TTL: u64 = 60;

/// A cache key: the kind of entity and its identifiers, so keys of different kinds
/// never collide.
#[derive(Clone, Copy, Debug, PartialEq, Eq, Structural)]
pub enum CacheKey {
    Config(Id),
    Guild(Id),
    Member(Id, Id),
}

/// A cached value, tagged by its kind.
#[derive(Debug)]
pub enum CachedValue {
    Config(Config),
    Guild(Guild),
    Member(Member),
}

pub enum ValueModel {
    Config(ConfigModel),
    Guild(GuildModel),
    Member(MemberModel),
}

impl View for CachedValue {
    type V = ValueModel;

    open spec fn view(&self) -> ValueModel {
        match self {
            CachedValue::Config(c) => ValueModel::Config(c@),
            CachedValue::Guild(g) => ValueModel::Guild(g@),
            CachedValue::Member(m) => ValueModel::Member(m@),
        }
    }
}

impl CachedValue {
    pub fn copy(&self) -> (r: CachedValue)
        ensures
            r@ == self@,
    {
        match self {
            CachedValue::Config(c) => CachedValue::Config(c.copy()),
            CachedValue::Guild(g) => CachedValue::Guild(g.copy()),
            CachedValue::Member(m) => CachedValue::Member(m.copy()),
        }
    }
}

/// A value with the time it was stored and how long it stays fresh (`None`: until evicted).
#[derive(Debug)]
pub struct CacheEntry {
    pub value: CachedValue,
    pub stored_at: i64,
    pub ttl: Option<u64>,
}

pub struct EntryModel {
    pub value: ValueModel,
    pub stored_at: i64,
    pub ttl: Option<u64>,
}

impl View for CacheEntry {
    type V = EntryModel;

    open spec fn view(&self) -> EntryModel {
        EntryModel { value: self.value@, stored_at: self.stored_at, ttl: self.ttl }
    }
}

/// Whether an entry is still fresh at time `now`.
pub open spec fn is_live(e: EntryModel, now: i64) -> bool {
    match e.ttl {
        None => true,
        Some(t) => (now as int) < e.stored_at as int + t as int,
    }
}

/// The value of the last record under key `k`, if any.
pub open spec fn lookup<K, V: View>(s: Seq<(K, V)>, k: K) -> Option<V::V>
    decreases s.len(),
{
    if s.len() == 0 {
        None
    } else if s.last().0 == k {
        Some(s.last().1@)
    } else {
        lookup(s.drop_last(), k)
    }
}

/// The map that a list of keyed records stands for: the last record under a key wins.
pub open spec fn records_map<K, V: View>(s: Seq<(K, V)>) -> Map<K, V::V> {
    Map::new(|k: K| lookup(s, k).is_some(), |k: K| lookup(s, k).unwrap())
}

proof fn lemma_lookup_remove<K, V: View>(s: Seq<(K, V)>, i: int, k: K)
    requires
        0 <= i < s.len(),
        s[i].0 != k,
    ensures
        lookup(s.remove(i), k) == lookup(s, k),
    decreases s.len(),
{
    if i == s.len() - 1 {
        assert(s.remove(i) =~= s.drop_last());
    } else {
        let r = s.remove(i);
        assert(r.last() == s.last());
        assert(r.drop_last() =~= s.drop_last().remove(i));
        lemma_lookup_remove(s.drop_last(), i, k);
    }
}

proof fn lemma_lookup_push<K, V: View>(s: Seq<(K, V)>, e: (K, V), k: K)
    ensures
        lookup(s.push(e), k) == if e.0 == k {
            Some(e.1@)
        } else {
            lookup(s, k)
        },
{
    assert(s.push(e).drop_last() =~= s);
}

/// An in-process cache with per-entry expiry.
pub struct TtlCache {
    entries: Vec<(CacheKey, CacheEntry)>,
}

impl View for TtlCache {
    type V = Map<CacheKey, EntryModel>;

    closed spec fn view(&self) -> Map<CacheKey, EntryModel> {
        records_map(self.entries@)
    }
}

/// The fresh value under `k` at time `now`, if any.
pub open spec fn live_value(m: Map<CacheKey, EntryModel>, k: CacheKey, now: i64) -> Option<
    ValueModel,
> {
    if m.contains_key(k) && is_live(m[k], now) {
        Some(m[k].value)
    } else {
        None
    }
}

impl TtlCache {
    pub fn new() -> (r: TtlCache)
        ensures
            r@ == Map::<CacheKey, EntryModel>::empty(),
    {
        let r = TtlCache { entries: Vec::new() };
        assert(r@ =~= Map::<CacheKey, EntryModel>::empty());
        r
    }

    /// Index of the last record under `key`.
    fn find(&self, key: CacheKey) -> (r: Option<usize>)
        ensures
            match r {
                Some(i) => i < self.entries@.len() && self.entries@[i as int].0 == key
                    && lookup(self.entries@, key) == Some(self.entries@[i as int].1@),
                None => lookup(self.entries@, key).is_none(),
            },
    {
        let mut i: usize = self.entries.len();
        assert(self.entries@.subrange(0, i as int) =~= self.entries@);
        while i > 0
            invariant
                i <= self.entries@.len(),
                lookup(self.entries@, key) == lookup(self.entries@.subrange(0, i as int), key),
            decreases i,
        {
            let ghost s = self.entries@.subrange(0, i as int);
            assert(s.drop_last() =~= self.entries@.subrange(0, i - 1));
            if self.entries[i - 1].0 == key {
                return Some(i - 1);
            }
            i = i - 1;
        }
        None
    }

    /// The value under `key` if it is still fresh at `now`.
    pub fn get(&self, key: CacheKey, now: i64) -> (r: Option<CachedValue>)
        ensures
            match live_value(self@, key, now) {
                Some(v) => r.is_some() && r.unwrap()@ == v,
                None => r.is_none(),
            },
    {
        match self.find(key) {
            Some(i) => {
                let e = &self.entries[i].1;
                let live = match e.ttl {
                    None => true,
                    Some(t) => (now as i128) < (e.stored_at as i128) + (t as i128),
                };
                if live {
                    Some(e.value.copy())
                } else {
                    None
                }
            },
            None => None,
        }
    }

    /// Stores `value` under `key` at time `now`, fresh for `ttl` seconds (`None`: no expiry).
    pub fn set(&mut self, key: CacheKey, value: CachedValue, ttl: Option<u64>, now: i64)
        ensures
            final(self)@ == old(self)@.insert(
                key,
                EntryModel { value: value@, stored_at: now, ttl },
            ),
    {
        let ghost before = self.entries@;
        match self.find(key) {
            Some(i) => {
                self.entries.remove(i);
                proof {
                    assert forall|k: CacheKey| k != key implies lookup(self.entries@, k) == lookup(
                        before,
                        k,
                    ) by {
                        lemma_lookup_remove(before, i as int, k);
                    }
                }
            },
            None => {},
        }
        let ghost mid = self.entries@;
        let entry = (key, CacheEntry { value, stored_at: now, ttl });
        self.entries.push(entry);
        proof {
            assert forall|k: CacheKey| #[trigger]
                lookup(self.entries@, k) == lookup(mid.push(entry), k) by {
                assert(self.entries@ == mid.push(entry));
            }
            assert forall|k: CacheKey| k != key implies lookup(self.entries@, k) == lookup(
                before,
                k,
            ) by {
                lemma_lookup_push(mid, entry, k);
            }
            lemma_lookup_push(mid, entry, key);
            assert(self@ =~= old(self)@.insert(
                key,
                EntryModel { value: value@, stored_at: now, ttl },
            ));
        }
    }
}


/// The configuration store, the source of record for configurations.
pub struct ConfigStore {
    records: Vec<(Id, Config)>,
}

impl View for ConfigStore {
    type V = Map<Id, ConfigModel>;

    closed spec fn view(&self) -> Map<Id, ConfigModel> {
        records_map(self.records@)
    }
}

pub open spec fn config_opt_view(o: Option<Config>) -> Option<ConfigModel> {
    match o {
        Some(c) => Some(c@),
        None => None,
    }
}

impl ConfigStore {
    pub fn new() -> (r: ConfigStore)
        ensures
            r@ == Map::<Id, ConfigModel>::empty(),
    {
        let r = ConfigStore { records: Vec::new() };
        assert(r@ =~= Map::<Id, ConfigModel>::empty());
        r
    }

    fn find(&self, id: Id) -> (r: Option<usize>)
        ensures
            match r {
                Some(i) => i < self.records@.len() && self.records@[i as int].0 == id
                    && lookup(self.records@, id) == Some(self.records@[i as int].1@),
                None => lookup(self.records@, id).is_none(),
            },
    {
        let mut i: usize = self.records.len();
        assert(self.records@.subrange(0, i as int) =~= self.records@);
        while i > 0
            invariant
                i <= self.records@.len(),
                lookup(self.records@, id) == lookup(self.records@.subrange(0, i as int), id),
            decreases i,
        {
            let ghost s = self.records@.subrange(0, i as int);
            assert(s.drop_last() =~= self.records@.subrange(0, i - 1));
            if self.records[i - 1].0 == id {
                return Some(i - 1);
            }
            i = i - 1;
        }
        None
    }

    /// The stored configuration of guild `id`.
    pub fn get_config(&self, id: &Id) -> (r: Option<Config>)
        ensures
            config_opt_view(r) == (if self@.contains_key(*id) {
                Some(self@[*id])
            } else {
                None
            }),
    {
        match self.find(*id) {
            Some(i) => Some(self.records[i].1.copy()),
            None => None,
        }
    }

    /// Stores `config` as the configuration of guild `id`.
    pub fn update_config(&mut self, id: &Id, config: &Config)
        ensures
            final(self)@ == old(self)@.insert(*id, config@),
    {
        let ghost before = self.records@;
        match self.find(*id) {
            Some(i) => {
                self.records.remove(i);
                proof {
                    assert forall|k: Id| k != *id implies lookup(self.records@, k) == lookup(
                        before,
                        k,
                    ) by {
                        lemma_lookup_remove(before, i as int, k);
                    }
                }
            },
            None => {},
        }
        let ghost mid = self.records@;
        let record = (*id, config.copy());
        self.records.push(record);
        proof {
            assert(self.records@ == mid.push(record));
            assert forall|k: Id| k != *id implies lookup(self.records@, k) == lookup(before, k) by {
                lemma_lookup_push(mid, record, k);
            }
            lemma_lookup_push(mid, record, *id);
            assert(self@ =~= old(self)@.insert(*id, config@));
        }
    }
}

/// What a configuration read returns: a fresh cached copy, else the stored one.
pub open spec fn read_config(
    cache: Map<CacheKey, EntryModel>,
    store: Map<Id, ConfigModel>,
    id: Id,
    now: i64,
) -> Option<ConfigModel> {
    match live_value(cache, CacheKey::Config(id), now) {
        Some(ValueModel::Config(c)) => Some(c),
        _ => if store.contains_key(id) {
            Some(store[id])
        } else {
            None
        },
    }
}

/// Whether a configuration read at `now` is served from the cache.
pub open spec fn config_cache_hit(cache: Map<CacheKey, EntryModel>, id: Id, now: i64) -> bool {
    match live_value(cache, CacheKey::Config(id), now) {
        Some(ValueModel::Config(c)) => true,
        _ => false,
    }
}

/// The cache entry written for a configuration at `now`.
pub open spec fn config_entry(c: ConfigModel, now: i64) -> EntryModel {
    EntryModel { value: ValueModel::Config(c), stored_at: now, ttl: Some(CONFIG_TTL) }
}

/// The cache after a configuration read: a value loaded from the store is cached.
pub open spec fn cache_after_read(
    cache: Map<CacheKey, EntryModel>,
    store: Map<Id, ConfigModel>,
    id: Id,
    now: i64,
) -> Map<CacheKey, EntryModel> {
    if config_cache_hit(cache, id, now) || !store.contains_key(id) {
        cache
    } else {
        cache.insert(CacheKey::Config(id), config_entry(store[id], now))
    }
}

/// The cache entry written for a guild or member: it does not expire.
pub open spec fn lasting_entry(v: ValueModel, now: i64) -> EntryModel {
    EntryModel { value: v, stored_at: now, ttl: None }
}

/// The store and the cache in front of it.
pub struct State {
    pub store: ConfigStore,
    pub cache: TtlCache,
}

impl State {
    pub fn new() -> (r: State)
        ensures
            r.store@ == Map::<Id, ConfigModel>::empty(),
            r.cache@ == Map::<CacheKey, EntryModel>::empty(),
    {
        State { store: ConfigStore::new(), cache: TtlCache::new() }
    }

    /// Reads the configuration of guild `guild_id` through the cache; a value loaded from
    /// the store is cached for `CONFIG_TTL` seconds.
    pub fn get_config(&mut self, guild_id: &Id, now: i64) -> (r: Option<Config>)
        ensures
            config_opt_view(r) == read_config(old(self).cache@, old(self).store@, *guild_id, now),
            final(self).store@ == old(self).store@,
            final(self).cache@ == cache_after_read(
                old(self).cache@,
                old(self).store@,
                *guild_id,
                now,
            ),
    {
        let key = CacheKey::Config(*guild_id);
        match self.cache.get(key, now) {
            Some(CachedValue::Config(c)) => {
                return Some(c);
            },
            _ => {},
        }
        match self.store.get_config(guild_id) {
            Some(c) => {
                self.cache.set(key, CachedValue::Config(c.copy()), Some(CONFIG_TTL), now);
                Some(c)
            },
            None => None,
        }
    }

    /// Writes `config` to the store, then refreshes its cache entry for `CONFIG_TTL` seconds.
    pub fn update_config(&mut self, guild_id: &Id, config: &Config, now: i64)
        ensures
            final(self).store@ == old(self).store@.insert(*guild_id, config@),
            final(self).cache@ == old(self).cache@.insert(
                CacheKey::Config(*guild_id),
                config_entry(config@, now),
            ),
    {
        self.store.update_config(guild_id, config);
        self.cache.set(
            CacheKey::Config(*guild_id),
            CachedValue::Config(config.copy()),
            Some(CONFIG_TTL),
            now,
        );
    }

    /// The cached guild `guild_id`, if there is one.
    pub fn cached_guild(&self, guild_id: &Id, now: i64) -> (r: Option<Guild>)
        ensures
            match live_value(self.cache@, CacheKey::Guild(*guild_id), now) {
                Some(ValueModel::Guild(g)) => r.is_some() && r.unwrap()@ == g,
                _ => r.is_none(),
            },
    {
        match self.cache.get(CacheKey::Guild(*guild_id), now) {
            Some(CachedValue::Guild(g)) => Some(g),
            _ => None,
        }
    }

    /// Takes the outcome of fetching guild `guild_id` upstream. A fetched guild is cached
    /// without expiry and returned; a failure is absorbed into `None`.
    pub fn guild_fetched(
        &mut self,
        guild_id: &Id,
        fetched: Result<Guild, ApiError>,
        now: i64,
    ) -> (r: Option<Guild>)
        ensures
            match fetched {
                Ok(g) => r.is_some() && r.unwrap()@ == g@ && final(self).cache@ == old(
                    self,
                ).cache@.insert(
                    CacheKey::Guild(*guild_id),
                    lasting_entry(ValueModel::Guild(g@), now),
                ),
                Err(_) => r.is_none() && final(self).cache@ == old(self).cache@,
            },
            final(self).store@ == old(self).store@,
    {
        match fetched {
            Ok(g) => {
                self.cache.set(CacheKey::Guild(*guild_id), CachedValue::Guild(g.copy()), None, now);
                Some(g)
            },
            Err(_) => None,
        }
    }

    /// The cached member `user_id` of guild `guild_id`, if there is one.
    pub fn cached_member(&self, guild_id: &Id, user_id: &Id, now: i64) -> (r: Option<Member>)
        ensures
            match live_value(self.cache@, CacheKey::Member(*guild_id, *user_id), now) {
                Some(ValueModel::Member(m)) => r.is_some() && r.unwrap()@ == m,
                _ => r.is_none(),
            },
    {
        match self.cache.get(CacheKey::Member(*guild_id, *user_id), now) {
            Some(CachedValue::Member(m)) => Some(m),
            _ => None,
        }
    }

    /// Takes the outcome of fetching a member upstream. A fetched member is cached without
    /// expiry and returned; a failure is passed on.
    pub fn member_fetched(
        &mut self,
        guild_id: &Id,
        user_id: &Id,
        fetched: Result<Member, ApiError>,
        now: i64,
    ) -> (r: Result<Member, ApiError>)
        ensures
            match fetched {
                Ok(m) => r.is_ok() && r.unwrap()@ == m@ && final(self).cache@ == old(
                    self,
                ).cache@.insert(
                    CacheKey::Member(*guild_id, *user_id),
                    lasting_entry(ValueModel::Member(m@), now),
                ),
                Err(e) => r == Err::<Member, ApiError>(e) && final(self).cache@ == old(self).cache@,
            },
            final(self).store@ == old(self).store@,
    {
        match fetched {
            Ok(m) => {
                self.cache.set(
                    CacheKey::Member(*guild_id, *user_id),
                    CachedValue::Member(m.copy()),
                    None,
                    now,
                );
                Ok(m)
            },
            Err(e) => Err(e),
        }
    }
}

/// A configuration written with `update_config` is what the next `get_config` returns,
/// whether the cached copy is still fresh or has expired and the store answers.
pub proof fn lemma_update_then_get(
    cache: Map<CacheKey, EntryModel>,
    store: Map<Id, ConfigModel>,
    id: Id,
    c: ConfigModel,
    written_at: i64,
    read_at: i64,
)
    ensures
        read_config(
            cache.insert(CacheKey::Config(id), config_entry(c, written_at)),
            store.insert(id, c),
            id,
            read_at,
        ) == Some(c),
{
}

} // verus!
