use vstd::prelude::*;
use crate::streaming::str_eq;

verus! {

/// How long a fetched access token stays valid, in seconds.
pub const ACCESS_TOKEN_EXPIRES: u64 = 3600;

/// One cached credential.
#[derive(Debug, Clone)]
pub struct CacheEntry {
    pub key: String,
    pub token: String,
    pub expiry: u64,
}

/// Credentials by key, each with the instant (in seconds) from which it is stale.
/// Entries are checked on read and never evicted.
pub struct TokenCache {
    entries: Vec<CacheEntry>,
    model: Ghost<Map<Seq<char>, (Seq<char>, u64)>>,
}

/// What a token lookup decides.
#[derive(Debug)]
pub enum TokenStep {
    /// A fresh cached token: no fetch is needed.
    Cached(String),
    /// The token must be fetched, then recorded.
    Fetch,
}

/// The cached token for `key` that is still fresh at `now`.
pub open spec fn fresh_token(m: Map<Seq<char>, (Seq<char>, u64)>, key: Seq<char>, now: u64) -> Option<Seq<char>> {
    if m.contains_key(key) && m[key].1 > now {
        Some(m[key].0)
    } else {
        None
    }
}

impl TokenCache {
    /// The cached credentials: key to token and expiry.
    pub closed spec fn view(&self) -> Map<Seq<char>, (Seq<char>, u64)> {
        self.model@
    }

    /// Each entry is in the model, each key of the model has an entry, and no
    /// key has two entries.
    pub closed spec fn wf(&self) -> bool {
        &&& forall|i: int| 0 <= i < self.entries.len() ==> #[trigger] self.model@.contains_key(self.entries@[i].key@)
            && self.model@[self.entries@[i].key@] == (self.entries@[i].token@, self.entries@[i].expiry)
        &&& forall|k: Seq<char>| #[trigger] self.model@.contains_key(k) ==> exists|i: int|
            0 <= i < self.entries.len() && self.entries@[i].key@ == k
        &&& forall|i: int, j: int| 0 <= i < self.entries.len() && 0 <= j < self.entries.len() && i != j
            ==> self.entries@[i].key@ != self.entries@[j].key@
    }

    /// An empty cache.
    pub fn new() -> (r: Self)
        ensures
            r.wf(),
            r@ == Map::<Seq<char>, (Seq<char>, u64)>::empty(),
    {
        TokenCache { entries: Vec::new(), model: Ghost(Map::empty()) }
    }

    fn position(&self, key: &str) -> (r: Option<usize>)
        requires
            self.wf(),
        ensures
            r matches Some(i) ==> i < self.entries.len() && self.entries@[i as int].key@ == key@,
            r is None ==> !self@.contains_key(key@),
    {
        let mut i: usize = 0;
        while i < self.entries.len()
            invariant
                i <= self.entries.len(),
                forall|j: int| 0 <= j < i ==> self.entries@[j].key@ != key@,
            decreases self.entries.len() - i,
        {
            if str_eq(self.entries[i].key.as_str(), key) {
                return Some(i);
            }
            i += 1;
        }
        None
    }

    /// The token for `key` if one is cached and still fresh at `now`.
    pub fn lookup(&self, key: &str, now: u64) -> (r: Option<String>)
        requires
            self.wf(),
        ensures
            match r {
                Some(t) => fresh_token(self@, key@, now) == Some(t@),
                None => fresh_token(self@, key@, now) is None,
            },
    {
        match self.position(key) {
            Some(i) => {
                if self.entries[i].expiry > now {
                    Some(self.entries[i].token.clone())
                } else {
                    None
                }
            },
            None => None,
        }
    }

    /// Records `token` for `key`, valid until `expiry`, replacing what was there.
    pub fn store(&mut self, key: &str, token: String, expiry: u64)
        requires
            old(self).wf(),
        ensures
            final(self).wf(),
            final(self)@ == old(self)@.insert(key@, (token@, expiry)),
    {
        let ghost old_model = self.model@;
        let ghost entry_view = (token@, expiry);
        match self.position(key) {
            Some(i) => {
                let ghost old_entries = self.entries@;
                let e = CacheEntry { key: self.entries[i].key.clone(), token, expiry };
                self.entries.set(i, e);
                self.model = Ghost(old_model.insert(key@, entry_view));
                assert forall|a: int| 0 <= a < self.entries.len() implies #[trigger] self.model@.contains_key(self.entries@[a].key@)
                    && self.model@[self.entries@[a].key@] == (self.entries@[a].token@, self.entries@[a].expiry) by {
                    if a != i {
                        assert(old_entries[a].key@ != old_entries[i as int].key@);
                    }
                }
                assert forall|a: int, b: int| 0 <= a < self.entries.len() && 0 <= b < self.entries.len() && a != b
                    implies self.entries@[a].key@ != self.entries@[b].key@ by {
                    assert(old_entries[a].key@ != old_entries[b].key@);
                }
                assert forall|k: Seq<char>| #[trigger] self.model@.contains_key(k) implies exists|j: int|
                    0 <= j < self.entries.len() && self.entries@[j].key@ == k by {
                    if k != key@ {
                        let j = choose|j: int| 0 <= j < old_entries.len() && old_entries[j].key@ == k;
                        assert(self.entries@[j].key@ == k);
                    } else {
                        assert(self.entries@[i as int].key@ == k);
                    }
                }
            },
            None => {
                let ghost old_entries = self.entries@;
                let e = CacheEntry { key: key.to_owned(), token, expiry };
                self.entries.push(e);
                self.model = Ghost(old_model.insert(key@, entry_view));
                assert forall|a: int| 0 <= a < self.entries.len() implies #[trigger] self.model@.contains_key(self.entries@[a].key@)
                    && self.model@[self.entries@[a].key@] == (self.entries@[a].token@, self.entries@[a].expiry) by {
                    if a < old_entries.len() {
                        assert(old_model.contains_key(old_entries[a].key@));
                        assert(old_entries[a].key@ != key@);
                    }
                }
                assert forall|a: int, b: int| 0 <= a < self.entries.len() && 0 <= b < self.entries.len() && a != b
                    implies self.entries@[a].key@ != self.entries@[b].key@ by {
                    if a < old_entries.len() && b < old_entries.len() {
                        assert(old_entries[a].key@ != old_entries[b].key@);
                    } else if a < old_entries.len() {
                        assert(old_model.contains_key(old_entries[a].key@));
                    } else if b < old_entries.len() {
                        assert(old_model.contains_key(old_entries[b].key@));
                    }
                }
                assert forall|k: Seq<char>| #[trigger] self.model@.contains_key(k) implies exists|j: int|
                    0 <= j < self.entries.len() && self.entries@[j].key@ == k by {
                    if k != key@ {
                        let j = choose|j: int| 0 <= j < old_entries.len() && old_entries[j].key@ == k;
                        assert(self.entries@[j].key@ == k);
                    } else {
                        assert(self.entries@[old_entries.len() as int].key@ == k);
                    }
                }
            },
        }
    }

    /// Whether the token for `key` must be fetched at `now`, or which cached one to use.
    pub fn acquire_token(&self, key: &str, now: u64) -> (r: TokenStep)
        requires
            self.wf(),
        ensures
            match r {
                TokenStep::Cached(t) => fresh_token(self@, key@, now) == Some(t@),
                TokenStep::Fetch => fresh_token(self@, key@, now) is None,
            },
    {
        match self.lookup(key, now) {
            Some(t) => TokenStep::Cached(t),
            None => TokenStep::Fetch,
        }
    }

    /// Records a token fetched at `now`, fresh for the token lifetime.
    pub fn record_fetched(&mut self, key: &str, token: String, now: u64)
        requires
            old(self).wf(),
            now <= u64::MAX - ACCESS_TOKEN_EXPIRES,
        ensures
            final(self).wf(),
            final(self)@ == old(self)@.insert(key@, (token@, (now + ACCESS_TOKEN_EXPIRES) as u64)),
    {
        self.store(key, token, now + ACCESS_TOKEN_EXPIRES);
    }
}

/// Once a token fetched at `fetched_at` is recorded for a key, every lookup of
/// that key before it expires is a hit that returns it: a second acquisition in
/// that window makes no fetch.
pub proof fn cached_within_expiry(
    m: Map<Seq<char>, (Seq<char>, u64)>,
    key: Seq<char>,
    token: Seq<char>,
    fetched_at: u64,
    now: u64,
)
    requires
        fetched_at <= now,
        now < fetched_at + ACCESS_TOKEN_EXPIRES,
        fetched_at <= u64::MAX - ACCESS_TOKEN_EXPIRES,
    ensures
        fresh_token(m.insert(key, (token, (fetched_at + ACCESS_TOKEN_EXPIRES) as u64)), key, now)
            == Some(token),
{
}

} // verus!

verus! {

/// The chat created for each model, kept for the client's lifetime.
pub struct ChatCache {
    chats: TokenCache,
}

impl ChatCache {
    /// The chat id of each model.
    pub closed spec fn view(&self) -> Map<Seq<char>, Seq<char>> {
        self.chats@.map_values(|e: (Seq<char>, u64)| e.0)
    }

    pub closed spec fn wf(&self) -> bool {
        &&& self.chats.wf()
        &&& forall|k: Seq<char>| #[trigger] self.chats@.contains_key(k) ==> self.chats@[k].1 == u64::MAX
    }

    /// No chats yet.
    pub fn new() -> (r: Self)
        ensures
            r.wf(),
            r@ == Map::<Seq<char>, Seq<char>>::empty(),
    {
        let r = ChatCache { chats: TokenCache::new() };
        assert(r@ =~= Map::<Seq<char>, Seq<char>>::empty());
        r
    }

    /// The chat of `model`, if one was created.
    pub fn get(&self, model: &str) -> (r: Option<String>)
        requires
            self.wf(),
        ensures
            match r {
                Some(c) => self@.contains_key(model@) && self@[model@] == c@,
                None => !self@.contains_key(model@),
            },
    {
        self.chats.lookup(model, 0)
    }

    /// Records the chat created for `model`.
    pub fn insert(&mut self, model: &str, chat_id: String)
        requires
            old(self).wf(),
        ensures
            final(self).wf(),
            final(self)@ == old(self)@.insert(model@, chat_id@),
    {
        let ghost c = chat_id@;
        self.chats.store(model, chat_id, u64::MAX);
        assert(self@ =~= old(self)@.insert(model@, c));
    }
}

} // verus!
