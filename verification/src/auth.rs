//! Who may ask: reading the API key off a request, and remembering what the
//! platform said of a key.
//!
//! A key arrives in a header of its own or as the password of HTTP Basic
//! authentication. Whether it is good is the platform's to say; what it said
//! is kept for a while, a rejection for a shorter while than an acceptance,
//! and a failure to reach the platform is not kept at all.

use crate::text::{
    chars_of, copy_text, opt_text, same_text, starts_with, string_of, trim_both, trimmed,
    white_space, without_prefix,
};
use vstd::prelude::*;
use vstd::utf8::{decode_utf8, valid_utf8};

verus! {

/// What follows the scheme in the value of an `Authorization` header that
/// asks for Basic authentication: the value, trimmed, without the `Basic `
/// or `basic ` it begins with.
pub open spec fn basic_payload_of(authorization: Seq<char>) -> Option<Seq<char>> {
    let value = trim_both(authorization, white_space());
    match without_prefix(value, "Basic "@) {
        Some(payload) => Some(payload),
        None => without_prefix(value, "basic "@),
    }
}

/// Executable form of [`basic_payload_of`].
pub fn basic_payload(authorization: &str) -> (r: Option<String>)
    ensures
        opt_text(r) == basic_payload_of(authorization@),
{
    let value = trimmed(authorization);
    let upper = chars_of("Basic ");
    let lower = chars_of("basic ");
    if starts_with(&value, &upper) {
        Some(string_of(&value, upper.len(), value.len()))
    } else if starts_with(&value, &lower) {
        Some(string_of(&value, lower.len(), value.len()))
    } else {
        None
    }
}

/// What the `base64` crate decodes from a text with its standard alphabet
/// and padding: the bytes, or nothing where the text is not such an encoding.
pub uninterp spec fn base64_standard(encoded: Seq<char>) -> Option<Seq<u8>>;

/// Calls `decode` of `base64::engine::general_purpose::STANDARD`. Nothing
/// is claimed of the encoding: the result is whatever the crate makes of the
/// text, which depends on the text alone.
#[verifier::external_body]
fn decode_base64(encoded: &str) -> (r: Option<Vec<u8>>)
    ensures
        match r {
            Some(bytes) => base64_standard(encoded@) == Some(bytes@),
            None => base64_standard(encoded@) is None,
        },
{
    match base64::Engine::decode(&base64::engine::general_purpose::STANDARD, encoded) {
        Ok(bytes) => Some(bytes),
        Err(_) => None,
    }
}

/// `String::from_utf8` gives the text that the bytes encode where they are
/// valid UTF-8, and fails where they are not.
#[verifier::external_body]
fn text_from_utf8(bytes: Vec<u8>) -> (r: Option<String>)
    ensures
        match r {
            Some(text) => valid_utf8(bytes@) && text@ == decode_utf8(bytes@),
            None => !valid_utf8(bytes@),
        },
{
    match String::from_utf8(bytes) {
        Ok(text) => Some(text),
        Err(_) => None,
    }
}

/// What follows the first occurrence of `c` in `s`; nothing where there is
/// none.
pub open spec fn after_first(s: Seq<char>, c: char) -> Seq<char>
    decreases s.len(),
{
    if s.len() == 0 {
        Seq::empty()
    } else if s[0] == c {
        s.drop_first()
    } else {
        after_first(s.drop_first(), c)
    }
}

/// The password in credentials of the form `user:password`: what follows
/// the first colon, where that is not empty.
pub open spec fn password_in(credentials: Seq<char>) -> Option<Seq<char>> {
    if after_first(credentials, ':').len() == 0 {
        None
    } else {
        Some(after_first(credentials, ':'))
    }
}

/// Executable form of [`password_in`].
pub fn password_of(credentials: &str) -> (r: Option<String>)
    ensures
        opt_text(r) == password_in(credentials@),
{
    let v = chars_of(credentials);
    let mut i: usize = 0;
    assert(v@.skip(0) =~= v@);
    while i < v.len()
        invariant
            i <= v.len(),
            v@ == credentials@,
            after_first(v@, ':') == after_first(v@.skip(i as int), ':'),
        decreases v.len() - i,
    {
        assert(v@.skip(i as int)[0] == v@[i as int]);
        assert(v@.skip(i as int).drop_first() =~= v@.skip(i + 1));
        if v[i] == ':' {
            assert(v@.skip(i + 1) =~= v@.subrange(i + 1, v.len() as int));
            if i + 1 == v.len() {
                return None;
            }
            return Some(string_of(&v, i + 1, v.len()));
        }
        i += 1;
    }
    None
}

/// The key that decoded credentials carry: the password of the text that
/// the bytes encode. Nothing where nothing was decoded or the bytes are no
/// text.
pub open spec fn key_in_decoded(decoded: Option<Seq<u8>>) -> Option<Seq<char>> {
    match decoded {
        Some(bytes) => {
            if valid_utf8(bytes) {
                password_in(decode_utf8(bytes))
            } else {
                None
            }
        },
        None => None,
    }
}

/// Executable form of [`key_in_decoded`].
pub fn key_from_decoded(decoded: Option<Vec<u8>>) -> (r: Option<String>)
    ensures
        opt_text(r) == key_in_decoded(
            match decoded {
                Some(bytes) => Some(bytes@),
                None => None,
            },
        ),
{
    match decoded {
        Some(bytes) => match text_from_utf8(bytes) {
            Some(credentials) => password_of(credentials.as_str()),
            None => None,
        },
        None => None,
    }
}

/// The key that a request carries: the value of its key header where it has
/// one; otherwise the password of its Basic authentication.
pub open spec fn api_key_of(x_api_key: Option<Seq<char>>, authorization: Option<Seq<char>>) -> Option<
    Seq<char>,
> {
    match x_api_key {
        Some(key) => Some(key),
        None => match authorization {
            Some(value) => match basic_payload_of(value) {
                Some(payload) => key_in_decoded(base64_standard(payload)),
                None => None,
            },
            None => None,
        },
    }
}

/// Why a request is turned away before the platform is asked.
#[derive(Debug, Clone, Copy, PartialEq, Eq, Structural)]
pub enum ApiKeyError {
    /// The request carries no key in either form.
    Missing,
}

impl ApiKeyError {
    /// The HTTP status with which the request is turned away.
    pub fn status(&self) -> (r: u16)
        ensures
            r == 400,
    {
        400
    }

    /// A sentence for the caller.
    pub fn message(&self) -> (r: String)
        ensures
            r@ == "missing x-api-key or Basic auth password"@,
    {
        copy_text("missing x-api-key or Basic auth password")
    }
}

/// Reads the key off the two headers of a request, each given as text where
/// the request has it.
pub fn extract_api_key(x_api_key: Option<&str>, authorization: Option<&str>) -> (r: Result<
    String,
    ApiKeyError,
>)
    ensures
        match api_key_of(
            crate::identifier::text_of(x_api_key),
            crate::identifier::text_of(authorization),
        ) {
            Some(key) => r matches Ok(k) && k@ == key,
            None => r == Err::<String, ApiKeyError>(ApiKeyError::Missing),
        },
{
    if let Some(key) = x_api_key {
        return Ok(copy_text(key));
    }
    if let Some(value) = authorization {
        if let Some(payload) = basic_payload(value) {
            if let Some(key) = key_from_decoded(decode_base64(payload.as_str())) {
                return Ok(key);
            }
        }
    }
    Err(ApiKeyError::Missing)
}

/// What the platform said of a key.
#[derive(Debug, Clone, Copy, PartialEq, Eq, Structural)]
pub enum AuthDecision {
    Valid,
    Invalid,
}

/// One remembered decision.
#[derive(Debug, Clone, PartialEq, Eq)]
pub struct AuthCacheEntry {
    pub key: String,
    pub decision: AuthDecision,
    /// The first instant at which the decision no longer counts.
    pub expires_at: u128,
}

/// A remembered decision, without its key.
pub struct Cached {
    pub decision: AuthDecision,
    pub expires_at: nat,
}

/// The decisions remembered, by key.
pub struct AuthCache {
    entries: Vec<AuthCacheEntry>,
    valid_ttl: u64,
    invalid_ttl: u64,
    max_entries: usize,
}

/// The map that a sequence of entries stands for; a later entry wins.
pub open spec fn entries_map(entries: Seq<AuthCacheEntry>) -> Map<Seq<char>, Cached>
    decreases entries.len(),
{
    if entries.len() == 0 {
        Map::empty()
    } else {
        entries_map(entries.drop_last()).insert(
            entries.last().key@,
            Cached {
                decision: entries.last().decision,
                expires_at: entries.last().expires_at as nat,
            },
        )
    }
}

/// Whether no key occurs twice.
pub open spec fn distinct_keys(entries: Seq<AuthCacheEntry>) -> bool {
    forall|i: int, j: int|
        0 <= i < j < entries.len() ==> (#[trigger] entries[i]).key@ != (#[trigger] entries[j]).key@
}

/// What entries with distinct keys stand for: a finite map with one key for
/// each entry, which holds for each key what its entry holds.
pub proof fn lemma_entries_map(entries: Seq<AuthCacheEntry>)
    requires
        distinct_keys(entries),
    ensures
        entries_map(entries).dom().finite(),
        entries_map(entries).dom().len() == entries.len(),
        forall|i: int|
            0 <= i < entries.len() ==> entries_map(entries).dom().contains(
                (#[trigger] entries[i]).key@,
            ) && entries_map(entries)[entries[i].key@] == (Cached {
                decision: entries[i].decision,
                expires_at: entries[i].expires_at as nat,
            }),
        forall|k: Seq<char>|
            entries_map(entries).dom().contains(k) ==> exists|i: int|
                0 <= i < entries.len() && (#[trigger] entries[i]).key@ == k,
    decreases entries.len(),
{
    if entries.len() > 0 {
        let front = entries.drop_last();
        let last = entries.last();
        assert forall|i: int, j: int| 0 <= i < j < front.len() implies (#[trigger] front[i]).key@
            != (#[trigger] front[j]).key@ by {
            assert(front[i] == entries[i]);
            assert(front[j] == entries[j]);
        }
        lemma_entries_map(front);
        if entries_map(front).dom().contains(last.key@) {
            let i = choose|i: int| 0 <= i < front.len() && (#[trigger] front[i]).key@ == last.key@;
            assert(front[i] == entries[i]);
            assert(entries[entries.len() - 1] == last);
            assert(false);
        }
        assert forall|i: int| 0 <= i < entries.len() implies entries_map(entries).dom().contains(
            (#[trigger] entries[i]).key@,
        ) && entries_map(entries)[entries[i].key@] == (Cached {
            decision: entries[i].decision,
            expires_at: entries[i].expires_at as nat,
        }) by {
            if i < front.len() {
                assert(front[i] == entries[i]);
                assert(entries[entries.len() - 1] == last);
            }
        }
        assert forall|k: Seq<char>| entries_map(entries).dom().contains(k) implies exists|i: int|
            0 <= i < entries.len() && (#[trigger] entries[i]).key@ == k by {
            if k == last.key@ {
                assert(entries[entries.len() - 1].key@ == k);
            } else {
                let i = choose|i: int| 0 <= i < front.len() && (#[trigger] front[i]).key@ == k;
                assert(entries[i].key@ == k);
            }
        }
    }
}

/// How long a decision counts.
pub open spec fn ttl_of(decision: AuthDecision, valid_ttl: u64, invalid_ttl: u64) -> nat {
    match decision {
        AuthDecision::Valid => valid_ttl as nat,
        AuthDecision::Invalid => invalid_ttl as nat,
    }
}

/// What is remembered of a key at an instant: the decision kept for it, as
/// long as the instant lies before its expiry.
pub open spec fn remembered(cache: Map<Seq<char>, Cached>, key: Seq<char>, now: nat) -> Option<
    AuthDecision,
> {
    if cache.dom().contains(key) && now < cache[key].expires_at {
        Some(cache[key].decision)
    } else {
        None
    }
}

/// What the cache holds once a decision has been put in at an instant: the
/// decision under its key, expiring after its time to live, beside what was
/// there before; or alone, where the cache was full.
pub open spec fn with_decision(
    cache: Map<Seq<char>, Cached>,
    max_entries: nat,
    valid_ttl: u64,
    invalid_ttl: u64,
    key: Seq<char>,
    decision: AuthDecision,
    now: nat,
) -> Map<Seq<char>, Cached> {
    let kept = if cache.dom().len() >= max_entries {
        Map::empty()
    } else {
        cache
    };
    kept.insert(
        key,
        Cached { decision, expires_at: now + ttl_of(decision, valid_ttl, invalid_ttl) },
    )
}

/// What a cache is: the decisions it remembers, by key, and what it was
/// made with.
pub struct AuthCacheView {
    pub decisions: Map<Seq<char>, Cached>,
    /// How long an acceptance counts.
    pub valid_ttl: u64,
    /// How long a rejection counts.
    pub invalid_ttl: u64,
    /// How many decisions are remembered at most before all are dropped.
    pub max_entries: nat,
}

/// The cache once a decision has been put in at an instant: its decisions
/// are those of [`with_decision`], and what it was made with stays.
pub open spec fn after_insert(
    cache: AuthCacheView,
    key: Seq<char>,
    decision: AuthDecision,
    now: nat,
) -> AuthCacheView {
    AuthCacheView {
        decisions: with_decision(
            cache.decisions,
            cache.max_entries,
            cache.valid_ttl,
            cache.invalid_ttl,
            key,
            decision,
            now,
        ),
        valid_ttl: cache.valid_ttl,
        invalid_ttl: cache.invalid_ttl,
        max_entries: cache.max_entries,
    }
}

impl AuthCache {
    /// The decisions remembered, by key.
    pub closed spec fn decisions(&self) -> Map<Seq<char>, Cached> {
        entries_map(self.entries@)
    }

    /// What the cache is.
    pub open spec fn view(&self) -> AuthCacheView {
        AuthCacheView {
            decisions: self.decisions(),
            valid_ttl: self.valid_ttl(),
            invalid_ttl: self.invalid_ttl(),
            max_entries: self.max_entries(),
        }
    }

    /// How long an acceptance counts.
    pub closed spec fn valid_ttl(&self) -> u64 {
        self.valid_ttl
    }

    /// How long a rejection counts.
    pub closed spec fn invalid_ttl(&self) -> u64 {
        self.invalid_ttl
    }

    /// How many decisions are remembered at most before all are dropped.
    pub closed spec fn max_entries(&self) -> nat {
        self.max_entries as nat
    }

    /// Whether the cache is in order: no key is kept twice.
    pub closed spec fn wf(&self) -> bool {
        distinct_keys(self.entries@)
    }

    /// A cache in order remembers finitely many keys.
    pub proof fn lemma_finite(&self)
        requires
            self.wf(),
        ensures
            self@.decisions.dom().finite(),
    {
        lemma_entries_map(self.entries@);
    }

    /// An empty cache.
    pub fn new(valid_ttl: u64, invalid_ttl: u64, max_entries: usize) -> (cache: AuthCache)
        ensures
            cache.wf(),
            cache@ == (AuthCacheView {
                decisions: Map::empty(),
                valid_ttl,
                invalid_ttl,
                max_entries: max_entries as nat,
            }),
    {
        AuthCache { entries: Vec::new(), valid_ttl, invalid_ttl, max_entries }
    }

    /// How many decisions are remembered, expired ones included.
    pub fn len(&self) -> (n: usize)
        requires
            self.wf(),
        ensures
            n == self@.decisions.dom().len(),
    {
        proof {
            lemma_entries_map(self.entries@);
        }
        self.entries.len()
    }

    fn position(&self, key: &str) -> (r: Option<usize>)
        requires
            self.wf(),
        ensures
            match r {
                Some(i) => i < self.entries.len() && self.entries@[i as int].key@ == key@,
                None => !self@.decisions.dom().contains(key@),
            },
    {
        let mut i: usize = 0;
        while i < self.entries.len()
            invariant
                i <= self.entries.len(),
                forall|j: int| 0 <= j < i ==> (#[trigger] self.entries@[j]).key@ != key@,
            decreases self.entries.len() - i,
        {
            if same_text(self.entries[i].key.as_str(), key) {
                return Some(i);
            }
            i += 1;
        }
        proof {
            lemma_entries_map(self.entries@);
        }
        None
    }

    /// What is remembered of the key at the instant `now`. A decision that
    /// has expired is as good as none; it stays where it is.
    pub fn get(&self, key: &str, now: u64) -> (r: Option<AuthDecision>)
        requires
            self.wf(),
        ensures
            r == remembered(self@.decisions, key@, now as nat),
    {
        proof {
            lemma_entries_map(self.entries@);
        }
        match self.position(key) {
            Some(i) => {
                if (now as u128) < self.entries[i].expires_at {
                    Some(self.entries[i].decision)
                } else {
                    None
                }
            },
            None => None,
        }
    }

    /// Remembers a decision made at the instant `now`. Where the cache
    /// holds as many decisions as it may, all of them are dropped first.
    pub fn insert(&mut self, key: &str, decision: AuthDecision, now: u64)
        requires
            old(self).wf(),
        ensures
            final(self).wf(),
            final(self)@ == after_insert(old(self)@, key@, decision, now as nat),
    {
        proof {
            lemma_entries_map(self.entries@);
        }
        let ttl: u64 = match decision {
            AuthDecision::Valid => self.valid_ttl,
            AuthDecision::Invalid => self.invalid_ttl,
        };
        let entry = AuthCacheEntry {
            key: copy_text(key),
            decision,
            expires_at: (now as u128) + (ttl as u128),
        };
        let ghost cached = Cached { decision, expires_at: entry.expires_at as nat };
        let ghost pushed = entry;
        if self.entries.len() >= self.max_entries {
            self.entries.clear();
            self.entries.push(entry);
            proof {
                assert(self.entries@.drop_last() =~= Seq::<AuthCacheEntry>::empty());
                assert(self.entries@.last() == pushed);
                assert(entries_map(Seq::<AuthCacheEntry>::empty()) =~= Map::<
                    Seq<char>,
                    Cached,
                >::empty());
                assert(self.decisions() =~= Map::<Seq<char>, Cached>::empty().insert(
                    key@,
                    cached,
                ));
            }
        } else {
            let ghost before = self.entries@;
            match self.position(key) {
                Some(i) => {
                    self.entries.remove(i);
                    let ghost rest = self.entries@;
                    proof {
                        assert(rest =~= before.remove(i as int));
                        lemma_remove_entry(before, i as int);
                    }
                    self.entries.push(entry);
                    proof {
                        assert(self.entries@.drop_last() =~= rest);
                        assert forall|a: int, b: int|
                            0 <= a < b < self.entries@.len() implies (
                        #[trigger] self.entries@[a]).key@ != (#[trigger] self.entries@[b]).key@ by {
                            if b == rest.len() {
                                assert(self.entries@[a] == rest[a]);
                                lemma_entries_map(rest);
                            } else {
                                assert(self.entries@[a] == rest[a]);
                                assert(self.entries@[b] == rest[b]);
                            }
                        }
                        assert(self.decisions() =~= entries_map(before).insert(key@, cached));
                    }
                },
                None => {
                    self.entries.push(entry);
                    proof {
                        assert(self.entries@.drop_last() =~= before);
                        assert forall|a: int, b: int|
                            0 <= a < b < self.entries@.len() implies (
                        #[trigger] self.entries@[a]).key@ != (#[trigger] self.entries@[b]).key@ by {
                            if b == before.len() {
                                assert(self.entries@[a] == before[a]);
                            } else {
                                assert(self.entries@[a] == before[a]);
                                assert(self.entries@[b] == before[b]);
                            }
                        }
                    }
                },
            }
        }
    }
}

/// Taking an entry out of entries with distinct keys leaves distinct keys,
/// and takes its key, and no other, out of the map they stand for.
pub proof fn lemma_remove_entry(entries: Seq<AuthCacheEntry>, at: int)
    requires
        distinct_keys(entries),
        0 <= at < entries.len(),
    ensures
        distinct_keys(entries.remove(at)),
        entries_map(entries.remove(at)) == entries_map(entries).remove(entries[at].key@),
{
    let rest = entries.remove(at);
    assert forall|i: int, j: int| 0 <= i < j < rest.len() implies (#[trigger] rest[i]).key@ != (
    #[trigger] rest[j]).key@ by {
        let a = if i < at {
            i
        } else {
            i + 1
        };
        let b = if j < at {
            j
        } else {
            j + 1
        };
        assert(rest[i] == entries[a]);
        assert(rest[j] == entries[b]);
    }
    lemma_entries_map(entries);
    lemma_entries_map(rest);
    let left = entries_map(rest);
    let right = entries_map(entries).remove(entries[at].key@);
    assert forall|k: Seq<char>| left.dom().contains(k) <==> right.dom().contains(k) by {
        if left.dom().contains(k) {
            let i = choose|i: int| 0 <= i < rest.len() && (#[trigger] rest[i]).key@ == k;
            let a = if i < at {
                i
            } else {
                i + 1
            };
            assert(rest[i] == entries[a]);
            assert(entries[a].key@ == k);
        }
        if right.dom().contains(k) {
            let a = choose|a: int| 0 <= a < entries.len() && (#[trigger] entries[a]).key@ == k;
            let i = if a < at {
                a
            } else {
                a - 1
            };
            assert(rest[i] == entries[a]);
            assert(rest[i].key@ == k);
        }
    }
    assert forall|k: Seq<char>| left.dom().contains(k) implies left[k] == right[k] by {
        let i = choose|i: int| 0 <= i < rest.len() && (#[trigger] rest[i]).key@ == k;
        let a = if i < at {
            i
        } else {
            i + 1
        };
        assert(rest[i] == entries[a]);
        assert(entries[a].key@ == k);
    }
    assert(left =~= right);
}

/// A decision is remembered from the instant it is made until its time to
/// live is over, and not from then on: asked for at an instant before the
/// expiry, the key gives the decision; at the expiry or after, nothing.
pub proof fn decision_lives_for_its_ttl(
    cache: Map<Seq<char>, Cached>,
    max_entries: nat,
    valid_ttl: u64,
    invalid_ttl: u64,
    key: Seq<char>,
    decision: AuthDecision,
    made_at: nat,
    asked_at: nat,
)
    ensures
        asked_at < made_at + ttl_of(decision, valid_ttl, invalid_ttl) ==> remembered(
            with_decision(cache, max_entries, valid_ttl, invalid_ttl, key, decision, made_at),
            key,
            asked_at,
        ) == Some(decision),
        asked_at >= made_at + ttl_of(decision, valid_ttl, invalid_ttl) ==> remembered(
            with_decision(cache, max_entries, valid_ttl, invalid_ttl, key, decision, made_at),
            key,
            asked_at,
        ) is None,
{
}

/// A full cache forgets everything for a newcomer: once a decision has been
/// put into a cache that held as many as it may, no other key gives
/// anything, at whatever instant it is asked for.
pub proof fn full_cache_is_cleared(
    cache: Map<Seq<char>, Cached>,
    max_entries: nat,
    valid_ttl: u64,
    invalid_ttl: u64,
    key: Seq<char>,
    decision: AuthDecision,
    made_at: nat,
    other: Seq<char>,
    asked_at: nat,
)
    requires
        cache.dom().len() >= max_entries,
        other != key,
    ensures
        remembered(
            with_decision(cache, max_entries, valid_ttl, invalid_ttl, key, decision, made_at),
            other,
            asked_at,
        ) is None,
        with_decision(
            cache,
            max_entries,
            valid_ttl,
            invalid_ttl,
            key,
            decision,
            made_at,
        ).dom() =~= set![key],
{
}

/// A cache that is not full keeps what it has: a decision put in leaves
/// what is remembered of every other key as it was.
pub proof fn roomy_cache_keeps_others(
    cache: Map<Seq<char>, Cached>,
    max_entries: nat,
    valid_ttl: u64,
    invalid_ttl: u64,
    key: Seq<char>,
    decision: AuthDecision,
    made_at: nat,
    other: Seq<char>,
    asked_at: nat,
)
    requires
        cache.dom().len() < max_entries,
        other != key,
    ensures
        remembered(
            with_decision(cache, max_entries, valid_ttl, invalid_ttl, key, decision, made_at),
            other,
            asked_at,
        ) == remembered(cache, other, asked_at),
{
}

/// What the platform answered when asked whether a key is good.
#[derive(Debug, Clone, Copy, PartialEq, Eq, Structural)]
pub enum ValidationReply {
    /// It answered, and the key is good.
    Success,
    /// It answered with an HTTP status that is no success.
    Status(u16),
    /// It did not answer: the network failed or the time ran out.
    NoAnswer,
}

/// What the service makes of a request, as far as its key goes.
#[derive(Debug, Clone, Copy, PartialEq, Eq, Structural)]
pub enum AuthVerdict {
    /// The key is good.
    Authorized,
    /// The key is bad.
    Unauthorized,
    /// The key could not be validated; the request is turned away, and
    /// nothing is remembered.
    UnableToValidate,
}

/// The decision that a reply amounts to: a success, that the key is valid;
/// a status that denies authentication or authorization (401, 403), that it
/// is invalid; anything else, none.
pub open spec fn decision_of(reply: ValidationReply) -> Option<AuthDecision> {
    match reply {
        ValidationReply::Success => Some(AuthDecision::Valid),
        ValidationReply::Status(status) => {
            if status == 401 || status == 403 {
                Some(AuthDecision::Invalid)
            } else {
                None
            }
        },
        ValidationReply::NoAnswer => None,
    }
}

/// Executable form of [`decision_of`].
pub fn classify_reply(reply: ValidationReply) -> (r: Option<AuthDecision>)
    ensures
        r == decision_of(reply),
{
    match reply {
        ValidationReply::Success => Some(AuthDecision::Valid),
        ValidationReply::Status(status) => {
            if status == 401 || status == 403 {
                Some(AuthDecision::Invalid)
            } else {
                None
            }
        },
        ValidationReply::NoAnswer => None,
    }
}

/// The verdict that a decision, or the lack of one, amounts to.
pub open spec fn verdict_of(decision: Option<AuthDecision>) -> AuthVerdict {
    match decision {
        Some(AuthDecision::Valid) => AuthVerdict::Authorized,
        Some(AuthDecision::Invalid) => AuthVerdict::Unauthorized,
        None => AuthVerdict::UnableToValidate,
    }
}

/// The HTTP status with which a request is turned away for its key; none
/// where the key is good.
pub open spec fn rejection_status(verdict: AuthVerdict) -> Option<u16> {
    match verdict {
        AuthVerdict::Authorized => None,
        AuthVerdict::Unauthorized => Some(401),
        AuthVerdict::UnableToValidate => Some(503),
    }
}

impl AuthVerdict {
    /// The HTTP status with which the request is turned away, if it is.
    pub fn status(&self) -> (r: Option<u16>)
        ensures
            r == rejection_status(*self),
    {
        match self {
            AuthVerdict::Authorized => None,
            AuthVerdict::Unauthorized => Some(401),
            AuthVerdict::UnableToValidate => Some(503),
        }
    }

    /// A sentence for the caller.
    pub fn message(&self) -> (r: String)
        ensures
            r@ == match *self {
                AuthVerdict::Authorized => "authorized"@,
                AuthVerdict::Unauthorized => "invalid api key"@,
                AuthVerdict::UnableToValidate => "unable to validate api key"@,
            },
    {
        match self {
            AuthVerdict::Authorized => copy_text("authorized"),
            AuthVerdict::Unauthorized => copy_text("invalid api key"),
            AuthVerdict::UnableToValidate => copy_text("unable to validate api key"),
        }
    }
}

/// What is known of a key without asking the platform: the verdict that
/// the remembered decision amounts to, and none where nothing is remembered.
pub open spec fn known_verdict(remembered: Option<AuthDecision>) -> Option<AuthVerdict> {
    match remembered {
        Some(decision) => Some(verdict_of(Some(decision))),
        None => None,
    }
}

impl AuthCache {
    /// The verdict on a key as far as it is remembered at the instant
    /// `now`. Where there is none the platform has to be asked, and its
    /// answer recorded.
    pub fn lookup(&self, key: &str, now: u64) -> (r: Option<AuthVerdict>)
        requires
            self.wf(),
        ensures
            r == known_verdict(remembered(self@.decisions, key@, now as nat)),
    {
        match self.get(key, now) {
            Some(AuthDecision::Valid) => Some(AuthVerdict::Authorized),
            Some(AuthDecision::Invalid) => Some(AuthVerdict::Unauthorized),
            None => None,
        }
    }

    /// Takes note of what the platform answered for a key at the instant
    /// `now`, and gives the verdict. A decision is remembered; the lack of
    /// one leaves the cache as it was.
    pub fn record(&mut self, key: &str, reply: ValidationReply, now: u64) -> (verdict: AuthVerdict)
        requires
            old(self).wf(),
        ensures
            final(self).wf(),
            verdict == verdict_of(decision_of(reply)),
            final(self)@ == match decision_of(reply) {
                Some(decision) => after_insert(old(self)@, key@, decision, now as nat),
                None => old(self)@,
            },
    {
        match classify_reply(reply) {
            Some(AuthDecision::Valid) => {
                self.insert(key, AuthDecision::Valid, now);
                AuthVerdict::Authorized
            },
            Some(AuthDecision::Invalid) => {
                self.insert(key, AuthDecision::Invalid, now);
                AuthVerdict::Unauthorized
            },
            None => AuthVerdict::UnableToValidate,
        }
    }
}

} // verus!
