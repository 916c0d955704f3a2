//! Context for RedisMq messages
use vstd::prelude::*;

use serde_json::Value;

verus! {

/// A JSON value of `serde_json`, carried as metadata and never looked into.
#[verifier::external_type_specification]
#[verifier::external_body]
pub struct ExJsonValue(Value);

/// The error type of `serde_json`.
#[verifier::external_type_specification]
#[verifier::external_body]
pub struct ExJsonError(serde_json::Error);

/// The string-keyed map of `serde_json` that holds a context's metadata.
#[verifier::external_type_specification]
#[verifier::external_body]
#[verifier::reject_recursive_types(K)]
#[verifier::reject_recursive_types(V)]
pub struct ExJsonMap<K, V>(serde_json::Map<K, V>);

/// The entries of a `serde_json::Map`, each key taken by its characters.
pub uninterp spec fn json_map_entries(m: serde_json::Map<String, Value>) -> Map<Seq<char>, Value>;

/// The error that `serde_json::Error::custom` makes of a message.
pub uninterp spec fn json_custom_error(msg: Seq<char>) -> serde_json::Error;

/// `serde_json::Map::new`: a map with no entries.
#[verifier::external_body]
fn json_map_new() -> (fresh: serde_json::Map<String, Value>)
    ensures
        json_map_entries(fresh).dom() == Set::<Seq<char>>::empty(),
{
    serde_json::Map::new()
}

/// `serde_json::Map::insert`: the key now maps to the value, every other
/// key is unchanged, and the value the key had before is handed back.
#[verifier::external_body]
fn json_map_insert(m: &mut serde_json::Map<String, Value>, key: String, value: Value) -> (prev: Option<Value>)
    ensures
        json_map_entries(*final(m)) == json_map_entries(*old(m)).insert(key@, value),
        prev == (if json_map_entries(*old(m)).contains_key(key@) {
            Some(json_map_entries(*old(m))[key@])
        } else {
            None
        }),
{
    m.insert(key, value)
}

/// `serde_json::Map::get`: the value stored under the key, if there is one.
#[verifier::external_body]
fn json_map_get<'a>(m: &'a serde_json::Map<String, Value>, key: &str) -> (r: Option<&'a Value>)
    ensures
        r == (if json_map_entries(*m).contains_key(key@) {
            Some(&json_map_entries(*m)[key@])
        } else {
            None
        }),
{
    m.get(key)
}

/// `serde_json::Map::clone`: a map with the same entries.
pub assume_specification[ <serde_json::Map<String, Value> as Clone>::clone ](
    m: &serde_json::Map<String, Value>,
) -> (r: serde_json::Map<String, Value>)
    ensures
        json_map_entries(r) == json_map_entries(*m),
;

/// `serde_json::Error::custom` (the `serde::de::Error` method): an error
/// that carries the message. What the error holds besides is left unsaid.
#[verifier::external_body]
fn json_error_custom(msg: String) -> (e: serde_json::Error)
    ensures
        e == json_custom_error(msg@),
{
    <serde_json::Error as serde::de::Error>::custom(msg)
}

/// The message of the error that reports metadata missing for a type.
pub open spec fn missing_meta_message(name: Seq<char>) -> Seq<char> {
    "No metadata found for type: "@ + name
}

/// What a context holds.
pub struct ContextView {
    /// How many times a message is tried before it is given up.
    pub max_attempts: usize,
    /// The metadata, by key.
    pub meta: Map<Seq<char>, Value>,
}

/// Context for RedisMq messages
#[derive(Debug)]
pub struct RedisMqContext {
    max_attempts: usize,
    meta: serde_json::Map<String, Value>,
}

impl View for RedisMqContext {
    type V = ContextView;

    closed spec fn view(&self) -> ContextView {
        ContextView { max_attempts: self.max_attempts, meta: json_map_entries(self.meta) }
    }
}

impl RedisMqContext {
    /// Creates a new RedisMqContext
    pub fn new(max_attempts: usize) -> (c: Self)
        ensures
            c@ == (ContextView { max_attempts, meta: Map::empty() }),
    {
        let meta = json_map_new();
        assert(json_map_entries(meta) =~= Map::empty());
        Self { max_attempts, meta }
    }

    /// Sets the max attempts
    pub fn with_max_attempts(self, max_attempts: usize) -> (c: Self)
        ensures
            c@ == (ContextView { max_attempts, ..self@ }),
    {
        let mut this = self;
        this.max_attempts = max_attempts;
        this
    }

    /// Sets the metadata
    pub fn with_meta(self, meta: serde_json::Map<String, Value>) -> (c: Self)
        ensures
            c@ == (ContextView { meta: json_map_entries(meta), ..self@ }),
    {
        let mut this = self;
        this.meta = meta;
        this
    }

    /// Gets the max attempts
    pub fn max_attempts(&self) -> (n: usize)
        ensures
            n == self@.max_attempts,
    {
        self.max_attempts
    }

    /// Gets the metadata
    pub fn meta(&self) -> (m: &serde_json::Map<String, Value>)
        ensures
            json_map_entries(*m) == self@.meta,
    {
        &self.meta
    }

    /// Stores a value in the metadata under the given key, in place of any
    /// value the key had.
    pub fn insert_meta(&mut self, key: String, value: Value)
        ensures
            final(self)@ == (ContextView { meta: old(self)@.meta.insert(key@, value), ..old(self)@ }),
    {
        let _ = json_map_insert(&mut self.meta, key, value);
    }

    /// Stores the JSON form of a value under the given key (the key is the
    /// value's type name). `converted` is what turning the value into JSON
    /// gave: its error is handed back and the context is left unchanged.
    pub fn inject_value(&mut self, key: String, converted: Result<Value, serde_json::Error>) -> (r: Result<(), serde_json::Error>)
        ensures
            match converted {
                Ok(value) => r is Ok && final(self)@ == (ContextView {
                    meta: old(self)@.meta.insert(key@, value),
                    ..old(self)@
                }),
                Err(e) => r == Err::<(), serde_json::Error>(e) && final(self)@ == old(self)@,
            },
    {
        match converted {
            Ok(value) => {
                self.insert_meta(key, value);
                Ok(())
            },
            Err(e) => Err(e),
        }
    }

    /// The metadata stored under the given type name, or the error that
    /// reports that there is none: `No metadata found for type: ` followed by
    /// the type name.
    pub fn lookup_meta(&self, name: &str) -> (r: Result<&Value, serde_json::Error>)
        ensures
            self@.meta.contains_key(name@) ==> r == Ok::<&Value, serde_json::Error>(&self@.meta[name@]),
            !self@.meta.contains_key(name@) ==> r == Err::<&Value, serde_json::Error>(
                json_custom_error(missing_meta_message(name@)),
            ),
    {
        match json_map_get(&self.meta, name) {
            Some(value) => Ok(value),
            None => {
                let mut msg = String::from_str("No metadata found for type: ");
                msg.append(name);
                proof {
                    reveal_strlit("No metadata found for type: ");
                }
                assert(msg@ =~= missing_meta_message(name@));
                Err(json_error_custom(msg))
            },
        }
    }
}

impl Clone for RedisMqContext {
    /// A context with the same limit of attempts and the same metadata.
    fn clone(&self) -> (c: Self)
        ensures
            c@ == self@,
    {
        RedisMqContext { max_attempts: self.max_attempts, meta: self.meta.clone() }
    }
}

impl Default for RedisMqContext {
    /// A context with no attempts allowed and no metadata.
    fn default() -> (c: Self)
        ensures
            c@ == (ContextView { max_attempts: 0, meta: Map::empty() }),
    {
        RedisMqContext::new(0)
    }
}

/// What is stored under a key is what a lookup of that key gives back, and
/// storing under one key leaves every other key as it was.
pub proof fn lemma_meta_insert_then_lookup(c: ContextView, key: Seq<char>, value: Value, other: Seq<char>)
    requires
        other != key,
    ensures
        c.meta.insert(key, value).contains_key(key),
        c.meta.insert(key, value)[key] == value,
        c.meta.insert(key, value).contains_key(other) == c.meta.contains_key(other),
        c.meta.contains_key(other) ==> c.meta.insert(key, value)[other] == c.meta[other],
{
}

/// The metadata after a run of values is stored, one after another, each
/// under its key: what a run of successful injects does (an inject whose
/// conversion failed leaves the metadata as it was).
pub open spec fn insert_all(meta: Map<Seq<char>, Value>, entries: Seq<(Seq<char>, Value)>) -> Map<
    Seq<char>,
    Value,
>
    decreases entries.len(),
{
    if entries.len() == 0 {
        meta
    } else {
        insert_all(meta, entries.drop_last()).insert(entries.last().0, entries.last().1)
    }
}

/// A value stored under a key is still what a lookup of that key gives
/// back after any number of values are stored under other keys.
pub proof fn lemma_meta_survives_other_inserts(
    meta: Map<Seq<char>, Value>,
    key: Seq<char>,
    value: Value,
    later: Seq<(Seq<char>, Value)>,
)
    requires
        forall|i: int| 0 <= i < later.len() ==> (#[trigger] later[i]).0 != key,
    ensures
        insert_all(meta.insert(key, value), later).contains_key(key),
        insert_all(meta.insert(key, value), later)[key] == value,
    decreases later.len(),
{
    if later.len() > 0 {
        let rest = later.drop_last();
        assert forall|i: int| 0 <= i < rest.len() implies (#[trigger] rest[i]).0 != key by {
            assert(rest[i] == later[i]);
        }
        lemma_meta_survives_other_inserts(meta, key, value, rest);
        assert(later.last() == later[later.len() - 1]);
    }
}

} // verus!
