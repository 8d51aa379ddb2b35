//! Runtime model of the synthesized convenience entry points: a key-value
//! storage container, the build capability a genesis configuration satisfies,
//! and the `build_storage` / `assimilate_storage` behaviour the emitted code
//! has. Running the build routine inside the scoped execution context is
//! modeled by handing the routine the container it must write into.

use vstd::prelude::*;

verus! {

/// A key-value storage container: the persistence target genesis state is
/// written into. Abstractly, a map from keys to values; a later write to a
/// key overrides an earlier one.
pub struct Storage {
    entries: Vec<(String, String)>,
}

/// The abstract contents of an entry list: entries applied in order, later
/// entries overriding earlier ones.
pub closed spec fn entries_map(s: Seq<(String, String)>) -> Map<Seq<char>, Seq<char>>
    decreases s.len(),
{
    if s.len() == 0 {
        Map::empty()
    } else {
        entries_map(s.drop_last()).insert(s.last().0@, s.last().1@)
    }
}

impl View for Storage {
    type V = Map<Seq<char>, Seq<char>>;

    closed spec fn view(&self) -> Map<Seq<char>, Seq<char>> {
        entries_map(self.entries@)
    }
}

impl Storage {
    /// Creates an empty container.
    pub fn new() -> (s: Storage)
        ensures
            s@ == Map::<Seq<char>, Seq<char>>::empty(),
    {
        Storage { entries: Vec::new() }
    }

    /// Writes `value` under `key`, overriding any earlier value.
    pub fn set(&mut self, key: String, value: String)
        ensures
            final(self)@ == old(self)@.insert(key@, value@),
    {
        self.entries.push((key, value));
        proof {
            assert(self.entries@.drop_last() =~= old(self).entries@);
        }
    }

    /// Reads the value stored under `key`, if any.
    pub fn get(&self, key: &String) -> (r: Option<String>)
        ensures
            match r {
                Option::Some(v) => self@.contains_key(key@) && v@ == self@[key@],
                Option::None => !self@.contains_key(key@),
            },
    {
        let mut i = self.entries.len();
        proof {
            assert(self.entries@.take(i as int) =~= self.entries@);
        }
        while i > 0
            invariant
                0 <= i <= self.entries@.len(),
                self@.contains_key(key@) == entries_map(self.entries@.take(i as int)).contains_key(
                    key@,
                ),
                self@.contains_key(key@) ==> self@[key@] == entries_map(
                    self.entries@.take(i as int),
                )[key@],
            decreases i,
        {
            i = i - 1;
            let entry = &self.entries[i];
            proof {
                assert(self.entries@.take(i + 1).drop_last() =~= self.entries@.take(i as int));
                assert(self.entries@.take(i + 1).last() == self.entries@[i as int]);
            }
            if entry.0 == *key {
                return Some(entry.1.clone());
            }
        }
        proof {
            assert(self.entries@.take(0) =~= Seq::<(String, String)>::empty());
        }
        None
    }
}

/// The build capability: a genesis configuration type satisfies it so the
/// framework can ask the type, uniformly, to build its initial state into a
/// storage container. User code implements it; this crate only calls through
/// it.
pub trait GenesisBuild {
    /// The outcome of the type's build routine against given storage
    /// contents: the new contents on success, or a textual failure message.
    spec fn build_effect(&self, before: Map<Seq<char>, Seq<char>>) -> Result<
        Map<Seq<char>, Seq<char>>,
        Seq<char>,
    >;

    /// Runs the build routine with every storage operation redirected into
    /// `storage`.
    fn build(&self, storage: &mut Storage) -> (r: Result<(), String>)
        ensures
            match self.build_effect(old(storage)@) {
                Result::Ok(after) => r is Ok && final(storage)@ == after,
                Result::Err(msg) => r matches Err(m) && m@ == msg,
            },
    ;
}

/// What assimilation guarantees: against contents `before`, the container
/// ends up holding exactly what the configuration's build effect gives, or
/// the call fails with exactly the effect's message.
pub open spec fn assimilate_post<G: GenesisBuild>(
    config: G,
    before: Map<Seq<char>, Seq<char>>,
    after: Map<Seq<char>, Seq<char>>,
    r: Result<(), String>,
) -> bool {
    match config.build_effect(before) {
        Result::Ok(m) => r is Ok && after == m,
        Result::Err(msg) => r matches Err(e) && e@ == msg,
    }
}

/// What building into a fresh container guarantees: the returned container
/// holds exactly what the configuration's build effect gives on empty
/// contents, or the call fails with exactly the effect's message.
pub open spec fn build_post<G: GenesisBuild>(config: G, r: Result<Storage, String>) -> bool {
    match config.build_effect(Map::empty()) {
        Result::Ok(m) => r matches Ok(s) && s@ == m,
        Result::Err(msg) => r matches Err(e) && e@ == msg,
    }
}

/// Runs the configuration's build routine inside a scoped execution context
/// bound to `storage`, so that the writes the routine performs land in that
/// container. Succeeds exactly when the routine does; a failure message is
/// propagated verbatim, with no transformation or wrapping.
pub fn assimilate_storage<G: GenesisBuild>(config: &G, storage: &mut Storage) -> (r: Result<
    (),
    String,
>)
    ensures
        assimilate_post(*config, old(storage)@, final(storage)@, r),
{
    config.build(storage)
}

/// Builds genesis state into a fresh container: creates an empty container,
/// assimilates into it, and returns the populated container, or the same
/// failure `assimilate_storage` would produce on an empty container.
pub fn build_storage<G: GenesisBuild>(config: &G) -> (r: Result<Storage, String>)
    ensures
        build_post(*config, r),
{
    let mut storage = Storage::new();
    match assimilate_storage(config, &mut storage) {
        Result::Ok(()) => Result::Ok(storage),
        Result::Err(e) => Result::Err(e),
    }
}

/// Building into a fresh container is behaviorally equivalent to creating an
/// empty container and assimilating into it: for every configuration, any
/// result meeting `build_storage`'s contract succeeds exactly when any result
/// meeting `assimilate_storage`'s contract on an empty container does, a
/// built container holds exactly the assimilated contents, and a failure
/// carries exactly the same message.
pub proof fn lemma_build_storage_equivalence<G: GenesisBuild>(
    config: G,
    built: Result<Storage, String>,
    after: Map<Seq<char>, Seq<char>>,
    assimilated: Result<(), String>,
)
    requires
        build_post(config, built),
        assimilate_post(config, Map::empty(), after, assimilated),
    ensures
        built is Ok <==> assimilated is Ok,
        built matches Ok(s) ==> s@ == after,
        built matches Err(m1) ==> assimilated matches Err(m2) && m1@ == m2@,
{
}

/// A genesis configuration that writes one key-value pair: the simplest
/// configuration a component can declare.
pub struct SingleEntryConfig {
    /// The key written at genesis.
    pub key: String,
    /// The value written under the key.
    pub value: String,
}

impl GenesisBuild for SingleEntryConfig {
    open spec fn build_effect(&self, before: Map<Seq<char>, Seq<char>>) -> Result<
        Map<Seq<char>, Seq<char>>,
        Seq<char>,
    > {
        Result::Ok(before.insert(self.key@, self.value@))
    }

    fn build(&self, storage: &mut Storage) -> (r: Result<(), String>) {
        storage.set(self.key.clone(), self.value.clone());
        Result::Ok(())
    }
}

/// A genesis configuration whose build routine always reports a failure, with
/// the message propagated verbatim to the caller.
pub struct FailingConfig {
    /// The failure message the build routine reports.
    pub message: String,
}

impl GenesisBuild for FailingConfig {
    open spec fn build_effect(&self, before: Map<Seq<char>, Seq<char>>) -> Result<
        Map<Seq<char>, Seq<char>>,
        Seq<char>,
    > {
        Result::Err(self.message@)
    }

    fn build(&self, storage: &mut Storage) -> (r: Result<(), String>) {
        Result::Err(self.message.clone())
    }
}

} // verus!
