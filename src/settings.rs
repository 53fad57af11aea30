//! The guild settings store: one small record per guild, held in a concurrent map.
use dashmap::DashMap;
use vstd::prelude::*;

verus! {

#[verifier::external_type_specification]
#[verifier::external_body]
#[verifier::reject_recursive_types(K)]
#[verifier::reject_recursive_types(V)]
#[verifier::reject_recursive_types(S)]
pub struct ExDashMap<K, V, S>(DashMap<K, V, S>);

/// Mutable settings of one guild.
pub struct Settings {
    pub loop_queue: bool,
}

impl Settings {
    /// The settings a guild starts with: looping is off.
    pub fn new() -> (r: Settings)
        ensures
            !r.loop_queue,
    {
        Settings { loop_queue: false }
    }
}

impl Default for Settings {
    fn default() -> (r: Settings)
        ensures
            !r.loop_queue,
    {
        Settings::new()
    }
}

/// The loop flag of each guild that has a record in the map.
pub uninterp spec fn loop_flags(m: DashMap<u64, Settings>) -> Map<u64, bool>;

/// Relies on `DashMap::new`: a new map holds no entry.
#[verifier::external_body]
fn map_new() -> (r: DashMap<u64, Settings>)
    ensures
        loop_flags(r).dom() == Set::<u64>::empty(),
{
    DashMap::new()
}

/// Relies on `DashMap::get`: the value stored under the key, if there is one.
#[verifier::external_body]
fn map_get(m: &DashMap<u64, Settings>, guild: u64) -> (r: Option<bool>)
    ensures
        r == (if loop_flags(*m).contains_key(guild) {
            Some(loop_flags(*m)[guild])
        } else {
            None
        }),
{
    m.get(&guild).map(|s| s.loop_queue)
}

/// Relies on `DashMap::insert`: afterwards the key maps to the given value.
#[verifier::external_body]
fn map_insert(m: &mut DashMap<u64, Settings>, guild: u64, s: Settings)
    ensures
        loop_flags(*final(m)) == loop_flags(*old(m)).insert(guild, s.loop_queue),
{
    m.insert(guild, s);
}

/// Relies on `DashMap::remove`: afterwards the key has no entry.
#[verifier::external_body]
fn map_remove(m: &mut DashMap<u64, Settings>, guild: u64)
    ensures
        loop_flags(*final(m)) == loop_flags(*old(m)).remove(guild),
{
    m.remove(&guild);
}

/// Whether looping is on for `guild`; a guild without a record does not loop.
pub open spec fn loop_status(flags: Map<u64, bool>, guild: u64) -> bool {
    flags.contains_key(guild) && flags[guild]
}

/// The records after a toggle of `guild`: the flag flips where a record exists.
pub open spec fn toggled(flags: Map<u64, bool>, guild: u64) -> Map<u64, bool> {
    if flags.contains_key(guild) {
        flags.insert(guild, !flags[guild])
    } else {
        flags
    }
}

/// The records after `guild` was seen: a default record is added where none exists.
pub open spec fn with_record(flags: Map<u64, bool>, guild: u64) -> Map<u64, bool> {
    if flags.contains_key(guild) {
        flags
    } else {
        flags.insert(guild, false)
    }
}

/// Settings of every guild the bot is in, keyed by guild identifier.
pub struct GuildSettings {
    map: DashMap<u64, Settings>,
}

impl View for GuildSettings {
    type V = Map<u64, bool>;

    closed spec fn view(&self) -> Map<u64, bool> {
        loop_flags(self.map)
    }
}

impl GuildSettings {
    /// A store with no records.
    pub fn new() -> (r: GuildSettings)
        ensures
            r@.dom() == Set::<u64>::empty(),
    {
        GuildSettings { map: map_new() }
    }

    /// Whether `guild` has a record.
    pub fn contains(&self, guild: u64) -> (r: bool)
        ensures
            r == self@.contains_key(guild),
    {
        map_get(&self.map, guild).is_some()
    }

    /// Whether looping is on for `guild`.
    pub fn loop_enabled(&self, guild: u64) -> (r: bool)
        ensures
            r == loop_status(self@, guild),
    {
        match map_get(&self.map, guild) {
            Some(b) => b,
            None => false,
        }
    }

    /// Adds the default record for `guild` unless it already has one.
    pub fn get_or_create(&mut self, guild: u64)
        ensures
            final(self)@ == with_record(old(self)@, guild),
    {
        if map_get(&self.map, guild).is_none() {
            map_insert(&mut self.map, guild, Settings::new());
        }
    }

    /// Flips the loop flag of `guild` and returns the new value; without a
    /// record nothing changes and the result is `false`.
    pub fn toggle_loop(&mut self, guild: u64) -> (r: bool)
        ensures
            final(self)@ == toggled(old(self)@, guild),
            r == loop_status(final(self)@, guild),
    {
        match map_get(&self.map, guild) {
            Some(b) => {
                map_insert(&mut self.map, guild, Settings { loop_queue: !b });
                !b
            },
            None => false,
        }
    }

    /// Drops the record of `guild`.
    pub fn remove(&mut self, guild: u64)
        ensures
            final(self)@ == old(self)@.remove(guild),
    {
        map_remove(&mut self.map, guild);
    }
}

/// A guild without a record reads as not looping.
pub proof fn lemma_no_record_no_loop(flags: Map<u64, bool>, guild: u64)
    requires
        !flags.contains_key(guild),
    ensures
        !loop_status(flags, guild),
{
}

/// Toggling a guild's loop flag twice restores every record, and a single toggle
/// of a guild with a record flips what the next read returns.
pub proof fn lemma_toggle_twice(flags: Map<u64, bool>, guild: u64)
    ensures
        toggled(toggled(flags, guild), guild) == flags,
        flags.contains_key(guild) ==> loop_status(toggled(flags, guild), guild) != loop_status(
            flags,
            guild,
        ),
{
    if flags.contains_key(guild) {
        assert(toggled(toggled(flags, guild), guild) =~= flags);
    }
}

} // verus!
