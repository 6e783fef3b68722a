use vstd::prelude::*;
use vstd::string::StringExecFns;

use crate::utils::{cap_stat, clamped};

verus! {

/// Upper bound on the magnitude of any timestamp the library stores, in
/// seconds from the Unix epoch. chrono datetimes span about ±262,000 years,
/// which keeps every timestamp a real clock can produce inside this bound.
pub const TS_BOUND: i64 = 9_000_000_000_000;

/// The sole persisted entity: a pet and its bounded stats.
///
/// A pet whose name is exactly `"Pet"` is the placeholder that stands for
/// "no pet adopted yet"; every handler short-circuits on it.
#[derive(Debug, Clone)]
pub struct Pet {
    pub name: String,
    pub species: String,
    pub hunger: u8,
    pub happiness: u8,
    pub energy: u8,
    pub xp: u8,
    pub level: u32,
    pub cleanliness: u8,
    pub potty_level: u8,
    pub last_updated: i64,
}

impl Pet {
    /// Every bounded stat within [0, 100], xp strictly below 100, level at
    /// least 1, and a timestamp that a real clock could have produced.
    pub open spec fn wf(&self) -> bool {
        &&& self.hunger <= 100
        &&& self.happiness <= 100
        &&& self.energy <= 100
        &&& self.cleanliness <= 100
        &&& self.potty_level <= 100
        &&& self.xp <= 99
        &&& self.level >= 1
        &&& -TS_BOUND <= self.last_updated <= TS_BOUND
    }

    /// Whether this record is the "no pet adopted yet" placeholder.
    pub open spec fn spec_is_placeholder(&self) -> bool {
        self.name@ == "Pet"@
    }

    /// Whether this record is the "no pet adopted yet" placeholder.
    pub fn is_placeholder(&self) -> (r: bool)
        ensures
            r == self.spec_is_placeholder(),
    {
        let sentinel: String = String::from_str("Pet");
        self.name == sentinel
    }

    /// A newborn pet with the fixed initial stats and the given timestamp.
    pub fn new_at(name: String, species: String, now: i64) -> (r: Pet)
        requires
            -TS_BOUND <= now <= TS_BOUND,
        ensures
            r.name == name,
            r.species == species,
            r.hunger == 80,
            r.happiness == 80,
            r.energy == 80,
            r.xp == 0,
            r.level == 1,
            r.cleanliness == 80,
            r.potty_level == 0,
            r.last_updated == now,
            r.wf(),
    {
        Pet {
            name,
            species,
            hunger: 80,
            happiness: 80,
            energy: 80,
            xp: 0,
            level: 1,
            cleanliness: 80,
            potty_level: 0,
            last_updated: now,
        }
    }

    /// A newborn pet with the fixed initial stats, stamped with the current time.
    pub fn new(name: String, species: String) -> (r: Pet)
        ensures
            r.name == name,
            r.species == species,
            r.hunger == 80,
            r.happiness == 80,
            r.energy == 80,
            r.xp == 0,
            r.level == 1,
            r.cleanliness == 80,
            r.potty_level == 0,
            r.wf(),
    {
        let now: i64 = now_unix_seconds();
        Pet::new_at(name, species, now)
    }

    /// Rebuilds a pet from stored field values, capping every stat back into
    /// its range, so that whatever was read from durable storage satisfies
    /// `wf` again.
    pub fn from_parts(
        name: String,
        species: String,
        hunger: u8,
        happiness: u8,
        energy: u8,
        xp: u8,
        level: u32,
        cleanliness: u8,
        potty_level: u8,
        last_updated: i64,
    ) -> (r: Pet)
        ensures
            r.name == name,
            r.species == species,
            r.hunger as int == clamped(hunger as int, 0, 100),
            r.happiness as int == clamped(happiness as int, 0, 100),
            r.energy as int == clamped(energy as int, 0, 100),
            r.cleanliness as int == clamped(cleanliness as int, 0, 100),
            r.potty_level as int == clamped(potty_level as int, 0, 100),
            r.xp as int == clamped(xp as int, 0, 99),
            r.level == (if level >= 1 { level } else { 1u32 }),
            r.last_updated as int == clamped(last_updated as int, -TS_BOUND as int, TS_BOUND as int),
            r.wf(),
    {
        let ts: i64 = if last_updated > TS_BOUND {
            TS_BOUND
        } else if last_updated < -TS_BOUND {
            -TS_BOUND
        } else {
            last_updated
        };
        Pet {
            name,
            species,
            hunger: cap_stat(hunger as i32, 0, 100),
            happiness: cap_stat(happiness as i32, 0, 100),
            energy: cap_stat(energy as i32, 0, 100),
            xp: cap_stat(xp as i32, 0, 99),
            level: if level >= 1 { level } else { 1 },
            cleanliness: cap_stat(cleanliness as i32, 0, 100),
            potty_level: cap_stat(potty_level as i32, 0, 100),
            last_updated: ts,
        }
    }
}

impl Default for Pet {
    /// The "no pet adopted yet" placeholder record.
    fn default() -> (r: Pet)
        ensures
            r.name@ == "Pet"@,
            r.species@ == "unknown"@,
            r.spec_is_placeholder(),
            r.hunger == 80,
            r.happiness == 80,
            r.energy == 80,
            r.xp == 0,
            r.level == 1,
            r.cleanliness == 80,
            r.potty_level == 0,
            r.wf(),
    {
        Pet::new(String::from_str("Pet"), String::from_str("unknown"))
    }
}

/// Relies on `chrono::Utc::now` and `chrono::DateTime::timestamp` for the
/// current time as seconds since the Unix epoch. chrono datetimes are limited
/// to about ±262,000 years, so the result always fits inside `TS_BOUND`;
/// nothing else is promised of the clock.
#[verifier::external_body]
fn now_unix_seconds() -> (r: i64)
    ensures
        -TS_BOUND <= r <= TS_BOUND,
{
    chrono::Utc::now().timestamp()
}

} // verus!
