use vstd::prelude::*;
use vstd::string::StringExecFns;

use crate::pet::{Pet, TS_BOUND};

verus! {

/// A stat lowered by `amount`, stopping at zero (one-sided saturation).
pub open spec fn dec_floor(value: int, amount: int) -> int {
    if value <= amount {
        0
    } else {
        value - amount
    }
}

/// A stat raised by `amount`, stopping at 100 (one-sided saturation).
pub open spec fn inc_cap(value: int, amount: int) -> int {
    if value + amount >= 100 {
        100
    } else {
        value + amount
    }
}

/// The number of whole 8-hour periods between the stored timestamp and `now`;
/// none when the timestamp is not in the past.
pub open spec fn decay_intervals(last_updated: int, now: int) -> int {
    if now >= last_updated {
        ((now - last_updated) / 3600) / 8
    } else {
        0
    }
}

/// The pet as it stands after decaying from its stored timestamp to `now`:
/// per elapsed 8-hour interval, hunger falls by 3, happiness and cleanliness
/// by 2 (each stopping at 0) and potty_level rises by 2 (stopping at 100).
/// When at least one interval passed, the timestamp advances to `now`.
pub open spec fn decayed(p: Pet, now: int) -> Pet {
    let n = decay_intervals(p.last_updated as int, now);
    if n > 0 {
        Pet {
            hunger: dec_floor(p.hunger as int, 3 * n) as u8,
            happiness: dec_floor(p.happiness as int, 2 * n) as u8,
            cleanliness: dec_floor(p.cleanliness as int, 2 * n) as u8,
            potty_level: inc_cap(p.potty_level as int, 2 * n) as u8,
            last_updated: now as i64,
            ..p
        }
    } else {
        p
    }
}

/// Applies stat decay for each whole 8-hour interval elapsed since the pet's
/// `last_updated` timestamp, then advances the timestamp to `now` if any
/// interval passed at all.
pub fn apply_decay(pet: &mut Pet, now: i64)
    requires
        old(pet).wf(),
        -TS_BOUND <= now <= TS_BOUND,
    ensures
        *final(pet) == decayed(*old(pet), now as int),
        final(pet).wf(),
{
    let ghost p0: Pet = *pet;
    if now >= pet.last_updated {
        let elapsed: u64 = (now - pet.last_updated) as u64;
        let intervals: u64 = (elapsed / 3600) / 8;
        assert(intervals as int == decay_intervals(p0.last_updated as int, now as int));
        if intervals > 0 {
            let mut i: u64 = 0;
            while i < intervals
                invariant
                    i <= intervals,
                    pet.hunger as int == dec_floor(p0.hunger as int, 3 * i),
                    pet.happiness as int == dec_floor(p0.happiness as int, 2 * i),
                    pet.cleanliness as int == dec_floor(p0.cleanliness as int, 2 * i),
                    pet.potty_level as int == inc_cap(p0.potty_level as int, 2 * i),
                    pet.name == p0.name,
                    pet.species == p0.species,
                    pet.energy == p0.energy,
                    pet.xp == p0.xp,
                    pet.level == p0.level,
                    pet.last_updated == p0.last_updated,
                    p0.wf(),
                decreases intervals - i,
            {
                pet.hunger = if pet.hunger >= 3 {
                    pet.hunger - 3
                } else {
                    0
                };
                pet.happiness = if pet.happiness >= 2 {
                    pet.happiness - 2
                } else {
                    0
                };
                pet.cleanliness = if pet.cleanliness >= 2 {
                    pet.cleanliness - 2
                } else {
                    0
                };
                pet.potty_level = if pet.potty_level <= 98 {
                    pet.potty_level + 2
                } else {
                    100
                };
                i = i + 1;
            }
            pet.last_updated = now;
        }
    }
}

/// Decay is idempotent at a fixed instant: once a pet has decayed to `now`,
/// decaying it to the same `now` again changes nothing. This is what makes
/// re-running a load harmless once the decayed record has been persisted.
pub proof fn lemma_decay_idempotent(p: Pet, now: int)
    requires
        p.wf(),
        -TS_BOUND <= now <= TS_BOUND,
    ensures
        decayed(decayed(p, now), now) == decayed(p, now),
{
    let n = decay_intervals(p.last_updated as int, now);
    if n > 0 {
        assert(decayed(p, now).last_updated == now);
        assert(decay_intervals(now, now) == 0);
    }
}

/// What the durable store held when a load began: nothing, an unreadable
/// record, or a parsed pet.
#[derive(Debug)]
pub enum StoredRecord {
    Missing,
    Corrupt,
    Valid(Pet),
}

/// What a load produced: the pet to hand to the caller, and whether the
/// stored record must be replaced at once (the recovery-from-corruption
/// policy).
#[derive(Debug)]
pub struct LoadedPet {
    pub pet: Pet,
    pub persist_replacement: bool,
}

/// Turns what the durable store held into the pet a caller works with.
///
/// A missing record yields a fresh placeholder without persisting it; an
/// unreadable record yields a fresh placeholder that must be persisted at
/// once; a parsed record is returned with decay applied (the caller makes
/// decay durable only by saving).
pub fn load_pet(stored: StoredRecord, now: i64) -> (r: LoadedPet)
    requires
        -TS_BOUND <= now <= TS_BOUND,
        stored matches StoredRecord::Valid(p) ==> p.wf(),
    ensures
        r.pet.wf(),
        stored matches StoredRecord::Missing ==> {
            &&& r.pet.spec_is_placeholder()
            &&& r.pet.species@ == "unknown"@
            &&& r.pet.hunger == 80 && r.pet.happiness == 80 && r.pet.energy == 80
            &&& r.pet.cleanliness == 80 && r.pet.potty_level == 0
            &&& r.pet.xp == 0 && r.pet.level == 1
            &&& r.pet.last_updated == now
            &&& !r.persist_replacement
        },
        stored matches StoredRecord::Corrupt ==> {
            &&& r.pet.spec_is_placeholder()
            &&& r.pet.species@ == "unknown"@
            &&& r.pet.hunger == 80 && r.pet.happiness == 80 && r.pet.energy == 80
            &&& r.pet.cleanliness == 80 && r.pet.potty_level == 0
            &&& r.pet.xp == 0 && r.pet.level == 1
            &&& r.pet.last_updated == now
            &&& r.persist_replacement
        },
        stored matches StoredRecord::Valid(p) ==> {
            &&& r.pet == decayed(p, now as int)
            &&& !r.persist_replacement
        },
{
    match stored {
        StoredRecord::Missing => LoadedPet {
            pet: Pet::new_at(String::from_str("Pet"), String::from_str("unknown"), now),
            persist_replacement: false,
        },
        StoredRecord::Corrupt => LoadedPet {
            pet: Pet::new_at(String::from_str("Pet"), String::from_str("unknown"), now),
            persist_replacement: true,
        },
        StoredRecord::Valid(mut p) => {
            apply_decay(&mut p, now);
            LoadedPet { pet: p, persist_replacement: false }
        },
    }
}

/// The record as it is written to the durable store: a copy of the given pet
/// stamped with a fresh timestamp. The caller's in-memory pet is untouched.
pub fn save_pet(pet: &Pet, now: i64) -> (r: Pet)
    requires
        pet.wf(),
        -TS_BOUND <= now <= TS_BOUND,
    ensures
        r == (Pet { last_updated: now, ..*pet }),
        r.wf(),
{
    Pet {
        name: pet.name.clone(),
        species: pet.species.clone(),
        hunger: pet.hunger,
        happiness: pet.happiness,
        energy: pet.energy,
        xp: pet.xp,
        level: pet.level,
        cleanliness: pet.cleanliness,
        potty_level: pet.potty_level,
        last_updated: now,
    }
}

/// The location of the pet record inside the given home directory.
pub fn get_pet_file_path(home: &str) -> (r: String)
    ensures
        r@ == home@ + "/.termipet/pet.json"@,
{
    let mut p: String = home.to_owned();
    p.append("/.termipet/pet.json");
    p
}

} // verus!
