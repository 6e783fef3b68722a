use vstd::prelude::*;

use rand::Rng;

use crate::pet::Pet;
use crate::utils::{cap_stat, clamped};

verus! {

/// What feeding produced.
#[derive(Debug, Clone, PartialEq, Eq, Structural)]
pub enum FeedOutcome {
    NotAdopted,
    AlreadyFull,
    Fed,
}

/// The pet as it stands after a feed: hunger +20 and happiness +10 (both
/// capped at 100), unless no pet is adopted or hunger is already at 95 or
/// above, in which case nothing changes.
pub open spec fn feed_post(p: Pet) -> Pet {
    if p.spec_is_placeholder() || p.hunger >= 95 {
        p
    } else {
        Pet {
            hunger: clamped(p.hunger + 20, 0, 100) as u8,
            happiness: clamped(p.happiness + 10, 0, 100) as u8,
            ..p
        }
    }
}

/// Which branch a feed takes on the given pet.
pub open spec fn feed_outcome(p: Pet) -> FeedOutcome {
    if p.spec_is_placeholder() {
        FeedOutcome::NotAdopted
    } else if p.hunger >= 95 {
        FeedOutcome::AlreadyFull
    } else {
        FeedOutcome::Fed
    }
}

/// Feeds the pet, increasing hunger and happiness. A pet that is already
/// full (hunger at 95 or above) is left untouched.
pub fn feed_pet(pet: &mut Pet) -> (r: FeedOutcome)
    requires
        old(pet).wf(),
    ensures
        *final(pet) == feed_post(*old(pet)),
        r == feed_outcome(*old(pet)),
        final(pet).wf(),
{
    if pet.is_placeholder() {
        return FeedOutcome::NotAdopted;
    }
    if pet.hunger >= 95 {
        return FeedOutcome::AlreadyFull;
    }
    pet.hunger = cap_stat(pet.hunger as i32 + 20, 0, 100);
    pet.happiness = cap_stat(pet.happiness as i32 + 10, 0, 100);
    FeedOutcome::Fed
}

/// What playing produced.
#[derive(Debug, Clone, PartialEq, Eq, Structural)]
pub enum PlayOutcome {
    NotAdopted,
    TooTired,
    Played,
}

/// The pet as it stands after a play: happiness +15 (capped at 100) and
/// energy -10 (stopping at 0), unless no pet is adopted or energy is below
/// 10, in which case nothing changes.
pub open spec fn play_post(p: Pet) -> Pet {
    if p.spec_is_placeholder() || p.energy < 10 {
        p
    } else {
        Pet {
            happiness: clamped(p.happiness + 15, 0, 100) as u8,
            energy: clamped(p.energy - 10, 0, 100) as u8,
            ..p
        }
    }
}

/// Which branch a play takes on the given pet.
pub open spec fn play_outcome(p: Pet) -> PlayOutcome {
    if p.spec_is_placeholder() {
        PlayOutcome::NotAdopted
    } else if p.energy < 10 {
        PlayOutcome::TooTired
    } else {
        PlayOutcome::Played
    }
}

/// Plays with the pet, increasing happiness but decreasing energy. A pet
/// with energy below 10 is too tired and is left untouched.
pub fn play_pet(pet: &mut Pet) -> (r: PlayOutcome)
    requires
        old(pet).wf(),
    ensures
        *final(pet) == play_post(*old(pet)),
        r == play_outcome(*old(pet)),
        final(pet).wf(),
{
    if pet.is_placeholder() {
        return PlayOutcome::NotAdopted;
    }
    if pet.energy < 10 {
        return PlayOutcome::TooTired;
    }
    pet.happiness = cap_stat(pet.happiness as i32 + 15, 0, 100);
    pet.energy = cap_stat(pet.energy as i32 - 10, 0, 100);
    PlayOutcome::Played
}

/// What cleaning produced. The increase is applied either way; the outcome
/// only decides the message.
#[derive(Debug, Clone, PartialEq, Eq, Structural)]
pub enum CleanOutcome {
    NotAdopted,
    AlreadySpotless,
    Cleaned,
}

/// The pet as it stands after a clean: cleanliness +40 (capped at 100),
/// unless no pet is adopted.
pub open spec fn clean_post(p: Pet) -> Pet {
    if p.spec_is_placeholder() {
        p
    } else {
        Pet { cleanliness: clamped(p.cleanliness + 40, 0, 100) as u8, ..p }
    }
}

/// Which branch a clean takes on the given pet: a pet whose cleanliness was
/// already at 95 or above gets the "already spotless" message, but the
/// increase is applied all the same.
pub open spec fn clean_outcome(p: Pet) -> CleanOutcome {
    if p.spec_is_placeholder() {
        CleanOutcome::NotAdopted
    } else if p.cleanliness >= 95 {
        CleanOutcome::AlreadySpotless
    } else {
        CleanOutcome::Cleaned
    }
}

/// Cleans the pet, increasing cleanliness.
pub fn clean_pet(pet: &mut Pet) -> (r: CleanOutcome)
    requires
        old(pet).wf(),
    ensures
        *final(pet) == clean_post(*old(pet)),
        r == clean_outcome(*old(pet)),
        final(pet).wf(),
{
    if pet.is_placeholder() {
        return CleanOutcome::NotAdopted;
    }
    let already_spotless: bool = pet.cleanliness >= 95;
    pet.cleanliness = cap_stat(pet.cleanliness as i32 + 40, 0, 100);
    if already_spotless {
        CleanOutcome::AlreadySpotless
    } else {
        CleanOutcome::Cleaned
    }
}

/// What training produced.
#[derive(Debug, Clone, PartialEq, Eq, Structural)]
pub enum TrainOutcome {
    NotAdopted,
    TooTired,
    Trained { leveled_up: bool },
}

/// One level-up pass: 100 xp is traded for one level and +5 happiness
/// (capped at 100).
pub open spec fn level_up(p: Pet) -> Pet {
    Pet {
        xp: (p.xp - 100) as u8,
        level: (p.level + 1) as u32,
        happiness: clamped(p.happiness + 5, 0, 100) as u8,
        ..p
    }
}

/// The pet as it stands after a training session: energy -15 (stopping at 0)
/// and xp +20, with xp at 100 or above rolled into a level-up, unless no pet
/// is adopted or energy is below 10, in which case nothing changes.
pub open spec fn train_post(p: Pet) -> Pet {
    if p.spec_is_placeholder() || p.energy < 10 {
        p
    } else {
        let q = Pet {
            energy: clamped(p.energy - 15, 0, 100) as u8,
            xp: (p.xp + 20) as u8,
            ..p
        };
        if q.xp >= 100 {
            level_up(q)
        } else {
            q
        }
    }
}

/// Which branch a training session takes on the given pet.
pub open spec fn train_outcome(p: Pet) -> TrainOutcome {
    if p.spec_is_placeholder() {
        TrainOutcome::NotAdopted
    } else if p.energy < 10 {
        TrainOutcome::TooTired
    } else {
        TrainOutcome::Trained { leveled_up: p.xp + 20 >= 100 }
    }
}

/// Trains the pet: costs 15 energy, grants 20 xp, and rolls xp overflow into
/// level-ups (each worth +5 happiness). A pet with energy below 10 is too
/// tired and is left untouched.
pub fn train_pet(pet: &mut Pet) -> (r: TrainOutcome)
    requires
        old(pet).wf(),
        old(pet).level < u32::MAX,
    ensures
        *final(pet) == train_post(*old(pet)),
        r == train_outcome(*old(pet)),
        final(pet).wf(),
{
    if pet.is_placeholder() {
        return TrainOutcome::NotAdopted;
    }
    if pet.energy < 10 {
        return TrainOutcome::TooTired;
    }
    pet.energy = cap_stat(pet.energy as i32 - 15, 0, 100);
    pet.xp = pet.xp + 20;
    let ghost q: Pet = *pet;
    let mut leveled_up: bool = false;
    while pet.xp >= 100
        invariant
            q.xp <= 119,
            q.level < u32::MAX,
            *pet == q || *pet == level_up(q),
            q.xp < 100 ==> *pet == q,
            leveled_up == (*pet != q),
        decreases pet.xp,
    {
        pet.xp = pet.xp - 100;
        pet.level = pet.level + 1;
        pet.happiness = cap_stat(pet.happiness as i32 + 5, 0, 100);
        leveled_up = true;
        proof {
            assert(*pet == level_up(q));
            assert(*pet != q);
        }
    }
    TrainOutcome::Trained { leveled_up }
}

/// What a walk produced. The flags record whether the pet had an accident
/// (pre-walk potty_level above 80) and whether the random relief occurred.
#[derive(Debug, Clone, PartialEq, Eq, Structural)]
pub enum WalkOutcome {
    NotAdopted,
    Walked { had_accident: bool, relieved: bool },
}

/// The pet as it stands after a walk, given whether the random potty relief
/// occurred: an accident first (pre-walk potty_level above 80 costs 30
/// cleanliness and 15 happiness), then energy +15 always, then potty_level
/// -50 if relieved. No pet adopted means nothing changes.
pub open spec fn walk_post(p: Pet, relieved: bool) -> Pet {
    if p.spec_is_placeholder() {
        p
    } else {
        let q = if p.potty_level > 80 {
            Pet {
                cleanliness: clamped(p.cleanliness - 30, 0, 100) as u8,
                happiness: clamped(p.happiness - 15, 0, 100) as u8,
                ..p
            }
        } else {
            p
        };
        let q2 = Pet { energy: clamped(q.energy + 15, 0, 100) as u8, ..q };
        if relieved {
            Pet { potty_level: clamped(q2.potty_level - 50, 0, 100) as u8, ..q2 }
        } else {
            q2
        }
    }
}

/// Which branch a walk takes on the given pet.
pub open spec fn walk_outcome(p: Pet, relieved: bool) -> WalkOutcome {
    if p.spec_is_placeholder() {
        WalkOutcome::NotAdopted
    } else {
        WalkOutcome::Walked { had_accident: p.potty_level > 80, relieved }
    }
}

/// Applies the walk rules for a known relief draw: the accident check (on
/// the pre-walk potty_level), the energy gain, and the potty reduction when
/// relieved.
pub fn walk_step(pet: &mut Pet, relieved: bool) -> (r: WalkOutcome)
    requires
        old(pet).wf(),
    ensures
        *final(pet) == walk_post(*old(pet), relieved),
        r == walk_outcome(*old(pet), relieved),
        final(pet).wf(),
{
    if pet.is_placeholder() {
        return WalkOutcome::NotAdopted;
    }
    let had_accident: bool = pet.potty_level > 80;
    if had_accident {
        pet.cleanliness = cap_stat(pet.cleanliness as i32 - 30, 0, 100);
        pet.happiness = cap_stat(pet.happiness as i32 - 15, 0, 100);
    }
    pet.energy = cap_stat(pet.energy as i32 + 15, 0, 100);
    if relieved {
        pet.potty_level = cap_stat(pet.potty_level as i32 - 50, 0, 100);
    }
    WalkOutcome::Walked { had_accident, relieved }
}

/// Walks the pet, restoring energy and managing potty needs. The potty
/// relief happens with probability 4 in 5; the outcome's `relieved` flag
/// reports the draw that was made.
pub fn walk_pet(pet: &mut Pet) -> (r: WalkOutcome)
    requires
        old(pet).wf(),
    ensures
        old(pet).spec_is_placeholder() ==> r == WalkOutcome::NotAdopted && *final(pet) == *old(
            pet,
        ),
        !old(pet).spec_is_placeholder() ==> (r matches WalkOutcome::Walked { relieved, .. } && {
            &&& *final(pet) == walk_post(*old(pet), relieved)
            &&& r == walk_outcome(*old(pet), relieved)
        }),
        final(pet).wf(),
{
    let relieved: bool = random_ratio(4, 5);
    walk_step(pet, relieved)
}

/// What a potty break produced.
#[derive(Debug, Clone, PartialEq, Eq, Structural)]
pub enum PottyOutcome {
    NotAdopted,
    Relieved,
    Accident,
}

/// The pet as it stands after a potty break: an accident first (pre-break
/// potty_level above 80 costs 30 cleanliness and 15 happiness), then
/// potty_level reset to 0 unconditionally, and happiness +5 only when no
/// accident occurred. No pet adopted means nothing changes.
pub open spec fn potty_post(p: Pet) -> Pet {
    if p.spec_is_placeholder() {
        p
    } else if p.potty_level > 80 {
        Pet {
            cleanliness: clamped(p.cleanliness - 30, 0, 100) as u8,
            happiness: clamped(p.happiness - 15, 0, 100) as u8,
            potty_level: 0,
            ..p
        }
    } else {
        Pet {
            potty_level: 0,
            happiness: clamped(p.happiness + 5, 0, 100) as u8,
            ..p
        }
    }
}

/// Which branch a potty break takes on the given pet.
pub open spec fn potty_outcome(p: Pet) -> PottyOutcome {
    if p.spec_is_placeholder() {
        PottyOutcome::NotAdopted
    } else if p.potty_level > 80 {
        PottyOutcome::Accident
    } else {
        PottyOutcome::Relieved
    }
}

/// Helps the pet go potty, resetting its potty level and handling accidents.
pub fn potty_pet(pet: &mut Pet) -> (r: PottyOutcome)
    requires
        old(pet).wf(),
    ensures
        *final(pet) == potty_post(*old(pet)),
        r == potty_outcome(*old(pet)),
        final(pet).wf(),
{
    if pet.is_placeholder() {
        return PottyOutcome::NotAdopted;
    }
    let had_accident: bool = pet.potty_level > 80;
    if had_accident {
        pet.cleanliness = cap_stat(pet.cleanliness as i32 - 30, 0, 100);
        pet.happiness = cap_stat(pet.happiness as i32 - 15, 0, 100);
    }
    pet.potty_level = 0;
    if !had_accident {
        pet.happiness = cap_stat(pet.happiness as i32 + 5, 0, 100);
    }
    if had_accident {
        PottyOutcome::Accident
    } else {
        PottyOutcome::Relieved
    }
}

/// What an adoption produced.
#[derive(Debug)]
pub enum AdoptOutcome {
    Cancelled,
    Adopted(Pet),
}

/// Adopts a new pet with the given name and species. Overwriting an existing
/// pet that is not the placeholder requires the caller to have confirmed;
/// declining leaves the old record untouched.
pub fn adopt_pet(existing: Option<&Pet>, confirmed: bool, name: String, species: String) -> (r:
    AdoptOutcome)
    ensures
        (existing matches Some(p) && !p.spec_is_placeholder() && !confirmed) <==> r
            matches AdoptOutcome::Cancelled,
        r matches AdoptOutcome::Adopted(q) ==> {
            &&& q.name == name
            &&& q.species == species
            &&& q.hunger == 80 && q.happiness == 80 && q.energy == 80
            &&& q.cleanliness == 80 && q.potty_level == 0
            &&& q.xp == 0 && q.level == 1
            &&& q.wf()
        },
{
    let needs_confirmation: bool = match existing {
        Some(p) => !p.is_placeholder(),
        None => false,
    };
    if needs_confirmation && !confirmed {
        return AdoptOutcome::Cancelled;
    }
    AdoptOutcome::Adopted(Pet::new(name, species))
}

/// What a reset produced.
#[derive(Debug, Clone, PartialEq, Eq, Structural)]
pub enum ResetOutcome {
    NoPet,
    Cancelled,
    Deleted,
}

/// Decides a reset: a missing record is reported distinctly, declining the
/// confirmation is a no-op, and only a confirmed reset deletes the record.
pub fn reset_pet(record_exists: bool, confirmed: bool) -> (r: ResetOutcome)
    ensures
        r == (if !record_exists {
            ResetOutcome::NoPet
        } else if confirmed {
            ResetOutcome::Deleted
        } else {
            ResetOutcome::Cancelled
        }),
{
    if !record_exists {
        ResetOutcome::NoPet
    } else if confirmed {
        ResetOutcome::Deleted
    } else {
        ResetOutcome::Cancelled
    }
}

/// The colour a stat is rendered in.
#[derive(Debug, Clone, PartialEq, Eq, Structural)]
pub enum StatColor {
    Green,
    Yellow,
    Red,
}

/// Determines the colour for a stat based on its value:
/// green at 70 and above, yellow from 40 to 69, red below 40.
pub fn get_stat_color(value: u8) -> (r: StatColor)
    ensures
        r == (if value >= 70 {
            StatColor::Green
        } else if value >= 40 {
            StatColor::Yellow
        } else {
            StatColor::Red
        }),
{
    if value >= 70 {
        StatColor::Green
    } else if value >= 40 {
        StatColor::Yellow
    } else {
        StatColor::Red
    }
}

/// Relies on `rand::Rng::gen_ratio` on `rand::thread_rng`: returns true with
/// probability `num/denom`. Nothing is promised of any single draw.
/// `gen_ratio` panics when the denominator is zero or smaller than the
/// numerator, so those arguments are excluded.
#[verifier::external_body]
fn random_ratio(num: u32, denom: u32) -> bool
    requires
        0 < denom,
        num <= denom,
{
    let mut rng = rand::thread_rng();
    rng.gen_ratio(num, denom)
}

} // verus!
