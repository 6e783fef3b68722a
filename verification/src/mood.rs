use vstd::prelude::*;
use vstd::string::StringExecFns;

use crate::pet::Pet;

verus! {

/// The categorical mood a pet can be in.
#[derive(Debug, Clone, PartialEq, Eq, Structural)]
pub enum Mood {
    Happy,
    Hungry,
    Sleepy,
    Bored,
    Grumpy,
    Embarrassed,
}

/// The mood a pet's stats yield, as an ordered priority chain: the first
/// matching rule wins, and a pet that matches no rule is Happy.
pub open spec fn spec_mood(pet: Pet) -> Mood {
    if pet.energy < 20 && pet.happiness < 40 {
        Mood::Grumpy
    } else if pet.energy < 30 {
        Mood::Sleepy
    } else if pet.hunger < 40 {
        Mood::Hungry
    } else if pet.potty_level > 80 {
        Mood::Embarrassed
    } else if pet.happiness < 50 && pet.energy > 50 {
        Mood::Bored
    } else {
        Mood::Happy
    }
}

/// Calculates the pet's mood based on its stats.
/// Priority order (first match wins):
/// 1. Grumpy: energy < 20 and happiness < 40
/// 2. Sleepy: energy < 30
/// 3. Hungry: hunger < 40
/// 4. Embarrassed: potty_level > 80
/// 5. Bored: happiness < 50 and energy > 50
/// 6. Happy: hunger >= 70 and happiness >= 80, and also when no rule matched
pub fn calculate_mood(pet: &Pet) -> (r: Mood)
    ensures
        r == spec_mood(*pet),
{
    if pet.energy < 20 && pet.happiness < 40 {
        return Mood::Grumpy;
    }
    if pet.energy < 30 {
        return Mood::Sleepy;
    }
    if pet.hunger < 40 {
        return Mood::Hungry;
    }
    if pet.potty_level > 80 {
        return Mood::Embarrassed;
    }
    if pet.happiness < 50 && pet.energy > 50 {
        return Mood::Bored;
    }
    if pet.hunger >= 70 && pet.happiness >= 80 {
        return Mood::Happy;
    }
    Mood::Happy
}

/// The fixed message template for each mood, always naming the pet.
pub open spec fn spec_mood_message(pet: Pet, mood: Mood) -> Seq<char> {
    match mood {
        Mood::Happy => "🐾 "@ + pet.name@ + " wags their tail!"@,
        Mood::Hungry => "🍖 "@ + pet.name@ + " looks at you hopefully."@,
        Mood::Sleepy => "💤 "@ + pet.name@ + " curls up in a ball."@,
        Mood::Bored => "🎾 "@ + pet.name@ + " paws at your keyboard."@,
        Mood::Grumpy => "😠 "@ + pet.name@ + " ignores you."@,
        Mood::Embarrassed => "💩 "@ + pet.name@ + " looks guilty…"@,
    }
}

/// Returns a mood message with emoji based on the pet's current mood.
pub fn get_mood_message(pet: &Pet, mood: &Mood) -> (r: String)
    ensures
        r@ == spec_mood_message(*pet, *mood),
{
    let mut s: String;
    match mood {
        Mood::Happy => {
            s = String::from_str("🐾 ");
            s.append(pet.name.as_str());
            s.append(" wags their tail!");
        },
        Mood::Hungry => {
            s = String::from_str("🍖 ");
            s.append(pet.name.as_str());
            s.append(" looks at you hopefully.");
        },
        Mood::Sleepy => {
            s = String::from_str("💤 ");
            s.append(pet.name.as_str());
            s.append(" curls up in a ball.");
        },
        Mood::Bored => {
            s = String::from_str("🎾 ");
            s.append(pet.name.as_str());
            s.append(" paws at your keyboard.");
        },
        Mood::Grumpy => {
            s = String::from_str("😠 ");
            s.append(pet.name.as_str());
            s.append(" ignores you.");
        },
        Mood::Embarrassed => {
            s = String::from_str("💩 ");
            s.append(pet.name.as_str());
            s.append(" looks guilty…");
        },
    }
    s
}

} // verus!
