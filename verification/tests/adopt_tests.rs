use termipet::commands::AdoptOutcome;
use termipet::{adopt_pet, Pet};

#[test]
fn test_adopt_creates_new_pet() {
    // Given: no existing pet
    // When: adopting a new pet
    let outcome = adopt_pet(None, false, "Kylo".to_string(), "dog".to_string());

    // Then: a new pet should be created with correct data
    match outcome {
        AdoptOutcome::Adopted(pet) => {
            assert_eq!(pet.name, "Kylo");
            assert_eq!(pet.species, "dog");
            assert_eq!(pet.hunger, 80);
            assert_eq!(pet.level, 1);
        }
        AdoptOutcome::Cancelled => panic!("adoption should not be cancelled"),
    }
}

#[test]
fn test_adopt_detects_existing_pet() {
    // Given: a pet already exists
    let existing = Pet::new("Buddy".to_string(), "cat".to_string());

    // Then: the existing pet should be detected as a real pet
    assert_eq!(existing.name, "Buddy");
    assert!(existing.name != "Pet"); // Not the default placeholder
    assert!(!existing.is_placeholder());
}

#[test]
fn test_adopt_overwrites_after_confirmation() {
    // Given: a pet already exists
    let old_pet = Pet::new("OldPet".to_string(), "dog".to_string());

    // When: the user confirms the overwrite
    let outcome = adopt_pet(Some(&old_pet), true, "Luna".to_string(), "cat".to_string());

    // Then: the new pet replaces the old one, stat defaults included
    match outcome {
        AdoptOutcome::Adopted(pet) => {
            assert_eq!(pet.name, "Luna");
            assert_eq!(pet.species, "cat");
            assert_eq!(pet.hunger, 80);
            assert_eq!(pet.xp, 0);
        }
        AdoptOutcome::Cancelled => panic!("a confirmed adoption goes through"),
    }
}

#[test]
fn test_adopt_without_confirmation_is_cancelled() {
    // Given: a real pet already exists
    let old_pet = Pet::new("Buddy".to_string(), "cat".to_string());

    // When: adopting over it without confirmation
    let outcome = adopt_pet(Some(&old_pet), false, "Luna".to_string(), "cat".to_string());

    // Then: the adoption is cancelled and the old record stays untouched
    assert!(matches!(outcome, AdoptOutcome::Cancelled));
    assert_eq!(old_pet.name, "Buddy");
    assert_eq!(old_pet.species, "cat");
}

#[test]
fn test_adopt_over_placeholder_needs_no_confirmation() {
    // Given: only the placeholder record exists
    let placeholder = Pet::default();

    // When: adopting without confirmation
    let outcome = adopt_pet(Some(&placeholder), false, "Kylo".to_string(), "dog".to_string());

    // Then: the adoption goes through
    assert!(matches!(outcome, AdoptOutcome::Adopted(_)));
}

#[test]
fn test_adopt_message_format() {
    // Given: a pet name and species
    let name = "Kylo";
    let species = "dog";

    // When: formatting the welcome message
    let message = format!(
        "🐾 Welcome, {} the {}! Your adventure begins.",
        name, species
    );

    // Then: the message should be correctly formatted
    assert!(message.contains("Kylo"));
    assert!(message.contains("dog"));
    assert!(message.contains("🐾"));
    assert!(message.contains("Welcome"));
}
