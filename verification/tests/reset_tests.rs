use termipet::commands::ResetOutcome;
use termipet::reset_pet;

#[test]
fn test_reset_confirms_and_deletes_file() {
    // Given: a stored record exists
    // When: the user confirms the reset
    let outcome = reset_pet(true, true);

    // Then: the record is to be deleted
    assert_eq!(outcome, ResetOutcome::Deleted);
}

#[test]
fn test_reset_cancels_without_confirmation() {
    // Given: a stored record exists
    // When: the user declines the reset
    let outcome = reset_pet(true, false);

    // Then: the record stays untouched
    assert_eq!(outcome, ResetOutcome::Cancelled);
}

#[test]
fn test_reset_handles_invalid_input() {
    // Given: a function that validates input
    let valid_y = "y".trim().to_lowercase();
    let valid_n = "n".trim().to_lowercase();
    let invalid = "maybe".trim().to_lowercase();

    // When: checking various inputs
    // Then: should recognize valid and invalid inputs
    assert!(valid_y == "y" || valid_y == "n");
    assert!(valid_n == "y" || valid_n == "n");
    assert!(invalid != "y" && invalid != "n");
}

#[test]
fn test_reset_handles_missing_file() {
    // Given: no stored record exists
    // When: attempting a reset
    let outcome = reset_pet(false, true);

    // Then: the missing record is reported distinctly
    assert_eq!(outcome, ResetOutcome::NoPet);
}
