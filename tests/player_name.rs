use matchroom::player_name::PlayerName;
use matchroom::validation::ValidationError;

#[test]
fn test_valid_name() {
    let name = "ValidName123".to_string();
    let player_name = PlayerName::new(name.clone());
    assert!(player_name.is_ok());
    assert_eq!(player_name.unwrap().value(), name);
}

#[test]
fn test_name_too_long() {
    let name = "a".repeat(31);
    let player_name = PlayerName::new(name);
    assert!(player_name.is_err());
    assert_eq!(
        player_name.unwrap_err(),
        "Player name exceeds the maximum length of 30 characters.".to_string()
    );
}

#[test]
fn test_name_contains_non_alphanumeric() {
    let name = "Invalid@Name!".to_string();
    let player_name = PlayerName::new(name);
    assert!(player_name.is_err());
    assert_eq!(
        player_name.unwrap_err(),
        "Player name must contain only alphanumeric characters.".to_string()
    );
}

#[test]
fn test_empty_name() {
    let name = "".to_string();
    let player_name = PlayerName::new(name.clone());
    assert!(player_name.is_ok());
    assert_eq!(player_name.unwrap().value(), name);
}

#[test]
fn player_name_test_display_trait() {
    let name = "DisplayName".to_string();
    let player_name = PlayerName::new(name.clone()).unwrap();
    assert_eq!(player_name.to_string(), name);
}

#[test]
fn create_reports_invalid_characters() {
    let r = PlayerName::create("Player@123".to_string());
    assert!(matches!(r, Err(ValidationError::InvalidCharacters)));
}

#[test]
fn create_reports_too_long_for_thirty_one_chars() {
    let r = PlayerName::create("A".repeat(31));
    assert!(matches!(r, Err(ValidationError::TooLong)));
}

#[test]
fn create_accepts_exactly_thirty_chars() {
    let name = "Z9".repeat(15);
    let p = PlayerName::create(name.clone()).unwrap();
    assert_eq!(p.value(), name);
}

#[test]
fn too_long_is_judged_before_characters() {
    let r = PlayerName::create("@".repeat(31));
    assert!(matches!(r, Err(ValidationError::TooLong)));
}

#[test]
fn length_counts_characters_not_bytes() {
    // thirty two-byte letters: sixty bytes, thirty characters
    let name = "é".repeat(30);
    let p = PlayerName::create(name.clone()).unwrap();
    assert_eq!(p.value(), name);
    let r = PlayerName::create("é".repeat(31));
    assert!(matches!(r, Err(ValidationError::TooLong)));
}

#[test]
fn alphanumeric_follows_unicode() {
    assert!(PlayerName::create("Ünïcode日本語123".to_string()).is_ok());
    assert!(matches!(
        PlayerName::create("with space".to_string()),
        Err(ValidationError::InvalidCharacters)
    ));
    assert!(matches!(
        PlayerName::create("under_score".to_string()),
        Err(ValidationError::InvalidCharacters)
    ));
}

#[test]
fn message_names_each_reason() {
    assert_eq!(
        PlayerName::message(ValidationError::TooLong),
        "Player name exceeds the maximum length of 30 characters."
    );
    assert_eq!(
        PlayerName::message(ValidationError::InvalidCharacters),
        "Player name must contain only alphanumeric characters."
    );
}

#[test]
fn player_name_clone_keeps_value() {
    let p = PlayerName::new("Abc1".to_string()).unwrap();
    assert_eq!(p.clone().value(), "Abc1");
}
