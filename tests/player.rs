use matchroom::player::Player;
use matchroom::player_name::PlayerName;

#[test]
fn test_create_player_success() {
    let player_name = PlayerName::new("Player1".to_string()).unwrap();
    let player = Player::new(player_name);

    assert_eq!(player.player_name.value(), "Player1");
}

#[test]
fn test_create_player_name_too_long() {
    let long_name = "A".repeat(31);
    let player_name = PlayerName::new(long_name);

    assert!(player_name.is_err());
    assert_eq!(
        player_name.unwrap_err(),
        "Player name exceeds the maximum length of 30 characters.".to_string()
    );
}

#[test]
fn test_create_player_name_non_alphanumeric() {
    let invalid_name = "Player@123".to_string();
    let player_name = PlayerName::new(invalid_name);

    assert!(player_name.is_err());
    assert_eq!(
        player_name.unwrap_err(),
        "Player name must contain only alphanumeric characters.".to_string()
    );
}

#[test]
fn test_create_player_name_empty() {
    let empty_name = "".to_string();
    let player_name = PlayerName::new(empty_name.clone());

    assert!(player_name.is_ok());
    let player = Player::new(player_name.unwrap());
    assert_eq!(player.player_name.value(), empty_name);
}
