use tennis_scores::tmatch::{resolve_outcome, side_of, MatchParseError, Outcome, Side};

#[test]
fn winner_decides_whatever_the_server() {
    for server in [None, Some(Side::One), Some(Side::Two)] {
        assert_eq!(resolve_outcome(Some(Side::One), server), Ok(Outcome::P1Won));
        assert_eq!(resolve_outcome(Some(Side::Two), server), Ok(Outcome::P2Won));
    }
}

#[test]
fn server_decides_without_a_winner() {
    assert_eq!(resolve_outcome(None, Some(Side::One)), Ok(Outcome::P1Serving));
    assert_eq!(resolve_outcome(None, Some(Side::Two)), Ok(Outcome::P2Serving));
}

#[test]
fn neither_winner_nor_server_is_an_error() {
    assert_eq!(resolve_outcome(None, None), Err(MatchParseError::StateParseError));
}

#[test]
fn side_is_found_by_name() {
    assert_eq!(side_of("Alice", "Alice", "Bob"), Some(Side::One));
    assert_eq!(side_of("Bob", "Alice", "Bob"), Some(Side::Two));
    assert_eq!(side_of("Carol", "Alice", "Bob"), None);
    assert_eq!(side_of("alice", "Alice", "Bob"), None);
    assert_eq!(side_of("", "Alice", "Bob"), None);
}

#[test]
fn shared_name_is_player_one() {
    assert_eq!(side_of("Alice", "Alice", "Alice"), Some(Side::One));
    assert_eq!(side_of("", "", "Bob"), Some(Side::One));
}
