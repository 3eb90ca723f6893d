use artillery_core::player::{Player, ANON};
use artillery_core::score_card::ScoreCard;

#[test]
fn it_works() {
    let test = ScoreCard::new("testMan".to_string(), "testMap".to_string(), 0);

    assert_eq!(test.name().as_str(), "testMan");
}

#[test]
fn players_may_stay_anonymous() {
    let _named = Player::new(Some("testMan"));
    let _anon = Player::new(None);
    assert_eq!(ANON, "The great unknown; anon");
}
