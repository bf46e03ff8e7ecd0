use coin_forecast::coin_flip::CoinFlip;

#[test]
fn it_works() {
}

#[test]
fn outcomes_are_distinct() {
    assert_ne!(CoinFlip::Heads, CoinFlip::Tails);
}
