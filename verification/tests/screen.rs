use opencharting::screen::{view, Screen};

#[test]
fn idle_screen_offers_start() {
    assert_eq!(
        view(false, "BTC/USD", ""),
        Screen {
            title: "OpenCharting".to_string(),
            heading: "Kraken BTC/USD".to_string(),
            price: "$".to_string(),
            start_enabled: true,
            stop_enabled: false,
        }
    );
}

#[test]
fn running_screen_offers_stop_and_shows_the_price() {
    assert_eq!(
        view(true, "ETH/EUR", "43260.1"),
        Screen {
            title: "OpenCharting".to_string(),
            heading: "Kraken ETH/EUR".to_string(),
            price: "$43260.1".to_string(),
            start_enabled: false,
            stop_enabled: true,
        }
    );
}
