use coinmax::api::coinbase_pro::{FetchError, Ticker};
use coinmax::presence::{
    presence_endpoint, status_for, Presence, PRESENCE_INTERVAL_SECS,
};

fn ok(price: &str) -> Result<Ticker, FetchError> {
    Ok(Ticker { price: price.to_string() })
}

fn failed() -> Result<Ticker, FetchError> {
    Err(FetchError::Transport("timed out".to_string()))
}

#[test]
fn status_text_shows_price() {
    assert_eq!(status_for("50000.12"), "BTC @ 50000.12 €");
}

#[test]
fn polls_btc_eur_every_ten_seconds() {
    assert_eq!(presence_endpoint(), "/products/BTC-EUR/ticker");
    assert_eq!(PRESENCE_INTERVAL_SECS, 10);
}

#[test]
fn three_successful_ticks_update_in_order() {
    let mut p = Presence::new();
    assert!(p.on_ready());
    let mut seen = Vec::new();
    for price in ["A", "B", "C"] {
        if let Some(s) = p.on_tick(&ok(price)) {
            seen.push(s);
        }
    }
    assert_eq!(seen, vec!["BTC @ A €", "BTC @ B €", "BTC @ C €"]);
    assert_eq!(p.status(), Some("BTC @ C €"));
}

#[test]
fn failed_tick_keeps_status_and_polling_goes_on() {
    let mut p = Presence::new();
    assert!(p.on_ready());
    assert_eq!(p.on_tick(&ok("A")), Some("BTC @ A €".to_string()));
    assert_eq!(p.on_tick(&failed()), None);
    assert_eq!(p.status(), Some("BTC @ A €"));
    assert!(p.is_polling());
    assert_eq!(p.on_tick(&ok("C")), Some("BTC @ C €".to_string()));
    assert_eq!(p.status(), Some("BTC @ C €"));
}

#[test]
fn second_ready_event_does_not_start_again() {
    let mut p = Presence::new();
    assert!(!p.is_polling());
    assert!(p.on_ready());
    assert!(!p.on_ready());
    assert!(p.is_polling());
}

#[test]
fn ticks_before_ready_change_nothing() {
    let mut p = Presence::new();
    assert_eq!(p.on_tick(&ok("A")), None);
    assert_eq!(p.status(), None);
}

#[test]
fn stop_ends_polling() {
    let mut p = Presence::new();
    assert!(p.on_ready());
    assert_eq!(p.on_tick(&ok("A")), Some("BTC @ A €".to_string()));
    p.stop();
    assert!(!p.is_polling());
    assert_eq!(p.on_tick(&ok("B")), None);
    assert_eq!(p.status(), Some("BTC @ A €"));
    assert!(!p.on_ready());
}
