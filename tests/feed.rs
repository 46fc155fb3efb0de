use metrics_pipeline::channel::{send_all, Outbox};
use metrics_pipeline::feed::{feed_url, finance_feed_from_lowercase, finance_feed_name};
use metrics_pipeline::finance::quote_metric;
use metrics_pipeline::metric::{Metric, MetricValue, Ratio};

#[test]
fn exchange_symbol_becomes_hyphenated_lower_case() {
    assert_eq!(finance_feed_name("COINBASE:BTC-USD"), "finance.coinbase-btc-usd");
    assert_eq!(finance_feed_name("KRAKEN:USDTZUSD"), "finance.kraken-usdtzusd");
    assert_eq!(finance_feed_name("DIA"), "finance.dia");
}

#[test]
fn lowered_symbol_keeps_its_letters() {
    assert_eq!(finance_feed_from_lowercase("bitfinex:ustusd"), "finance.bitfinex-ustusd");
    assert_eq!(finance_feed_from_lowercase("a::b"), "finance.a--b");
    assert_eq!(finance_feed_from_lowercase(""), "finance.");
}

#[test]
fn publish_address() {
    assert_eq!(
        feed_url("https://io.adafruit.com/api/v2", "someone", "mbr.lux"),
        "https://io.adafruit.com/api/v2/someone/feeds/mbr.lux/data"
    );
}

#[test]
fn zero_quote_is_skipped() {
    assert!(quote_metric("DIA", 0).is_none());
    let m = quote_metric("COINBASE:BTC-USD", 30_123_450_000).unwrap();
    assert_eq!(m.name, "finance.coinbase-btc-usd");
    assert_eq!(m.value, MetricValue::Exact(Ratio::new(30_123_450_000, 1_000_000)));
}

#[test]
fn send_all_delivers_in_order() {
    let (tx, rx) = async_channel::bounded(2);
    let mut out = Outbox::new(tx);
    let metrics = vec![
        Metric::new("a.one", MetricValue::Exact(Ratio::whole(1))),
        Metric::new("a.two", MetricValue::Exact(Ratio::whole(2))),
    ];
    assert!(send_all(&mut out, metrics).is_empty());
    assert_eq!(rx.try_recv().unwrap().name, "a.one");
    assert_eq!(rx.try_recv().unwrap().name, "a.two");
}

#[test]
fn send_all_on_closed_channel_returns_everything() {
    let (tx, rx) = async_channel::bounded(4);
    let mut out = Outbox::new(tx);
    drop(rx);
    let metrics = vec![
        Metric::new("a.one", MetricValue::Exact(Ratio::whole(1))),
        Metric::new("a.two", MetricValue::Exact(Ratio::whole(2))),
    ];
    let rest = send_all(&mut out, metrics);
    assert_eq!(rest.len(), 2);
    assert_eq!(rest[0].name, "a.one");
    assert_eq!(rest[1].name, "a.two");
}
