use spread_scanner::catalog::{get_trading_pairs, RoundRobin};
use spread_scanner::fixed::{parse_decimal, SCALE};
use spread_scanner::hub::{Hub, Receive};
use spread_scanner::market::{
    classify, cost_model, reference_quote, select_quote, spread_pct, venue_quote, Config, Status,
    LOW_PROFIT_FLOOR,
};
use spread_scanner::scanner::{evaluate, Action, BroadcastMessage, Event, Phase, Scanner};
use spread_scanner::store::{AggregateStore, Opportunity, Stats};

fn units(whole: u64) -> u64 {
    whole * SCALE
}

#[test]
fn parse_whole_and_fraction() {
    assert_eq!(parse_decimal(b"3500.00"), Some(350_000_000_000));
    assert_eq!(parse_decimal(b"3500"), Some(350_000_000_000));
    assert_eq!(parse_decimal(b"0.0009"), Some(90_000));
    assert_eq!(parse_decimal(b"1."), Some(100_000_000));
}

#[test]
fn parse_truncates_past_eight_digits() {
    assert_eq!(parse_decimal(b"0.000000012345"), Some(1));
    assert_eq!(parse_decimal(b"3490.123456789012345678"), Some(349_012_345_678));
}

#[test]
fn parse_rejects_malformed() {
    assert_eq!(parse_decimal(b""), None);
    assert_eq!(parse_decimal(b".5"), None);
    assert_eq!(parse_decimal(b"abc"), None);
    assert_eq!(parse_decimal(b"1e5"), None);
    assert_eq!(parse_decimal(b"-1.0"), None);
    assert_eq!(parse_decimal(b"1.2.3"), None);
    assert_eq!(parse_decimal(b"12 "), None);
}

#[test]
fn parse_largest_value() {
    assert_eq!(parse_decimal(b"184467440737.09551615"), Some(u64::MAX));
    assert_eq!(parse_decimal(b"184467440737.09551616"), None);
    assert_eq!(parse_decimal(b"184467440738"), None);
    assert_eq!(parse_decimal(b"99999999999999999999999"), None);
}

#[test]
fn orientation_prefers_nearer_quote() {
    let r = units(100);
    assert_eq!(select_quote(r, Some(units(99)), Some(1_000_000)), Some(units(99)));
    assert_eq!(select_quote(r, Some(10_050_000_000), Some(10_000)), Some(10_050_000_000));
    assert_eq!(select_quote(r, Some(10_000), Some(units(99))), Some(units(99)));
}

#[test]
fn orientation_tie_prefers_first() {
    let r = units(100);
    assert_eq!(select_quote(r, Some(units(99)), Some(units(101))), Some(units(99)));
    assert_eq!(select_quote(r, Some(units(101)), Some(units(99))), Some(units(101)));
}

#[test]
fn orientation_skips_unusable_quotes() {
    let r = units(100);
    assert_eq!(select_quote(r, Some(0), Some(units(1000))), Some(units(1000)));
    assert_eq!(select_quote(r, None, Some(5)), Some(5));
    assert_eq!(select_quote(r, Some(7), None), Some(7));
    assert_eq!(select_quote(r, Some(0), Some(0)), None);
    assert_eq!(select_quote(r, None, None), None);
}

#[test]
fn venue_quote_from_text() {
    let r = units(3500);
    assert_eq!(venue_quote(b"3490.5", b"0.000286", r), Some(349_050_000_000));
    assert_eq!(venue_quote(b"0.000286", b"3490.5", r), Some(349_050_000_000));
    assert_eq!(venue_quote(b"garbage", b"3490.5", r), Some(349_050_000_000));
    assert_eq!(venue_quote(b"garbage", b"0", r), None);
}

#[test]
fn reference_quote_from_text() {
    assert_eq!(reference_quote(b"3500.12000000"), Some(350_012_000_000));
    assert_eq!(reference_quote(b"0.00000000"), None);
    assert_eq!(reference_quote(b"n/a"), None);
}

#[test]
fn spread_of_scenario_prices() {
    assert_eq!(spread_pct(units(3500), units(3490)), 28_653_295);
    assert_eq!(spread_pct(units(3490), units(3500)), 28_571_428);
    assert_eq!(spread_pct(units(151), units(100)), 51 * SCALE as u128);
    assert_eq!(spread_pct(units(100), units(100)), 0);
}

#[test]
fn cost_model_scenario() {
    let c = cost_model(units(10_000), 28_653_295, 90_000, 300_000, 15_000_000);
    assert_eq!(c.gross, 2_865_329_500);
    assert_eq!(c.loan_cost, 900_000_000);
    assert_eq!(c.venue_cost, 6_000_000_000);
    assert_eq!(c.fixed_cost, 15_000_000);
    assert_eq!(c.net, -4_049_670_500);
}

#[test]
fn cost_model_is_repeatable_and_adds_up() {
    for &(capital, spread) in &[(0u64, 0u64), (units(10_000), units(2)), (u64::MAX, u64::MAX), (1, 3)] {
        let a = cost_model(capital, spread, 90_000, 300_000, 15_000_000);
        let b = cost_model(capital, spread, 90_000, 300_000, 15_000_000);
        assert_eq!(a, b);
        assert_eq!(a.net, a.gross - a.loan_cost - a.venue_cost - a.fixed_cost);
    }
    let big = cost_model(u64::MAX, u64::MAX, u64::MAX, u64::MAX, u64::MAX);
    assert_eq!(big.net, big.gross - big.loan_cost - big.venue_cost - big.fixed_cost);
}

#[test]
fn cost_model_profitable_spread() {
    // 2% spread on 10000: gross 200, loan 9, venue 60, fixed 0.15.
    let c = cost_model(units(10_000), units(2), 90_000, 300_000, 15_000_000);
    assert_eq!(c.gross, units(200) as i128);
    assert_eq!(c.net, 13_085_000_000);
}

#[test]
fn classify_boundaries() {
    let t: i128 = 1_000_000;
    assert_eq!(classify(t + 1, t), Status::Executable);
    assert_eq!(classify(t, t), Status::LowProfit);
    assert_eq!(classify(0, t), Status::LowProfit);
    assert_eq!(classify(LOW_PROFIT_FLOOR + 1, t), Status::LowProfit);
    assert_eq!(classify(LOW_PROFIT_FLOOR, t), Status::Unprofitable);
    assert_eq!(classify(-4_049_670_500, t), Status::Unprofitable);
    assert_eq!(classify(i128::MIN, t), Status::Unprofitable);
    assert_eq!(classify(i128::MAX, t), Status::Executable);
}

#[test]
fn status_labels() {
    assert_eq!(Status::Executable.label(), "executed");
    assert_eq!(Status::LowProfit.label(), "missed_small");
    assert_eq!(Status::Unprofitable.label(), "unprofitable");
}

#[test]
fn default_config() {
    let c = Config::new();
    assert_eq!(c.usdc_balance, units(10_000));
    assert_eq!(c.min_net_profit, 1_000_000);
    assert_eq!(c.gas_cost_usd, 15_000_000);
    assert_eq!(c.flash_loan_fee_pct, 90_000);
    assert_eq!(c.dex_fee_pct, 300_000);
    assert_eq!(c.max_spread_pct, units(50));
    assert_eq!(c.scan_interval_ms, 300);
    assert_eq!(c.server_port, 3000);
}

#[test]
fn end_to_end_scenario() {
    let config = Config::new();
    let symbol = String::from("ETH");
    let o = evaluate(&config, &symbol, units(3500), units(3490), 1_700_000_000_123).unwrap();
    assert_eq!(o.spread_pct, 28_653_295);
    assert_eq!(o.gross_profit, 2_865_329_500);
    assert_eq!(o.cost_flash_loan, 900_000_000);
    assert_eq!(o.cost_dex_fees, 6_000_000_000);
    assert_eq!(o.cost_gas, 15_000_000);
    assert_eq!(o.net_profit, -4_049_670_500);
    assert_eq!(o.status, Status::Unprofitable);
    assert_eq!(o.id, "opp_ETH_1700000000123");
    assert_eq!(o.pair, "ETH/USDC");
    assert_eq!(o.capital_used, units(10_000));
    assert_eq!(o.required_capital, Some(units(10_000)));
}

#[test]
fn sanity_ceiling_discards() {
    let mut config = Config::new();
    let symbol = String::from("PEPE");
    assert!(evaluate(&config, &symbol, units(151), units(100), 1).is_none());
    assert!(evaluate(&config, &symbol, units(150), units(100), 1).is_none());
    assert!(evaluate(&config, &symbol, 14_999_999_999, units(100), 1).is_some());
    // Even with costs that make any trade profitable.
    config.min_net_profit = i64::MIN;
    assert!(evaluate(&config, &symbol, units(151), units(100), 1).is_none());
}

#[test]
fn catalog_order() {
    let pairs = get_trading_pairs();
    assert_eq!(pairs.len(), 10);
    let symbols: Vec<&str> = pairs.iter().map(|p| p.symbol.as_str()).collect();
    assert_eq!(symbols, vec!["ETH", "BTC", "LINK", "UNI", "MATIC", "AAVE", "CRV", "PEPE", "SHIB", "ARB"]);
    assert_eq!(pairs[0].reference_ticker, "ETHUSDT");
    assert_eq!(pairs[0].venue_pool_id, "0x88e6a0c2ddd26feeb64f039a2c41296fcb3f5640");
    assert_eq!(pairs[9].reference_ticker, "ARBUSDT");
}

#[test]
fn round_robin_is_fair() {
    let mut rr = RoundRobin::new(10);
    let mut counts = [0u32; 10];
    for _ in 0..30 {
        counts[rr.next()] += 1;
    }
    assert!(counts.iter().all(|&c| c == 3));
    assert_eq!(rr.current(), 0);
    let mut rr = RoundRobin::new(3);
    assert_eq!((rr.next(), rr.next(), rr.next(), rr.next()), (0, 1, 2, 0));
}

#[test]
fn stats_totals_match_records() {
    let mut s = Stats::new();
    let records: [(i128, Status); 6] = [
        (500, Status::Executable),
        (-100, Status::LowProfit),
        (-900_000_000, Status::Unprofitable),
        (2_000, Status::Executable),
        (-50, Status::LowProfit),
        (0, Status::LowProfit),
    ];
    for &(net, status) in &records {
        assert!(s.can_record(net));
        s.record(net, status);
    }
    assert_eq!(s.total_opportunities, 6);
    assert_eq!(s.total_executed, 2);
    assert_eq!(s.profitable_after_fees, 2);
    assert_eq!(s.missed_too_small, 3);
    assert_eq!(s.total_unprofitable, 1);
    assert_eq!(s.total_profit_usd, 2_500);
    assert_eq!(s.total_missed_profit, 150);
    assert_eq!(s.biggest_opportunity_usd, 2_000);
    assert_eq!(s.missed_insufficient_balance, 0);
}

#[test]
fn stats_refuse_overflow() {
    let mut s = Stats::new();
    s.record(i128::MAX, Status::Executable);
    assert!(!s.can_record(1));
    assert!(s.can_record(0));
    let fresh = Stats::new();
    assert!(!fresh.can_record(i128::MIN));
    assert!(fresh.can_record(i128::MIN + 1));
}

#[test]
fn near_miss_adds_absolute_net_profit() {
    let mut s = Scanner::new(Config::new());
    assert_eq!(s.step(Event::Woke), Action::FetchReference(0));
    assert_eq!(s.step(Event::Reference(Some(10_068_000_000))), Action::FetchVenue(0, 10_068_000_000));
    assert_eq!(s.step(Event::Venue(Some(units(100)), 7)), Action::Sleep(300));
    let o = &s.recent()[0];
    assert_eq!(o.net_profit, -115_000_000);
    assert_eq!(o.status, Status::LowProfit);
    let snap = s.snapshot();
    assert_eq!(snap.missed_too_small, 1);
    assert_eq!(snap.total_missed_profit, 115_000_000);
    assert_eq!(snap.total_executed, 0);
    assert_eq!(snap.profitable_after_fees, 0);
    assert_eq!(snap.total_profit_usd, 0);
}

#[test]
fn net_at_threshold_is_not_executed() {
    let mut s = Stats::new();
    let t: i128 = Config::new().min_net_profit as i128;
    let status = classify(t, t);
    s.record(t, status);
    assert_eq!(status, Status::LowProfit);
    assert_eq!(s.total_executed, 0);
    assert_eq!(s.profitable_after_fees, 0);
    assert_eq!(s.total_missed_profit, t);
    let floor = classify(LOW_PROFIT_FLOOR, t);
    s.record(LOW_PROFIT_FLOOR, floor);
    assert_eq!(floor, Status::Unprofitable);
    assert_eq!(s.missed_too_small, 1);
    assert_eq!(s.total_missed_profit, t);
}

fn sample(id: &str, net: i128, status: Status) -> Opportunity {
    Opportunity {
        id: id.to_string(),
        timestamp: 0,
        pair: "ETH/USDC".to_string(),
        reference_price: 1,
        venue_price: 1,
        spread_pct: 0,
        capital_used: 0,
        gross_profit: 0,
        cost_flash_loan: 0,
        cost_gas: 0,
        cost_dex_fees: 0,
        net_profit: net,
        status,
        required_capital: None,
    }
}

#[test]
fn store_keeps_latest_and_counts_all() {
    let mut store = AggregateStore::new(2);
    store.record(sample("a", 10, Status::LowProfit));
    store.record(sample("b", 2_000_000, Status::Executable));
    store.record(sample("c", -5, Status::LowProfit));
    let ids: Vec<&str> = store.recent().iter().map(|o| o.id.as_str()).collect();
    assert_eq!(ids, vec!["b", "c"]);
    let snap = store.snapshot();
    assert_eq!(snap.total_opportunities, 3);
    assert_eq!(snap.total_missed_profit, 15);
    assert_eq!(snap.total_profit_usd, 2_000_000);
}

#[test]
fn broadcast_reaches_present_subscribers_only() {
    let mut hub: Hub<u32> = Hub::new(4);
    let a = hub.subscribe();
    let b = hub.subscribe();
    hub.publish(7);
    let c = hub.subscribe();
    for id in [a, b] {
        match hub.recv(id) {
            Receive::Message(seq) => assert_eq!(*hub.message(seq), 7),
            other => panic!("expected a message, got {:?}", other),
        }
        assert_eq!(hub.recv(id), Receive::Empty);
    }
    assert_eq!(hub.recv(c), Receive::Empty);
    hub.publish(8);
    match hub.recv(c) {
        Receive::Message(seq) => assert_eq!(*hub.message(seq), 8),
        other => panic!("expected a message, got {:?}", other),
    }
}

#[test]
fn broadcast_drops_oldest_for_slow_subscriber() {
    let mut hub: Hub<u32> = Hub::new(2);
    let a = hub.subscribe();
    for m in 1..=5u32 {
        hub.publish(m);
    }
    assert_eq!(hub.recv(a), Receive::Lagged(3));
    let mut got = Vec::new();
    while let Receive::Message(seq) = hub.recv(a) {
        got.push(*hub.message(seq));
    }
    assert_eq!(got, vec![4, 5]);
    hub.unsubscribe(a);
    assert_eq!(hub.recv(a), Receive::Closed);
    assert_eq!(hub.recv(99), Receive::Closed);
}

#[test]
fn scanner_cycle_publishes_observation_then_stats() {
    let mut s = Scanner::new(Config::new());
    let sub = s.subscribe();
    assert_eq!(s.pending_action(), Action::Sleep(300));
    assert_eq!(s.step(Event::Woke), Action::FetchReference(0));
    assert_eq!(s.target(0).reference_ticker, "ETHUSDT");
    assert_eq!(s.step(Event::Reference(Some(units(3500)))), Action::FetchVenue(0, units(3500)));
    assert_eq!(s.step(Event::Venue(Some(units(3490)), 42)), Action::Sleep(300));
    let snap = s.snapshot();
    assert_eq!(snap.total_opportunities, 1);
    assert_eq!(snap.total_unprofitable, 1);
    match s.receive(sub) {
        Ok(Some(BroadcastMessage::Opportunity(o))) => {
            assert_eq!(o.id, "opp_ETH_42");
            assert_eq!(o.net_profit, -4_049_670_500);
        }
        other => panic!("expected an observation, got {:?}", other),
    }
    match s.receive(sub) {
        Ok(Some(BroadcastMessage::Stats(u))) => {
            assert_eq!(u.stats, snap);
            assert_eq!(u.eth_price, units(3500));
            assert_eq!(u.venue_eth_price, units(3490));
            assert_eq!(u.active_pools, 10);
        }
        other => panic!("expected statistics, got {:?}", other),
    }
    assert!(matches!(s.receive(sub), Ok(None)));
    assert_eq!(s.recent().len(), 1);
}

#[test]
fn scanner_skips_unavailable_and_noise() {
    let mut s = Scanner::new(Config::new());
    let sub = s.subscribe();
    assert_eq!(s.step(Event::Woke), Action::FetchReference(0));
    assert_eq!(s.step(Event::Reference(None)), Action::Sleep(300));
    assert_eq!(s.step(Event::Woke), Action::FetchReference(1));
    assert_eq!(s.step(Event::Reference(Some(units(60_000)))), Action::FetchVenue(1, units(60_000)));
    assert_eq!(s.step(Event::Venue(None, 1)), Action::Sleep(300));
    assert_eq!(s.step(Event::Woke), Action::FetchReference(2));
    assert_eq!(s.step(Event::Reference(Some(units(151)))), Action::FetchVenue(2, units(151)));
    assert_eq!(s.step(Event::Venue(Some(units(100)), 1)), Action::Sleep(300));
    assert_eq!(s.snapshot().total_opportunities, 0);
    assert!(matches!(s.receive(sub), Ok(None)));
    assert_eq!(s.phase(), Phase::Idle);
}

#[test]
fn scanner_ignores_unexpected_events() {
    let mut s = Scanner::new(Config::new());
    assert_eq!(s.step(Event::Reference(Some(5))), Action::Sleep(300));
    assert_eq!(s.step(Event::Woke), Action::FetchReference(0));
    assert_eq!(s.step(Event::Woke), Action::FetchReference(0));
    assert_eq!(s.step(Event::Venue(Some(5), 1)), Action::FetchReference(0));
}

#[test]
fn scanner_visits_each_asset_equally() {
    let mut s = Scanner::new(Config::new());
    let mut counts = [0u32; 10];
    for _ in 0..20 {
        match s.step(Event::Woke) {
            Action::FetchReference(a) => counts[a] += 1,
            other => panic!("unexpected {:?}", other),
        }
        assert_eq!(s.step(Event::Reference(None)), Action::Sleep(300));
    }
    assert!(counts.iter().all(|&c| c == 2));
}
