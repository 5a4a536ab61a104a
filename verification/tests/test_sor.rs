//! Tests of smart order routing.

use polar_bear_rig_hft::sor::best_route;
use polar_bear_rig_hft::sor::router::{
    fallback_route, query_orca, query_raydium, query_serum, route_cost, select_best, Route,
};

const ONE_SOL: u64 = 1_000_000_000;

fn route(venue: &str, price: u64, fee_bps: u16) -> Route {
    Route {
        venue: venue.into(),
        effective_price: price,
        fee_bps,
        price_impact_bps: 2,
        latency_ms: 10,
    }
}

#[test]
fn test_cost_ordering() {
    // Lower fee_bps should rank higher in cost comparison
    let r1 = Route {
        venue: "A".into(),
        effective_price: 143_500_000,
        fee_bps: 20,
        price_impact_bps: 2,
        latency_ms: 10,
    };
    let r2 = Route {
        venue: "B".into(),
        effective_price: 143_500_000,
        fee_bps: 30,
        price_impact_bps: 2,
        latency_ms: 10,
    };
    assert!(route_cost(&r1) < route_cost(&r2));
}

#[test]
fn test_route_cost_formula() {
    let r = route("A", 143_520_000, 25);
    assert_eq!(route_cost(&r), 143_520_000u128 * 10_025);
    let big = route("B", u64::MAX, u16::MAX);
    assert_eq!(route_cost(&big), u64::MAX as u128 * (10_000 + u16::MAX as u128));
}

#[test]
fn test_venue_quotes() {
    let r = query_raydium("SOL/USDC", ONE_SOL);
    assert_eq!((r.venue.as_str(), r.effective_price, r.fee_bps, r.price_impact_bps), ("Raydium", 143_520_000, 25, 3));
    let o = query_orca("SOL/USDC", ONE_SOL);
    assert_eq!((o.venue.as_str(), o.effective_price, o.fee_bps, o.price_impact_bps), ("Orca", 143_480_000, 30, 2));
    let s = query_serum("SOL/USDC", ONE_SOL);
    assert_eq!((s.venue.as_str(), s.effective_price, s.fee_bps, s.price_impact_bps), ("Serum", 143_610_000, 20, 5));
    let f = fallback_route("SOL/USDC");
    assert_eq!((f.venue.as_str(), f.effective_price, f.fee_bps, f.price_impact_bps), ("Raydium-fallback", 143_500_000, 25, 3));
}

#[test]
fn test_best_route_picks_lowest_cost_venue() {
    let best = best_route(
        Some(query_raydium("SOL/USDC", ONE_SOL)),
        Some(query_orca("SOL/USDC", ONE_SOL)),
        Some(query_serum("SOL/USDC", ONE_SOL)),
        "SOL/USDC",
        15,
    );
    assert!(["Raydium", "Orca", "Serum"].contains(&best.venue.as_str()));
    assert_eq!(best.venue, "Raydium");
    assert!(best.effective_price > 0);
    assert!(best.fee_bps > 0);
    assert_eq!(best.latency_ms, 15);
}

#[test]
fn test_best_route_without_raydium() {
    let best = best_route(
        None,
        Some(query_orca("SOL/USDC", ONE_SOL)),
        Some(query_serum("SOL/USDC", ONE_SOL)),
        "SOL/USDC",
        9,
    );
    assert_eq!(best.venue, "Serum");
    assert_eq!(best.latency_ms, 9);
}

#[test]
fn test_best_route_falls_back_when_no_venue_answers() {
    let best = best_route(None, None, None, "SOL/USDC", 3);
    assert_eq!(best.venue, "Raydium-fallback");
    assert_eq!(best.effective_price, 143_500_000);
    assert_eq!(best.fee_bps, 25);
    assert_eq!(best.latency_ms, 3);
}

#[test]
fn test_select_best_keeps_first_of_ties() {
    let cands = vec![route("A", 100, 50), route("B", 99, 60), route("C", 100, 50)];
    // costs: A = 100·10050 = 1_005_000, B = 99·10060 = 995_940, C = A
    let best = select_best(cands).unwrap();
    assert_eq!(best.venue, "B");
    let ties = vec![route("A", 100, 50), route("C", 100, 50)];
    assert_eq!(select_best(ties).unwrap().venue, "A");
    assert!(select_best(Vec::new()).is_none());
}
