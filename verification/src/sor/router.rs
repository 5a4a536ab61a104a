//! Smart Order Routing: compare Raydium, Orca and Serum, select the best
//! venue.
//!
//! Prices are fixed-point: micro-units (10⁻⁶) of the quote token per whole
//! base token; fees and price impact are in basis points.
use vstd::prelude::*;

verus! {

/// A quote of one venue for a trade.
#[derive(Debug, Clone)]
pub struct Route {
    pub venue: String,
    /// Price in micro-units of the quote token per whole base token.
    pub effective_price: u64,
    pub fee_bps: u16,
    /// Expected price impact in basis points.
    pub price_impact_bps: u32,
    /// Time the route comparison took, in milliseconds.
    pub latency_ms: u128,
}

/// Cost-adjusted price of a route, scaled by 10 000:
/// `price × (10_000 + fee_bps)`.
pub open spec fn cost(r: Route) -> int {
    r.effective_price * (10_000 + r.fee_bps)
}

/// `r` is a route with the given fields and no latency recorded.
pub open spec fn is_quote(r: Route, venue: Seq<char>, price: u64, fee_bps: u16, impact_bps: u32) -> bool {
    &&& r.venue@ == venue
    &&& r.effective_price == price
    &&& r.fee_bps == fee_bps
    &&& r.price_impact_bps == impact_bps
    &&& r.latency_ms == 0
}

/// The cost-adjusted price of a route, scaled by 10 000.
pub fn route_cost(r: &Route) -> (c: u128)
    ensures
        c == cost(*r),
{
    let p = r.effective_price as u128;
    let f = 10_000u128 + r.fee_bps as u128;
    assert(p * f <= u128::MAX) by (nonlinear_arith)
        requires
            p <= u64::MAX,
            f <= 10_000 + u16::MAX,
    ;
    p * f
}

fn quote(venue: &str, price: u64, fee_bps: u16, impact_bps: u32) -> (r: Route)
    ensures
        is_quote(r, venue@, price, fee_bps, impact_bps),
{
    Route {
        venue: String::from_str(venue),
        effective_price: price,
        fee_bps,
        price_impact_bps: impact_bps,
        latency_ms: 0,
    }
}

/// Raydium's quote: 143.52 per token, 25 bps fee, 0.03 % impact.
pub fn query_raydium(pair: &str, amount: u64) -> (r: Route)
    ensures
        is_quote(r, "Raydium"@, 143_520_000, 25, 3),
{
    quote("Raydium", 143_520_000, 25, 3)
}

/// Orca's quote: 143.48 per token, 30 bps fee, 0.02 % impact.
pub fn query_orca(pair: &str, amount: u64) -> (r: Route)
    ensures
        is_quote(r, "Orca"@, 143_480_000, 30, 2),
{
    quote("Orca", 143_480_000, 30, 2)
}

/// Serum's quote: 143.61 per token, 20 bps fee, 0.05 % impact.
pub fn query_serum(pair: &str, amount: u64) -> (r: Route)
    ensures
        is_quote(r, "Serum"@, 143_610_000, 20, 5),
{
    quote("Serum", 143_610_000, 20, 5)
}

/// The route used when no venue answers: 143.50 per token, 25 bps fee,
/// 0.03 % impact.
pub fn fallback_route(pair: &str) -> (r: Route)
    ensures
        is_quote(r, "Raydium-fallback"@, 143_500_000, 25, 3),
{
    quote("Raydium-fallback", 143_500_000, 25, 3)
}

/// `cands[i]` is the first candidate of lowest cost.
pub open spec fn is_best_at(cands: Seq<Route>, i: int) -> bool {
    &&& 0 <= i < cands.len()
    &&& forall|j: int| 0 <= j < cands.len() ==> cost(cands[i]) <= cost(#[trigger] cands[j])
    &&& forall|j: int| 0 <= j < i ==> cost(cands[i]) < cost(#[trigger] cands[j])
}

/// The first of the candidates with the lowest cost, or `None` when there
/// is no candidate.
pub fn select_best(cands: Vec<Route>) -> (r: Option<Route>)
    ensures
        cands@.len() == 0 <==> r is None,
        r matches Some(b) ==> exists|i: int| is_best_at(cands@, i) && b == cands@[i],
{
    let n = cands.len();
    if n == 0 {
        return None;
    }
    let mut best_i: usize = 0;
    let mut best_cost = route_cost(&cands[0]);
    let mut i: usize = 1;
    while i < n
        invariant
            n == cands@.len(),
            1 <= i <= n,
            best_i < i,
            best_cost == cost(cands@[best_i as int]),
            forall|j: int| 0 <= j < i ==> best_cost <= cost(#[trigger] cands@[j]),
            forall|j: int| 0 <= j < best_i ==> best_cost < cost(#[trigger] cands@[j]),
        decreases n - i,
    {
        let c = route_cost(&cands[i]);
        if c < best_cost {
            best_i = i;
            best_cost = c;
        }
        i = i + 1;
    }
    let ghost old_cands = cands@;
    let mut cands = cands;
    let b = cands.remove(best_i);
    assert(is_best_at(old_cands, best_i as int));
    Some(b)
}

/// The candidate routes: the answers of the venues that answered, in the
/// order Raydium, Orca, Serum.
pub open spec fn candidates(raydium: Option<Route>, orca: Option<Route>, serum: Option<Route>) -> Seq<Route> {
    option_seq(raydium) + option_seq(orca) + option_seq(serum)
}

/// The answer of one venue as a sequence of at most one route.
pub open spec fn option_seq(o: Option<Route>) -> Seq<Route> {
    match o {
        Some(r) => seq![r],
        None => Seq::empty(),
    }
}

/// The best route among the venues' answers (`None` for a venue that did
/// not answer), with the measured comparison latency recorded. When no venue
/// answered, the fallback route is returned, so routing never blocks.
pub fn best_route(
    raydium: Option<Route>,
    orca: Option<Route>,
    serum: Option<Route>,
    pair: &str,
    latency_ms: u128,
) -> (r: Route)
    ensures
        r.latency_ms == latency_ms,
        candidates(raydium, orca, serum).len() == 0 ==> is_quote(
            Route { latency_ms: 0, ..r },
            "Raydium-fallback"@,
            143_500_000,
            25,
            3,
        ),
        candidates(raydium, orca, serum).len() > 0 ==> exists|i: int|
            is_best_at(candidates(raydium, orca, serum), i) && r == (Route {
                latency_ms,
                ..candidates(raydium, orca, serum)[i]
            }),
        cheapest_answer(raydium, orca, serum, latency_ms, r),
{
    let ghost cs = candidates(raydium, orca, serum);
    let mut cands: Vec<Route> = Vec::new();
    if let Some(r) = raydium {
        cands.push(r);
    }
    if let Some(r) = orca {
        cands.push(r);
    }
    if let Some(r) = serum {
        cands.push(r);
    }
    assert(cands@ =~= cs);
    let mut best = match select_best(cands) {
        Some(b) => b,
        None => fallback_route(pair),
    };
    best.latency_ms = latency_ms;
    proof {
        lemma_best_route_is_cheapest_answer(raydium, orca, serum, latency_ms, best);
    }
    best
}

/// `r` is cheaper than or as cheap as the answer `o` of a venue, when that
/// venue answered: `r.price × (10_000 + r.fee) ≤ x.price × (10_000 + x.fee)`.
pub open spec fn no_dearer_than(r: Route, o: Option<Route>) -> bool {
    o matches Some(x) ==> r.effective_price * (10_000 + r.fee_bps) <= x.effective_price * (
    10_000 + x.fee_bps)
}

/// `r` is the answer `o` of a venue that answered, with the latency set.
pub open spec fn is_answer(r: Route, o: Option<Route>, latency_ms: u128) -> bool {
    o matches Some(x) && r == (Route { latency_ms, ..x })
}

/// The routing law over the three venues' answers: the chosen route is one
/// of the answers (with the measured latency) and costs no more than any
/// answer; when no venue answered it is the fallback quote (143.50, 25 bps,
/// 0.03 %).
pub open spec fn cheapest_answer(
    raydium: Option<Route>,
    orca: Option<Route>,
    serum: Option<Route>,
    latency_ms: u128,
    r: Route,
) -> bool {
    &&& no_dearer_than(r, raydium)
    &&& no_dearer_than(r, orca)
    &&& no_dearer_than(r, serum)
    &&& (raydium is Some || orca is Some || serum is Some) ==> (is_answer(r, raydium, latency_ms)
        || is_answer(r, orca, latency_ms) || is_answer(r, serum, latency_ms))
    &&& (raydium is None && orca is None && serum is None) ==> {
        &&& r.venue@ == "Raydium-fallback"@
        &&& r.effective_price == 143_500_000
        &&& r.fee_bps == 25
        &&& r.price_impact_bps == 3
        &&& r.latency_ms == latency_ms
    }
}

/// Smart order routing picks the cheapest answer: if the route is the first
/// lowest-cost candidate among the venues that answered (or the fallback
/// when none did), then every venue that answered, whichever it is, was a
/// candidate: the route costs no more than its answer, and the route is one
/// of the answers. In particular, when a single venue answers, its route is
/// chosen.
pub proof fn lemma_best_route_is_cheapest_answer(
    raydium: Option<Route>,
    orca: Option<Route>,
    serum: Option<Route>,
    latency_ms: u128,
    r: Route,
)
    requires
        r.latency_ms == latency_ms,
        candidates(raydium, orca, serum).len() == 0 ==> is_quote(
            Route { latency_ms: 0, ..r },
            "Raydium-fallback"@,
            143_500_000,
            25,
            3,
        ),
        candidates(raydium, orca, serum).len() > 0 ==> exists|i: int|
            is_best_at(candidates(raydium, orca, serum), i) && r == (Route {
                latency_ms,
                ..candidates(raydium, orca, serum)[i]
            }),
    ensures
        cheapest_answer(raydium, orca, serum, latency_ms, r),
{
    let cs = candidates(raydium, orca, serum);
    let a = option_seq(raydium);
    let b = option_seq(orca);
    let c = option_seq(serum);
    assert(cs == a + b + c);
    if raydium is Some {
        assert(cs[0] == raydium->Some_0);
    }
    if orca is Some {
        assert(cs[a.len() as int] == orca->Some_0);
    }
    if serum is Some {
        assert(cs[(a.len() + b.len()) as int] == serum->Some_0);
    }
    if cs.len() > 0 {
        let i = choose|i: int|
            is_best_at(cs, i) && r == (Route { latency_ms, ..cs[i] });
        assert(cost(r) == cost(cs[i]));
        if raydium is Some {
            assert(cost(cs[i]) <= cost(cs[0]));
        }
        if orca is Some {
            assert(cost(cs[i]) <= cost(cs[a.len() as int]));
        }
        if serum is Some {
            assert(cost(cs[i]) <= cost(cs[(a.len() + b.len()) as int]));
        }
        if i < a.len() {
            assert(cs[i] == raydium->Some_0);
        } else if i < a.len() + b.len() {
            assert(cs[i] == b[i - a.len()]);
            assert(cs[i] == orca->Some_0);
        } else {
            assert(cs[i] == c[i - a.len() - b.len()]);
            assert(cs[i] == serum->Some_0);
        }
    } else {
        assert(a.len() == 0 && b.len() == 0 && c.len() == 0);
    }
}

/// At equal price, the route with the lower fee has the lower cost.
pub proof fn lemma_lower_fee_lower_cost(a: Route, b: Route)
    requires
        a.effective_price == b.effective_price,
        a.effective_price > 0,
        a.fee_bps < b.fee_bps,
    ensures
        cost(a) < cost(b),
{
    assert(a.effective_price * (10_000 + a.fee_bps) < a.effective_price * (10_000 + b.fee_bps))
        by (nonlinear_arith)
        requires
            a.effective_price > 0,
            a.fee_bps < b.fee_bps,
    ;
}

/// At equal fee, the route with the lower price has the lower cost.
pub proof fn lemma_lower_price_lower_cost(a: Route, b: Route)
    requires
        a.fee_bps == b.fee_bps,
        a.effective_price < b.effective_price,
    ensures
        cost(a) < cost(b),
{
    assert(a.effective_price * (10_000 + a.fee_bps) < b.effective_price * (10_000 + a.fee_bps))
        by (nonlinear_arith)
        requires
            a.effective_price < b.effective_price,
            a.fee_bps >= 0,
    ;
}

} // verus!
