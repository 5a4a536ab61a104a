//! Jupiter swap simulation (dry run).
//!
//! In dry-run mode no transaction is sent; the swap is computed:
//!
//! 1. `output_amount = input_amount × effective_price`;
//! 2. `fee_paid = input_amount × fee_bps / 10_000`;
//! 3. the signature is `SIM_` followed by 16 lowercase hexadecimal digits of
//!    a random nonce.
//!
//! Amounts are fixed-point and both products are exact: the input is in
//! lamports (10⁻⁹ of a token), the output in units of 10⁻¹⁵ of the quote
//! token (lamports × micro-units of price) and the fee in units of 10⁻¹³ of
//! the base token (lamports × basis points).
use vstd::prelude::*;

use crate::error::HftError;
use crate::sor::router::Route;

verus! {

/// Lamports in one whole base token.
pub const LAMPORTS_PER_SOL: u64 = 1_000_000_000;

/// Units of [`SwapResult::output_amount`] in one whole quote token.
pub const OUTPUT_UNITS_PER_TOKEN: u128 = 1_000_000_000_000_000;

/// Units of [`SwapResult::fee_paid`] in one whole base token.
pub const FEE_UNITS_PER_TOKEN: u128 = 10_000_000_000_000;

/// The result of a Jupiter swap (real or simulated).
#[derive(Debug, Clone)]
pub struct SwapResult {
    /// Transaction signature; prefixed with `SIM_` in dry-run mode.
    pub simulated_sig: String,
    /// Base-token amount sent into the swap, in lamports.
    pub input_amount: u64,
    /// Quote-token amount received, in units of 10⁻¹⁵ of a token.
    pub output_amount: u128,
    /// Fee paid in the input token, in units of 10⁻¹³ of a token.
    pub fee_paid: u128,
    /// `true` if this was a simulation.
    pub is_dry_run: bool,
}

/// Quote-token output, in units of 10⁻¹⁵ of a token, of swapping `amount`
/// lamports at `price` micro-units per whole token: `input × price`.
pub open spec fn swap_output(amount: u64, price: u64) -> int {
    amount * price
}

/// Fee, in units of 10⁻¹³ of a token, of `fee_bps` basis points on `amount`
/// lamports: `input × fee_bps / 10_000`.
pub open spec fn swap_fee(amount: u64, fee_bps: u16) -> int {
    amount * fee_bps
}

/// The lowercase hexadecimal digit of `d`, for `d < 16`.
pub open spec fn hex_char(d: int) -> char {
    seq!['0', '1', '2', '3', '4', '5', '6', '7', '8', '9', 'a', 'b', 'c', 'd', 'e', 'f'][d]
}

/// The `k` lowest hexadecimal digits of `n`, most significant first
/// (zero-padded).
pub open spec fn hex_digits(n: nat, k: nat) -> Seq<char>
    decreases k,
{
    if k == 0 {
        Seq::empty()
    } else {
        hex_digits(n / 16, (k - 1) as nat).push(hex_char((n % 16) as int))
    }
}

/// The simulated signature of a dry run with random nonce `nonce`.
pub open spec fn signature_of(nonce: u64) -> Seq<char> {
    "SIM_"@ + hex_digits(nonce as nat, 16)
}

/// A simulated signature is `SIM_` followed by 16 lowercase hexadecimal
/// digits.
pub proof fn lemma_signature_shape(nonce: u64)
    ensures
        signature_of(nonce).len() == 20,
        signature_of(nonce).take(4) == "SIM_"@,
        forall|i: int|
            #![trigger signature_of(nonce)[i]]
            4 <= i < 20 ==> exists|d: int| 0 <= d < 16 && signature_of(nonce)[i] == #[trigger] hex_char(d),
{
    reveal_strlit("SIM_");
    lemma_hex_digits_shape(nonce as nat, 16);
    let h = hex_digits(nonce as nat, 16);
    assert(signature_of(nonce).take(4) =~= "SIM_"@);
    assert forall|i: int| #![trigger signature_of(nonce)[i]] 4 <= i < 20 implies exists|d: int|
        0 <= d < 16 && signature_of(nonce)[i] == #[trigger] hex_char(d) by {
        assert(signature_of(nonce)[i] == h[i - 4]);
    }
}

proof fn lemma_hex_digits_shape(n: nat, k: nat)
    ensures
        hex_digits(n, k).len() == k,
        forall|i: int|
            #![trigger hex_digits(n, k)[i]]
            0 <= i < k ==> exists|d: int| 0 <= d < 16 && hex_digits(n, k)[i] == #[trigger] hex_char(d),
    decreases k,
{
    if k > 0 {
        lemma_hex_digits_shape(n / 16, (k - 1) as nat);
        let prev = hex_digits(n / 16, (k - 1) as nat);
        let d = (n % 16) as int;
        assert forall|i: int| #![trigger hex_digits(n, k)[i]] 0 <= i < k implies exists|e: int|
            0 <= e < 16 && hex_digits(n, k)[i] == #[trigger] hex_char(e) by {
            if i < k - 1 {
                assert(hex_digits(n, k)[i] == prev[i]);
            } else {
                assert(hex_digits(n, k)[i] == hex_char(d));
            }
        }
    }
}

/// `s` is the dry-run result of swapping `amount` lamports on `route`, with
/// signature nonce `nonce`.
pub open spec fn is_dry_run_swap(s: SwapResult, route: Route, amount: u64, nonce: u64) -> bool {
    &&& s.simulated_sig@ == signature_of(nonce)
    &&& s.input_amount == amount
    &&& s.output_amount == swap_output(amount, route.effective_price)
    &&& s.fee_paid == swap_fee(amount, route.fee_bps)
    &&& s.is_dry_run
}

/// For one amount, the fee of a dry run is proportional to the route's fee
/// in basis points: two routes' fees stand in the ratio of their `fee_bps`,
/// a cheaper route costs strictly less on any non-zero amount, and a
/// fee-free route charges nothing.
pub proof fn lemma_fee_follows_route_fee(
    s1: SwapResult,
    route1: Route,
    s2: SwapResult,
    route2: Route,
    amount: u64,
    nonce1: u64,
    nonce2: u64,
)
    requires
        is_dry_run_swap(s1, route1, amount, nonce1),
        is_dry_run_swap(s2, route2, amount, nonce2),
    ensures
        s1.fee_paid * route2.fee_bps == s2.fee_paid * route1.fee_bps,
        amount > 0 && route1.fee_bps < route2.fee_bps ==> s1.fee_paid < s2.fee_paid,
        route1.fee_bps == 0 ==> s1.fee_paid == 0,
        s1.fee_paid == s1.input_amount * route1.fee_bps,
{
    let a = amount as int;
    let f1 = route1.fee_bps as int;
    let f2 = route2.fee_bps as int;
    assert((a * f1) * f2 == (a * f2) * f1) by (nonlinear_arith);
    assert(a > 0 && f1 < f2 ==> a * f1 < a * f2) by (nonlinear_arith);
    assert(f1 == 0 ==> a * f1 == 0) by (nonlinear_arith);
}

/// For one amount, the output of a dry run is proportional to the route's
/// effective price: two routes' outputs stand in the ratio of their prices,
/// and a better-priced route returns strictly more on any non-zero amount.
pub proof fn lemma_output_follows_route_price(
    s1: SwapResult,
    route1: Route,
    s2: SwapResult,
    route2: Route,
    amount: u64,
    nonce1: u64,
    nonce2: u64,
)
    requires
        is_dry_run_swap(s1, route1, amount, nonce1),
        is_dry_run_swap(s2, route2, amount, nonce2),
    ensures
        s1.output_amount * route2.effective_price == s2.output_amount * route1.effective_price,
        amount > 0 && route1.effective_price < route2.effective_price ==> s1.output_amount
            < s2.output_amount,
        s1.output_amount == s1.input_amount * route1.effective_price,
{
    let a = amount as int;
    let p1 = route1.effective_price as int;
    let p2 = route2.effective_price as int;
    assert((a * p1) * p2 == (a * p2) * p1) by (nonlinear_arith);
    assert(a > 0 && p1 < p2 ==> a * p1 < a * p2) by (nonlinear_arith);
}

/// On one route, output and fee of a dry run scale with the amount swapped:
/// the ratio of two runs' outputs (and of their fees) is the ratio of their
/// input amounts.
pub proof fn lemma_swap_scales_with_amount(
    s1: SwapResult,
    s2: SwapResult,
    route: Route,
    amount1: u64,
    amount2: u64,
    nonce1: u64,
    nonce2: u64,
)
    requires
        is_dry_run_swap(s1, route, amount1, nonce1),
        is_dry_run_swap(s2, route, amount2, nonce2),
    ensures
        s1.output_amount * amount2 == s2.output_amount * amount1,
        s1.fee_paid * amount2 == s2.fee_paid * amount1,
{
    let a1 = amount1 as int;
    let a2 = amount2 as int;
    let p = route.effective_price as int;
    let f = route.fee_bps as int;
    assert((a1 * p) * a2 == (a2 * p) * a1) by (nonlinear_arith);
    assert((a1 * f) * a2 == (a2 * f) * a1) by (nonlinear_arith);
}

/// `rand::random::<u64>()`: a random `u64` from the thread-local generator.
/// Nothing is promised of the value.
#[verifier::external_body]
fn random_nonce() -> u64 {
    rand::random::<u64>()
}

fn append_hex(out: &mut String, n: u64, k: u32)
    requires
        k <= 16,
    ensures
        final(out)@ == old(out)@ + hex_digits(n as nat, k as nat),
    decreases k,
{
    if k > 0 {
        append_hex(out, n / 16, k - 1);
        let digits = "0123456789abcdef";
        proof {
            reveal_strlit("0123456789abcdef");
        }
        let d = (n % 16) as usize;
        let c = digits.substring_char(d, d + 1);
        assert(c@ =~= seq![hex_char(d as int)]);
        let ghost before = out@;
        out.append(c);
        assert(out@ =~= old(out)@ + hex_digits(n as nat, k as nat));
    }
}

/// The simulated signature for `nonce`: `SIM_` and the 16 lowercase
/// hexadecimal digits of the nonce.
pub fn simulated_signature(nonce: u64) -> (s: String)
    ensures
        s@ == signature_of(nonce),
{
    let mut s = String::from_str("SIM_");
    append_hex(&mut s, nonce, 16);
    s
}

/// The dry-run swap of `amount` lamports on `route`, signed with `nonce`.
pub fn dry_run_swap(route: &Route, amount: u64, nonce: u64) -> (s: SwapResult)
    ensures
        is_dry_run_swap(s, *route, amount, nonce),
        s.input_amount == amount,
        s.output_amount == amount * route.effective_price,
        s.fee_paid == amount * route.fee_bps,
        s.is_dry_run,
{
    let a = amount as u128;
    let p = route.effective_price as u128;
    let f = route.fee_bps as u128;
    assert(a * p <= u128::MAX && a * f <= u128::MAX) by (nonlinear_arith)
        requires
            a <= u64::MAX,
            p <= u64::MAX,
            f <= u16::MAX,
    ;
    let output = a * p;
    let fee = a * f;
    SwapResult {
        simulated_sig: simulated_signature(nonce),
        input_amount: amount,
        output_amount: output,
        fee_paid: fee,
        is_dry_run: true,
    }
}

/// Simulates a Jupiter swap of `amount` lamports on `route`. Only dry runs
/// are enabled: a live swap (`dry_run == false`) is refused with
/// [`HftError::LiveModeDisabled`]. The signature carries a random nonce.
pub fn simulate_swap(route: &Route, amount: u64, dry_run: bool) -> (r: Result<SwapResult, HftError>)
    ensures
        !dry_run <==> r is Err,
        r matches Err(e) ==> e == HftError::LiveModeDisabled,
        r matches Ok(s) ==> exists|nonce: u64| #[trigger] is_dry_run_swap(s, *route, amount, nonce),
        r matches Ok(s) ==> {
            &&& s.input_amount == amount
            &&& s.output_amount == amount * route.effective_price
            &&& s.fee_paid == amount * route.fee_bps
            &&& s.is_dry_run
        },
{
    if !dry_run {
        return Err(HftError::LiveModeDisabled);
    }
    let nonce = random_nonce();
    let s = dry_run_swap(route, amount, nonce);
    let r: Result<SwapResult, HftError> = Ok(s);
    // Names the result's payload so the witness `nonce` is found for it.
    assert(r->Ok_0 == s);
    r
}

} // verus!
