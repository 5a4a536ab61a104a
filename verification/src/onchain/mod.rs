//! On-chain execution layer: the swap that a trade executes.
//!
//! The swap runs inside a task-scoped signer context, which belongs to the
//! async runtime around the library; this module decides what is swapped.
pub mod jupiter;

use vstd::prelude::*;

use crate::error::HftError;
use crate::sor::router::Route;
use jupiter::{is_dry_run_swap, simulate_swap, SwapResult, LAMPORTS_PER_SOL};

verus! {

/// The swap executed for a selected route: one whole base token, simulated
/// unless `live` is set (and refused when it is, live mode being disabled).
pub fn execute_swap(route: &Route, live: bool) -> (r: Result<SwapResult, HftError>)
    ensures
        live <==> r is Err,
        r matches Err(e) ==> e == HftError::LiveModeDisabled,
        r matches Ok(s) ==> exists|nonce: u64| #[trigger] is_dry_run_swap(s, *route, LAMPORTS_PER_SOL, nonce),
        r matches Ok(s) ==> {
            &&& s.input_amount == LAMPORTS_PER_SOL
            &&& s.output_amount == LAMPORTS_PER_SOL * route.effective_price
            &&& s.fee_paid == LAMPORTS_PER_SOL * route.fee_bps
            &&& s.is_dry_run
        },
{
    simulate_swap(route, LAMPORTS_PER_SOL, !live)
}

} // verus!
