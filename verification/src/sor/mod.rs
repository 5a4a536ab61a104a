//! Smart Order Routing (SOR).
//!
//! Raydium, Orca and Serum are queried and the venue with the lowest
//! cost-adjusted price wins:
//!
//! ```text
//! effective_cost = price × (1 + fee_bps / 10_000)
//! ```
//!
//! computed exactly here as `price × (10_000 + fee_bps)`, which orders routes
//! the same way.
pub mod router;

pub use router::best_route;
