//! Trade-governance core of an HFT agent platform on Solana.
//!
//! The library holds the decisions of the platform, each with a contract:
//!
//! * [`pev`]: the Plan → Execute → Verify loop as a step function
//!   (state and verification event in, next state and action out), the
//!   canonical task breakdown, the tool-call map and the verdict rules;
//! * [`sor`]: smart order routing over fixed-point venue quotes;
//! * [`onchain`]: the dry-run Jupiter swap arithmetic and its simulated
//!   signature;
//! * [`avm`]: the AVM / EVM execution kernels and their benchmark;
//! * [`config`]: runtime configuration from looked-up environment values.
//!
//! Amounts are fixed-point integers: base-token amounts in lamports
//! (10⁻⁹ SOL), prices in micro-units of the quote token per whole base token,
//! fees in basis points and verification scores in units of 10⁻⁴. Swap
//! outputs and fees are kept in units fine enough for the products to be
//! exact.
pub mod avm;
pub mod config;
pub mod error;
pub mod onchain;
pub mod pev;
pub mod sor;
