# polar_bear_rig_hft

Trade-governance core of an LLM-driven HFT agent platform on Solana, written
in Verus: every decision of the platform is an executable function with a
proved contract.

* `src/` — the verified library
  * `pev/` — Plan → Execute → Verify loop: the loop's step function
    (`PevLoop`) with its termination and retry laws, the default four-task
    plan, the tool-call map, the verdict rules, the cleaning of model
    answers before JSON parsing, and the offline stub mode (`pev/stub.rs`);
  * `sor/` — smart order routing: venue quotes and lowest-cost selection;
  * `onchain/` — dry-run Jupiter swap arithmetic and the `SIM_` signature;
  * `avm/` — the simulated AVM / EVM kernels and their benchmark;
  * `config.rs` — configuration rules for the environment's values (never
    fails; no API key, `SKIP_LLM` or `--skip-llm` turn on stub mode).
* `app/` — the binary: CLI, environment, tokio runtime, model calls through
  `rig-core`, JSON (serde) forms of the library's types, the task-local
  signer context and logging.
* `tests/` — tests of the library.

Amounts are fixed-point: lamports for base-token amounts, micro-units of the
quote token for prices, basis points for fees, 1/10 000 for verification
scores; swap outputs and fees are exact products (10⁻¹⁵ of the quote token,
10⁻¹³ of the base token).
