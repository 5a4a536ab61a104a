//! Runtime configuration from the process environment.
//!
//! The caller looks the variables up and passes each value (or `None` when
//! the variable is absent); the rules of the configuration are here.
//!
//! Every variable is optional and has a safe default, so building the
//! configuration never fails. Without an API key (absent or empty) the
//! PEV phases run offline on their stubs.
//!
//! | Variable | Default |
//! |---|---|
//! | `ANTHROPIC_API_KEY` | `""` (absent or empty: offline stub mode) |
//! | `SKIP_LLM` | `false` (`1` or `true`: offline stub mode) |
//! | `SOLANA_RPC_URL` | `https://api.devnet.solana.com` |
//! | `SOLANA_PRIVATE_KEY` | `DEMO_KEY_PLACEHOLDER` |
//! | `DRY_RUN` | `true` |
use vstd::prelude::*;


verus! {

/// Global runtime configuration of the platform.
#[derive(Debug, Clone)]
pub struct Config {
    /// Anthropic API key forwarded to every model client.
    pub anthropic_api_key: String,
    /// Solana JSON-RPC endpoint; Solana devnet by default.
    pub solana_rpc_url: String,
    /// Base-58 encoded Solana keypair used for signing transactions.
    pub solana_private_key: String,
    /// When `true` (the default), on-chain operations are only simulated.
    pub dry_run: bool,
    /// When `true`, the PEV phases use their offline stubs and no model is
    /// called.
    pub skip_llm: bool,
}

/// The value of a boolean flag variable: `"true"` or `"1"` set it.
pub open spec fn flag_value(v: Seq<char>) -> bool {
    v == "true"@ || v == "1"@
}

/// The value of a variable, or `default` when it is absent.
pub open spec fn or_default(v: Option<String>, default: Seq<char>) -> Seq<char> {
    match v {
        Some(s) => s@,
        None => default,
    }
}

/// Whether a flag variable's value (`DRY_RUN`, `SKIP_LLM`) sets it.
pub fn parse_flag(v: &String) -> (b: bool)
    ensures
        b == flag_value(v@),
{
    let t = String::from_str("true");
    let one = String::from_str("1");
    *v == t || *v == one
}

fn value_or(v: Option<String>, default: &str) -> (r: String)
    ensures
        r@ == or_default(v, default@),
{
    match v {
        Some(s) => s,
        None => String::from_str(default),
    }
}

impl Config {
    /// The configuration from the looked-up values of `ANTHROPIC_API_KEY`,
    /// `SKIP_LLM`, `SOLANA_RPC_URL`, `SOLANA_PRIVATE_KEY` and `DRY_RUN`
    /// (`None` for an absent variable). Never fails: every variable has a
    /// default. Stub mode is on when `SKIP_LLM` is set or there is no API
    /// key.
    pub fn from_env(
        anthropic_api_key: Option<String>,
        skip_llm: Option<String>,
        solana_rpc_url: Option<String>,
        solana_private_key: Option<String>,
        dry_run: Option<String>,
    ) -> (r: Result<Config, ()>)
        ensures
            r is Ok,
            r matches Ok(c) ==> {
                &&& c.anthropic_api_key@ == or_default(anthropic_api_key, ""@)
                &&& c.solana_rpc_url@ == or_default(solana_rpc_url, "https://api.devnet.solana.com"@)
                &&& c.solana_private_key@ == or_default(solana_private_key, "DEMO_KEY_PLACEHOLDER"@)
                &&& c.dry_run == match dry_run {
                    Some(v) => flag_value(v@),
                    None => true,
                }
                &&& c.skip_llm == (match skip_llm {
                    Some(v) => flag_value(v@),
                    None => false,
                } || c.anthropic_api_key@.len() == 0)
            },
    {
        let key = value_or(anthropic_api_key, "");
        proof {
            reveal_strlit("");
        }
        let rpc = value_or(solana_rpc_url, "https://api.devnet.solana.com");
        let signer_key = value_or(solana_private_key, "DEMO_KEY_PLACEHOLDER");
        let dry = match &dry_run {
            Some(v) => parse_flag(v),
            None => true,
        };
        let forced = match &skip_llm {
            Some(v) => parse_flag(v),
            None => false,
        };
        let no_key = key.as_str().is_empty();
        let c = Config {
            anthropic_api_key: key,
            solana_rpc_url: rpc,
            solana_private_key: signer_key,
            dry_run: dry,
            skip_llm: forced || no_key,
        };
        let r: Result<Config, ()> = Ok(c);
        r
    }

    /// Whether an API key is configured (non-empty).
    pub fn has_api_key(&self) -> (b: bool)
        ensures
            b == (self.anthropic_api_key@.len() > 0),
    {
        !self.anthropic_api_key.as_str().is_empty()
    }

    /// Turns stub mode on when `skip` is set (the `--skip-llm` switch);
    /// nothing else changes.
    pub fn force_skip_llm(&mut self, skip: bool)
        ensures
            final(self).skip_llm == (old(self).skip_llm || skip),
            final(self).anthropic_api_key == old(self).anthropic_api_key,
            final(self).solana_rpc_url == old(self).solana_rpc_url,
            final(self).solana_private_key == old(self).solana_private_key,
            final(self).dry_run == old(self).dry_run,
    {
        if skip {
            self.skip_llm = true;
        }
    }
}

} // verus!
