//! Tests of the configuration rules.

use polar_bear_rig_hft::config::{parse_flag, Config};

#[test]
fn test_config_from_env_succeeds_without_key() {
    let c = Config::from_env(None, None, None, None, None).unwrap();
    assert_eq!(c.anthropic_api_key, "");
    assert!(!c.has_api_key());
    assert_eq!(c.skip_llm, !c.has_api_key());
    assert!(c.skip_llm);
}

#[test]
fn test_config_has_api_key_empty() {
    let c = Config::from_env(Some("".into()), None, None, None, None).unwrap();
    assert!(!c.has_api_key());
    assert!(c.skip_llm);
}

#[test]
fn test_config_has_api_key_present() {
    let c = Config::from_env(Some("sk-test".into()), None, None, None, None).unwrap();
    assert!(c.has_api_key());
    assert!(!c.skip_llm);
}

#[test]
fn test_config_defaults() {
    let c = Config::from_env(Some("sk-test".into()), None, None, None, None).unwrap();
    assert_eq!(c.anthropic_api_key, "sk-test");
    assert_eq!(c.solana_rpc_url, "https://api.devnet.solana.com");
    assert_eq!(c.solana_private_key, "DEMO_KEY_PLACEHOLDER");
    assert!(c.dry_run);
}

#[test]
fn test_config_overrides() {
    let c = Config::from_env(
        Some("key-1".into()),
        Some("0".into()),
        Some("http://localhost:8899".into()),
        Some("key".into()),
        Some("false".into()),
    )
    .unwrap();
    assert_eq!(c.anthropic_api_key, "key-1");
    assert_eq!(c.solana_rpc_url, "http://localhost:8899");
    assert_eq!(c.solana_private_key, "key");
    assert!(!c.dry_run);
    assert!(!c.skip_llm);
}

#[test]
fn test_skip_llm_forced_with_key() {
    let c = Config::from_env(Some("sk".into()), Some("1".into()), None, None, None).unwrap();
    assert!(c.has_api_key());
    assert!(c.skip_llm);
    let c = Config::from_env(Some("sk".into()), Some("true".into()), None, None, None).unwrap();
    assert!(c.skip_llm);
    let mut c = Config::from_env(Some("sk".into()), None, None, None, None).unwrap();
    c.force_skip_llm(false);
    assert!(!c.skip_llm);
    c.force_skip_llm(true);
    assert!(c.skip_llm);
    assert_eq!(c.anthropic_api_key, "sk");
}

#[test]
fn test_dry_run_flag_values() {
    assert!(parse_flag(&"true".to_string()));
    assert!(parse_flag(&"1".to_string()));
    assert!(!parse_flag(&"TRUE".to_string()));
    assert!(!parse_flag(&"yes".to_string()));
    assert!(!parse_flag(&"".to_string()));
    assert!(!parse_flag(&" true".to_string()));
}
