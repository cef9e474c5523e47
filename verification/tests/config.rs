use automated_fund_transfer::config::{
    Config, ConfigError, RawConfig, DEFAULT_POLL_INTERVAL_SECONDS, DEFAULT_SOL_THRESHOLD,
};
use automated_fund_transfer::units::{sol_to_lamports, SolAmount};

fn bare_config() -> Config {
    Config {
        sender_keypair: "/etc/automated-fund-transfer/id.json".to_string(),
        receiver_pubkey: "Vote111111111111111111111111111111111111111".to_string(),
        sol_threshold: None,
        poll_interval_seconds: None,
        rpc_provider: "https://api.mainnet-beta.solana.com".to_string(),
        slack_webhook: None,
    }
}

fn full_raw() -> RawConfig {
    RawConfig {
        sender_keypair: Some("/etc/automated-fund-transfer/id.json".to_string()),
        receiver_pubkey: Some("Vote111111111111111111111111111111111111111".to_string()),
        sol_threshold: Some(SolAmount::new(25, 1)),
        poll_interval_seconds: Some(60),
        rpc_provider: Some("https://api.mainnet-beta.solana.com".to_string()),
        slack_webhook: Some("https://hooks.example/T000/B000".to_string()),
    }
}

#[test]
fn documented_defaults() {
    assert_eq!(DEFAULT_SOL_THRESHOLD, 7);
    assert_eq!(DEFAULT_POLL_INTERVAL_SECONDS, 14_400);
    assert_eq!(DEFAULT_POLL_INTERVAL_SECONDS, 4 * 60 * 60);
}

#[test]
fn fill_defaults_fills_threshold_and_interval() {
    let filled = bare_config().fill_defaults();
    assert_eq!(filled.sol_threshold, Some(SolAmount { mantissa: 7, scale: 0 }));
    assert_eq!(filled.poll_interval_seconds, Some(14_400));
    assert_eq!(sol_to_lamports(filled.sol_threshold.unwrap()), 7_000_000_000);
}

#[test]
fn fill_defaults_changes_nothing_else() {
    let filled = bare_config().fill_defaults();
    let bare = bare_config();
    assert_eq!(filled.sender_keypair, bare.sender_keypair);
    assert_eq!(filled.receiver_pubkey, bare.receiver_pubkey);
    assert_eq!(filled.rpc_provider, bare.rpc_provider);
    assert_eq!(filled.slack_webhook, None);

    let mut with_webhook = bare_config();
    with_webhook.slack_webhook = Some("https://hooks.example/T000/B000".to_string());
    assert_eq!(
        with_webhook.fill_defaults().slack_webhook,
        Some("https://hooks.example/T000/B000".to_string())
    );
}

#[test]
fn fill_defaults_keeps_what_is_configured() {
    let mut config = bare_config();
    config.sol_threshold = Some(SolAmount::new(25, 1));
    config.poll_interval_seconds = Some(60);
    let filled = config.clone().fill_defaults();
    assert_eq!(filled, config);
}

#[test]
fn fill_defaults_fills_each_field_on_its_own() {
    let mut config = bare_config();
    config.sol_threshold = Some(SolAmount::new(0, 0));
    let filled = config.fill_defaults();
    assert_eq!(filled.sol_threshold, Some(SolAmount::new(0, 0)));
    assert_eq!(filled.poll_interval_seconds, Some(14_400));

    let mut config = bare_config();
    config.poll_interval_seconds = Some(0);
    let filled = config.fill_defaults();
    assert_eq!(filled.sol_threshold, Some(SolAmount::whole(7)));
    assert_eq!(filled.poll_interval_seconds, Some(0));
}

#[test]
fn fill_defaults_twice_is_the_same_as_once() {
    let once = bare_config().fill_defaults();
    let twice = once.clone().fill_defaults();
    assert_eq!(once, twice);
}

#[test]
fn from_raw_takes_complete_settings() {
    let config = Config::from_raw(full_raw()).unwrap();
    assert_eq!(config.sender_keypair, "/etc/automated-fund-transfer/id.json");
    assert_eq!(config.receiver_pubkey, "Vote111111111111111111111111111111111111111");
    assert_eq!(config.sol_threshold, Some(SolAmount::new(25, 1)));
    assert_eq!(config.poll_interval_seconds, Some(60));
    assert_eq!(config.rpc_provider, "https://api.mainnet-beta.solana.com");
    assert_eq!(config.slack_webhook, Some("https://hooks.example/T000/B000".to_string()));
}

#[test]
fn from_raw_fills_the_defaults() {
    let mut raw = full_raw();
    raw.sol_threshold = None;
    raw.poll_interval_seconds = None;
    raw.slack_webhook = None;
    let config = Config::from_raw(raw).unwrap();
    assert_eq!(config.sol_threshold, Some(SolAmount::whole(7)));
    assert_eq!(config.poll_interval_seconds, Some(14_400));
    assert_eq!(config.slack_webhook, None);
}

#[test]
fn from_raw_misses_the_sender_keypair() {
    let mut raw = full_raw();
    raw.sender_keypair = None;
    assert_eq!(Config::from_raw(raw), Err(ConfigError::MissingSenderKeypair));
}

#[test]
fn from_raw_misses_the_receiver_pubkey() {
    let mut raw = full_raw();
    raw.receiver_pubkey = None;
    assert_eq!(Config::from_raw(raw), Err(ConfigError::MissingReceiverPubkey));
}

#[test]
fn from_raw_misses_the_rpc_provider() {
    let mut raw = full_raw();
    raw.rpc_provider = None;
    assert_eq!(Config::from_raw(raw), Err(ConfigError::MissingRpcProvider));
}

#[test]
fn from_raw_names_the_first_missing_field() {
    let mut raw = full_raw();
    raw.receiver_pubkey = None;
    raw.rpc_provider = None;
    assert_eq!(Config::from_raw(raw), Err(ConfigError::MissingReceiverPubkey));

    let mut raw = full_raw();
    raw.sender_keypair = None;
    raw.receiver_pubkey = None;
    raw.rpc_provider = None;
    assert_eq!(Config::from_raw(raw), Err(ConfigError::MissingSenderKeypair));
}

#[test]
fn from_raw_does_not_look_into_the_receiver() {
    let mut raw = full_raw();
    raw.receiver_pubkey = Some("not an address".to_string());
    raw.sender_keypair = Some(String::new());
    let config = Config::from_raw(raw).unwrap();
    assert_eq!(config.receiver_pubkey, "not an address");
    assert_eq!(config.sender_keypair, "");
}

#[test]
fn redacted_hides_the_key_file_only() {
    let config = Config::from_raw(full_raw()).unwrap();
    let shown = config.redacted();
    assert_eq!(shown.sender_keypair, "[REDACTED]");
    assert_eq!(shown.receiver_pubkey, config.receiver_pubkey);
    assert_eq!(shown.sol_threshold, config.sol_threshold);
    assert_eq!(shown.poll_interval_seconds, config.poll_interval_seconds);
    assert_eq!(shown.rpc_provider, config.rpc_provider);
    assert_eq!(shown.slack_webhook, config.slack_webhook);
}

#[test]
fn threshold_and_interval_fall_back_to_the_defaults() {
    let config = bare_config();
    assert_eq!(config.threshold(), SolAmount::whole(7));
    assert_eq!(config.poll_interval(), 14_400);

    let mut config = bare_config();
    config.sol_threshold = Some(SolAmount::new(25, 1));
    config.poll_interval_seconds = Some(60);
    assert_eq!(config.threshold(), SolAmount::new(25, 1));
    assert_eq!(config.poll_interval(), 60);
}
