use automated_fund_transfer::address::{Account, AddressError};
use automated_fund_transfer::config::{Config, ConfigError};
use automated_fund_transfer::settings::Settings;
use automated_fund_transfer::units::SolAmount;

const RECEIVER: &str = "Vote111111111111111111111111111111111111111";

const RECEIVER_KEY: [u8; 32] = [
    7, 97, 72, 29, 53, 116, 116, 187, 124, 77, 118, 36, 235, 211, 189, 179, 216, 53, 94, 115, 209,
    16, 67, 252, 13, 163, 83, 128, 0, 0, 0, 0,
];

fn config(receiver: &str) -> Config {
    Config {
        sender_keypair: "/etc/automated-fund-transfer/id.json".to_string(),
        receiver_pubkey: receiver.to_string(),
        sol_threshold: None,
        poll_interval_seconds: None,
        rpc_provider: "https://api.mainnet-beta.solana.com".to_string(),
        slack_webhook: None,
    }
}

#[test]
fn resolve_uses_the_defaults() {
    let settings = Settings::resolve(&config(RECEIVER), [0u8; 32]).unwrap();
    assert_eq!(settings.threshold_lamports, 7_000_000_000);
    assert_eq!(settings.poll_interval_seconds, 14_400);
    assert_eq!(settings.slack_webhook, None);
}

#[test]
fn resolve_reads_sender_and_receiver() {
    let settings = Settings::resolve(&config(RECEIVER), [0u8; 32]).unwrap();
    assert_eq!(settings.sender.key, [0u8; 32]);
    assert_eq!(settings.sender.text, "11111111111111111111111111111111");
    assert_eq!(settings.receiver.key, RECEIVER_KEY);
    assert_eq!(settings.receiver.text, RECEIVER);
}

#[test]
fn resolve_uses_what_is_configured() {
    let mut config = config(RECEIVER);
    config.sol_threshold = Some(SolAmount::new(25, 1));
    config.poll_interval_seconds = Some(60);
    config.slack_webhook = Some("https://hooks.example/T000/B000".to_string());
    let settings = Settings::resolve(&config, [0u8; 32]).unwrap();
    assert_eq!(settings.threshold_lamports, 2_500_000_000);
    assert_eq!(settings.poll_interval_seconds, 60);
    assert_eq!(settings.slack_webhook, Some("https://hooks.example/T000/B000".to_string()));
}

#[test]
fn resolve_rounds_the_threshold_to_lamports() {
    let mut config = config(RECEIVER);
    config.sol_threshold = Some(SolAmount::new(10_000_000_005, 10));
    let settings = Settings::resolve(&config, [0u8; 32]).unwrap();
    assert_eq!(settings.threshold_lamports, 1_000_000_001);
}

#[test]
fn resolve_refuses_a_receiver_that_is_no_base58() {
    assert_eq!(
        Settings::resolve(&config("not an address"), [0u8; 32]),
        Err(ConfigError::InvalidReceiver(AddressError::Invalid))
    );
}

#[test]
fn resolve_refuses_a_receiver_of_the_wrong_size() {
    assert_eq!(
        Settings::resolve(&config("abc"), [0u8; 32]),
        Err(ConfigError::InvalidReceiver(AddressError::WrongSize))
    );
    assert_eq!(
        Settings::resolve(&config(""), [0u8; 32]),
        Err(ConfigError::InvalidReceiver(AddressError::WrongSize))
    );
}

#[test]
fn assemble_takes_the_accounts_as_given() {
    let sender = Account { key: [1u8; 32], text: "sender".to_string() };
    let receiver = Account { key: [2u8; 32], text: "receiver".to_string() };
    let settings =
        Settings::assemble(&config("ignored"), sender.clone(), Ok(receiver.clone())).unwrap();
    assert_eq!(settings.sender, sender);
    assert_eq!(settings.receiver, receiver);
    assert_eq!(settings.threshold_lamports, 7_000_000_000);
    assert_eq!(settings.poll_interval_seconds, 14_400);
}

#[test]
fn assemble_passes_the_reason_on() {
    let sender = Account { key: [1u8; 32], text: "sender".to_string() };
    assert_eq!(
        Settings::assemble(&config(RECEIVER), sender.clone(), Err(AddressError::WrongSize)),
        Err(ConfigError::InvalidReceiver(AddressError::WrongSize))
    );
    assert_eq!(
        Settings::assemble(&config(RECEIVER), sender, Err(AddressError::Invalid)),
        Err(ConfigError::InvalidReceiver(AddressError::Invalid))
    );
}
