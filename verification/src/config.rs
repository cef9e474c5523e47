//! The operator's settings as they are written down, and their defaults.

use crate::address::AddressError;
use crate::units::SolAmount;
use vstd::prelude::*;

verus! {

/// The reserve kept on the sender where none is configured, in whole SOL:
/// about a week of what the account spends.
pub const DEFAULT_SOL_THRESHOLD: u64 = 7;

/// The time between two looks at the balance where none is configured: four
/// hours, which keeps the fees of a month of transfers small.
pub const DEFAULT_POLL_INTERVAL_SECONDS: u64 = 14_400;

/// The default reserve as an amount.
pub open spec fn default_sol_threshold() -> SolAmount {
    SolAmount { mantissa: DEFAULT_SOL_THRESHOLD, scale: 0 }
}

/// What stands in for the sender's key file wherever the settings are shown.
pub open spec fn redacted_text() -> Seq<char> {
    "[REDACTED]"@
}

/// The view of a text that may be absent.
pub open spec fn optional_text(text: Option<String>) -> Option<Seq<char>> {
    match text {
        Some(text) => Some(text@),
        None => None,
    }
}

/// Why the settings cannot be used.
#[derive(Clone, Copy, Debug, PartialEq, Eq, Structural)]
pub enum ConfigError {
    /// `sender_keypair` is not set.
    MissingSenderKeypair,
    /// `receiver_pubkey` is not set.
    MissingReceiverPubkey,
    /// `rpc_provider` is not set.
    MissingRpcProvider,
    /// `receiver_pubkey` is not the address of an account.
    InvalidReceiver(AddressError),
}

/// The settings as read, before anything is known to be there.
#[derive(Clone, Debug, PartialEq, Eq)]
pub struct RawConfig {
    pub sender_keypair: Option<String>,
    pub receiver_pubkey: Option<String>,
    pub sol_threshold: Option<SolAmount>,
    pub poll_interval_seconds: Option<u64>,
    pub rpc_provider: Option<String>,
    pub slack_webhook: Option<String>,
}

/// A [`RawConfig`] as contracts see it.
pub struct RawConfigView {
    pub sender_keypair: Option<Seq<char>>,
    pub receiver_pubkey: Option<Seq<char>>,
    pub sol_threshold: Option<SolAmount>,
    pub poll_interval_seconds: Option<u64>,
    pub rpc_provider: Option<Seq<char>>,
    pub slack_webhook: Option<Seq<char>>,
}

impl View for RawConfig {
    type V = RawConfigView;

    open spec fn view(&self) -> RawConfigView {
        RawConfigView {
            sender_keypair: optional_text(self.sender_keypair),
            receiver_pubkey: optional_text(self.receiver_pubkey),
            sol_threshold: self.sol_threshold,
            poll_interval_seconds: self.poll_interval_seconds,
            rpc_provider: optional_text(self.rpc_provider),
            slack_webhook: optional_text(self.slack_webhook),
        }
    }
}

/// The settings of the service.
#[derive(Clone, Debug, PartialEq, Eq)]
pub struct Config {
    /// Path of the key file of the sender, whose balance is watched.
    pub sender_keypair: String,
    /// Address of the account that receives what is above the threshold.
    pub receiver_pubkey: String,
    /// The reserve, in SOL, that stays on the sender.
    pub sol_threshold: Option<SolAmount>,
    /// Seconds between two looks at the balance.
    pub poll_interval_seconds: Option<u64>,
    /// The RPC endpoint of the ledger.
    pub rpc_provider: String,
    /// Where a transfer is reported; nothing is reported where it is absent.
    pub slack_webhook: Option<String>,
}

/// A [`Config`] as contracts see it.
pub struct ConfigView {
    pub sender_keypair: Seq<char>,
    pub receiver_pubkey: Seq<char>,
    pub sol_threshold: Option<SolAmount>,
    pub poll_interval_seconds: Option<u64>,
    pub rpc_provider: Seq<char>,
    pub slack_webhook: Option<Seq<char>>,
}

impl View for Config {
    type V = ConfigView;

    open spec fn view(&self) -> ConfigView {
        ConfigView {
            sender_keypair: self.sender_keypair@,
            receiver_pubkey: self.receiver_pubkey@,
            sol_threshold: self.sol_threshold,
            poll_interval_seconds: self.poll_interval_seconds,
            rpc_provider: self.rpc_provider@,
            slack_webhook: optional_text(self.slack_webhook),
        }
    }
}

impl ConfigView {
    /// The reserve that holds: the configured one, or the default.
    pub open spec fn threshold(self) -> SolAmount {
        match self.sol_threshold {
            Some(threshold) => threshold,
            None => default_sol_threshold(),
        }
    }

    /// The interval that holds: the configured one, or the default.
    pub open spec fn poll_interval(self) -> u64 {
        match self.poll_interval_seconds {
            Some(seconds) => seconds,
            None => DEFAULT_POLL_INTERVAL_SECONDS,
        }
    }

    /// The same settings with threshold and interval present. Nothing else
    /// has a default.
    pub open spec fn with_defaults(self) -> ConfigView {
        ConfigView {
            sol_threshold: Some(self.threshold()),
            poll_interval_seconds: Some(self.poll_interval()),
            ..self
        }
    }

    /// Threshold and interval are both present.
    pub open spec fn is_filled(self) -> bool {
        self.sol_threshold is Some && self.poll_interval_seconds is Some
    }

    /// The same settings with the sender's key file hidden.
    pub open spec fn redacted(self) -> ConfigView {
        ConfigView { sender_keypair: redacted_text(), ..self }
    }
}

impl RawConfigView {
    /// The settings that the raw ones make, with the defaults filled in, or
    /// the first required field that is missing.
    pub open spec fn checked(self) -> Result<ConfigView, ConfigError> {
        if self.sender_keypair is None {
            Err(ConfigError::MissingSenderKeypair)
        } else if self.receiver_pubkey is None {
            Err(ConfigError::MissingReceiverPubkey)
        } else if self.rpc_provider is None {
            Err(ConfigError::MissingRpcProvider)
        } else {
            Ok(
                ConfigView {
                    sender_keypair: self.sender_keypair->0,
                    receiver_pubkey: self.receiver_pubkey->0,
                    sol_threshold: self.sol_threshold,
                    poll_interval_seconds: self.poll_interval_seconds,
                    rpc_provider: self.rpc_provider->0,
                    slack_webhook: self.slack_webhook,
                }.with_defaults(),
            )
        }
    }
}

/// What making the settings gave, as contracts see it.
pub open spec fn made_view(made: Result<Config, ConfigError>) -> Result<ConfigView, ConfigError> {
    match made {
        Ok(config) => Ok(config@),
        Err(error) => Err(error),
    }
}

impl Config {
    /// The reserve that holds: the configured one, or the default.
    pub fn threshold(&self) -> (threshold: SolAmount)
        ensures
            threshold == self@.threshold(),
    {
        match self.sol_threshold {
            Some(threshold) => threshold,
            None => SolAmount::whole(DEFAULT_SOL_THRESHOLD),
        }
    }

    /// The interval that holds, in seconds: the configured one, or the default.
    pub fn poll_interval(&self) -> (seconds: u64)
        ensures
            seconds == self@.poll_interval(),
    {
        match self.poll_interval_seconds {
            Some(seconds) => seconds,
            None => DEFAULT_POLL_INTERVAL_SECONDS,
        }
    }

    /// Fills in the threshold and the interval where they are absent, and
    /// changes nothing else.
    pub fn fill_defaults(self) -> (filled: Config)
        ensures
            filled@ == self@.with_defaults(),
            filled@.is_filled(),
    {
        let sol_threshold = self.threshold();
        let poll_interval_seconds: u64 = self.poll_interval();
        Config {
            sender_keypair: self.sender_keypair,
            receiver_pubkey: self.receiver_pubkey,
            sol_threshold: Some(sol_threshold),
            poll_interval_seconds: Some(poll_interval_seconds),
            rpc_provider: self.rpc_provider,
            slack_webhook: self.slack_webhook,
        }
    }

    /// Makes the settings from what was read: fails with the first required
    /// field that is missing (the sender's key file, then the receiver, then
    /// the RPC endpoint), and fills in the defaults otherwise. The sender's
    /// key file and the receiver are kept as they are written.
    pub fn from_raw(raw: RawConfig) -> (made: Result<Config, ConfigError>)
        ensures
            made_view(made) == raw@.checked(),
    {
        let sender_keypair = match raw.sender_keypair {
            Some(path) => path,
            None => { return Err(ConfigError::MissingSenderKeypair); },
        };
        let receiver_pubkey = match raw.receiver_pubkey {
            Some(address) => address,
            None => { return Err(ConfigError::MissingReceiverPubkey); },
        };
        let rpc_provider = match raw.rpc_provider {
            Some(endpoint) => endpoint,
            None => { return Err(ConfigError::MissingRpcProvider); },
        };
        let config = Config {
            sender_keypair,
            receiver_pubkey,
            sol_threshold: raw.sol_threshold,
            poll_interval_seconds: raw.poll_interval_seconds,
            rpc_provider,
            slack_webhook: raw.slack_webhook,
        };
        Ok(config.fill_defaults())
    }

    /// The settings as they may be shown: the sender's key file is replaced
    /// by a placeholder, everything else is kept.
    pub fn redacted(&self) -> (shown: Config)
        ensures
            shown@ == self@.redacted(),
    {
        let slack_webhook = match &self.slack_webhook {
            Some(endpoint) => Some(endpoint.clone()),
            None => None,
        };
        Config {
            sender_keypair: "[REDACTED]".to_owned(),
            receiver_pubkey: self.receiver_pubkey.clone(),
            sol_threshold: self.sol_threshold,
            poll_interval_seconds: self.poll_interval_seconds,
            rpc_provider: self.rpc_provider.clone(),
            slack_webhook,
        }
    }
}

/// Filling in the defaults a second time changes nothing.
pub proof fn lemma_defaults_fill_once(config: ConfigView)
    ensures
        config.with_defaults().is_filled(),
        config.with_defaults().with_defaults() == config.with_defaults(),
        config.is_filled() ==> config.with_defaults() == config,
{
}

/// Settings without threshold and interval get seven SOL and 14,400 seconds.
pub proof fn lemma_documented_defaults(config: ConfigView)
    requires
        config.sol_threshold is None,
        config.poll_interval_seconds is None,
    ensures
        config.with_defaults().sol_threshold == Some(SolAmount { mantissa: 7, scale: 0 }),
        config.with_defaults().poll_interval_seconds == Some(14_400u64),
{
}

} // verus!
