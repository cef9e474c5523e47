//! What the sweep runs on, worked out once when the service starts.

use crate::address::{
    named_account, parse_view, parsed_account, Account, AccountView, AddressError,
};
use crate::config::{optional_text, Config, ConfigError, ConfigView};
use crate::units::{sol_to_lamports, sol_to_lamports_spec};
use vstd::prelude::*;

verus! {

/// What the sweep runs on. It is made once and never changed.
#[derive(Clone, Debug, PartialEq, Eq)]
pub struct Settings {
    /// The account whose balance is watched and that pays.
    pub sender: Account,
    /// The account that receives what is above the threshold.
    pub receiver: Account,
    /// The reserve that stays on the sender, in lamports.
    pub threshold_lamports: u64,
    /// Seconds between two looks at the balance.
    pub poll_interval_seconds: u64,
    /// Where a transfer is reported, if anywhere.
    pub slack_webhook: Option<String>,
}

/// [`Settings`] as contracts see them.
pub struct SettingsView {
    pub sender: AccountView,
    pub receiver: AccountView,
    pub threshold_lamports: u64,
    pub poll_interval_seconds: u64,
    pub slack_webhook: Option<Seq<char>>,
}

impl View for Settings {
    type V = SettingsView;

    open spec fn view(&self) -> SettingsView {
        SettingsView {
            sender: self.sender@,
            receiver: self.receiver@,
            threshold_lamports: self.threshold_lamports,
            poll_interval_seconds: self.poll_interval_seconds,
            slack_webhook: optional_text(self.slack_webhook),
        }
    }
}

/// The settings that a configuration makes with a sender and with what the
/// receiver's address was read as: none where the receiver is no address;
/// otherwise the threshold in lamports and the interval, each the configured
/// one or its default, and the webhook as configured.
pub open spec fn assembled(
    config: ConfigView,
    sender: AccountView,
    receiver: Result<AccountView, AddressError>,
) -> Result<SettingsView, ConfigError> {
    match receiver {
        Err(error) => Err(ConfigError::InvalidReceiver(error)),
        Ok(receiver) => Ok(
            SettingsView {
                sender,
                receiver,
                threshold_lamports: sol_to_lamports_spec(config.threshold()),
                poll_interval_seconds: config.poll_interval(),
                slack_webhook: config.slack_webhook,
            },
        ),
    }
}

/// What working out the settings gave, as contracts see it.
pub open spec fn settled_view(settings: Result<Settings, ConfigError>) -> Result<
    SettingsView,
    ConfigError,
> {
    match settings {
        Ok(settings) => Ok(settings@),
        Err(error) => Err(error),
    }
}

impl Settings {
    /// Puts the settings together from a configuration, the sender, and the
    /// receiver as its address was read.
    pub fn assemble(
        config: &Config,
        sender: Account,
        receiver: Result<Account, AddressError>,
    ) -> (settings: Result<Settings, ConfigError>)
        ensures
            settled_view(settings) == assembled(config@, sender@, parse_view(receiver)),
    {
        let receiver = match receiver {
            Ok(account) => account,
            Err(reason) => { return Err(ConfigError::InvalidReceiver(reason)); },
        };
        let threshold_lamports: u64 = sol_to_lamports(config.threshold());
        let poll_interval_seconds: u64 = config.poll_interval();
        let slack_webhook = match &config.slack_webhook {
            Some(endpoint) => Some(endpoint.clone()),
            None => None,
        };
        Ok(
            Settings {
                sender,
                receiver,
                threshold_lamports,
                poll_interval_seconds,
                slack_webhook,
            },
        )
    }

    /// Works the settings out of a configuration and the sender's key: reads
    /// the receiver's address, and fails where it is none.
    pub fn resolve(config: &Config, sender_key: [u8; 32]) -> (settings: Result<
        Settings,
        ConfigError,
    >)
        ensures
            settled_view(settings) == assembled(
                config@,
                named_account(sender_key@),
                parsed_account(config@.receiver_pubkey),
            ),
    {
        let sender = Account::from_key(sender_key);
        let receiver = Account::parse(config.receiver_pubkey.as_str());
        Settings::assemble(config, sender, receiver)
    }
}

} // verus!
