//! Account addresses: 32 bytes, written in base58.

use std::str::FromStr;
use vstd::prelude::*;

verus! {

/// Why a text is not the address of an account.
#[derive(Clone, Copy, Debug, PartialEq, Eq, Structural)]
pub enum AddressError {
    /// The text is too long, or does not decode to exactly 32 bytes.
    WrongSize,
    /// The text holds a character that base58 does not have.
    Invalid,
}

/// What `Pubkey::from_str` of the Solana SDK makes of a text: the 32 bytes
/// that it decodes to, or the reason why it is no address.
pub uninterp spec fn decoded_address(text: Seq<char>) -> Result<Seq<u8>, AddressError>;

/// The text that the Solana SDK shows for a key of 32 bytes: its base58 form,
/// as `Pubkey`'s `Display` writes it.
pub uninterp spec fn address_text(key: Seq<u8>) -> Seq<char>;

/// Calls `solana_sdk::pubkey::Pubkey::from_str` and hands back the key's
/// bytes. Trusted: the outcome depends on the text alone, and is what
/// [`decoded_address`] names; the two variants of the SDK's parse error are
/// passed on as they come.
#[verifier::external_body]
fn decode_address(text: &str) -> (decoded: Result<[u8; 32], AddressError>)
    ensures
        match decoded {
            Ok(key) => decoded_address(text@) == Ok::<Seq<u8>, AddressError>(key@),
            Err(error) => decoded_address(text@) == Err::<Seq<u8>, AddressError>(error),
        },
{
    match solana_sdk::pubkey::Pubkey::from_str(text) {
        Ok(key) => Ok(key.to_bytes()),
        Err(solana_sdk::pubkey::ParsePubkeyError::WrongSize) => Err(AddressError::WrongSize),
        Err(solana_sdk::pubkey::ParsePubkeyError::Invalid) => Err(AddressError::Invalid),
    }
}

/// Calls `to_string` on the `solana_sdk::pubkey::Pubkey` made of the bytes.
/// Trusted: the text depends on the bytes alone, and is what
/// [`address_text`] names.
#[verifier::external_body]
fn encode_address(key: &[u8; 32]) -> (text: String)
    ensures
        text@ == address_text(key@),
{
    solana_sdk::pubkey::Pubkey::new_from_array(*key).to_string()
}

/// An account on the ledger: its key, and the text under which it is shown.
#[derive(Clone, Debug, PartialEq, Eq)]
pub struct Account {
    pub key: [u8; 32],
    pub text: String,
}

/// An [`Account`] as contracts see it.
pub struct AccountView {
    pub key: Seq<u8>,
    pub text: Seq<char>,
}

impl View for Account {
    type V = AccountView;

    open spec fn view(&self) -> AccountView {
        AccountView { key: self.key@, text: self.text@ }
    }
}

/// The account with a key, shown as the SDK shows it.
pub open spec fn named_account(key: Seq<u8>) -> AccountView {
    AccountView { key, text: address_text(key) }
}

/// The account that a text names, or why it names none.
pub open spec fn parsed_account(text: Seq<char>) -> Result<AccountView, AddressError> {
    match decoded_address(text) {
        Ok(key) => Ok(named_account(key)),
        Err(error) => Err(error),
    }
}

/// What reading an address gave, as contracts see it.
pub open spec fn parse_view(parsed: Result<Account, AddressError>) -> Result<
    AccountView,
    AddressError,
> {
    match parsed {
        Ok(account) => Ok(account@),
        Err(error) => Err(error),
    }
}

impl Account {
    /// The account with this key, shown as the SDK shows it.
    pub fn from_key(key: [u8; 32]) -> (account: Account)
        ensures
            account@ == named_account(key@),
    {
        let text = encode_address(&key);
        Account { key, text }
    }

    /// The account that a text names. Fails exactly where the SDK does not
    /// take the text for an address, and with its reason.
    pub fn parse(text: &str) -> (parsed: Result<Account, AddressError>)
        ensures
            parse_view(parsed) == parsed_account(text@),
    {
        match decode_address(text) {
            Ok(key) => Ok(Account::from_key(key)),
            Err(error) => Err(error),
        }
    }
}

} // verus!
