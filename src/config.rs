//! The command-line tool's connection and account settings, merged from the
//! command line and the project manifest.
use vstd::prelude::*;

verus! {

/// The accounts file used when none is configured.
pub const DEFAULT_ACCOUNTS_FILE: &'static str = "~/.starknet_accounts/starknet_open_zeppelin_accounts.json";

/// Seconds to wait for a transaction when no timeout is configured.
pub const WAIT_TIMEOUT: u16 = 60;

/// Seconds between polls for a transaction when no interval is configured.
pub const WAIT_RETRY_INTERVAL: u8 = 5;

/// Why settings could not be turned into a configuration.
#[derive(Debug, PartialEq, Eq, Structural)]
pub enum ConfigError {
    /// A keystore is configured but no account file for it.
    AccountNameMissing,
    /// No RPC url is configured.
    RpcUrlMissing,
    /// The account is read from a keystore, not from an accounts file.
    AccountsFileNotDefined,
    /// The account is read from an accounts file, not from a keystore.
    KeystoreNotDefined,
}

impl ConfigError {
    /// The message shown to the user.
    pub fn message(&self) -> (r: &'static str)
        ensures
            r@ == error_message(*self),
    {
        match self {
            ConfigError::AccountNameMissing => "Account name not passed nor found in Scarb.toml",
            ConfigError::RpcUrlMissing => "RPC url not passed nor found in Scarb.toml",
            ConfigError::AccountsFileNotDefined => "accounts file not defined",
            ConfigError::KeystoreNotDefined => "keystore not defined",
        }
    }
}

pub open spec fn error_message(e: ConfigError) -> Seq<char> {
    match e {
        ConfigError::AccountNameMissing => "Account name not passed nor found in Scarb.toml"@,
        ConfigError::RpcUrlMissing => "RPC url not passed nor found in Scarb.toml"@,
        ConfigError::AccountsFileNotDefined => "accounts file not defined"@,
        ConfigError::KeystoreNotDefined => "keystore not defined"@,
    }
}

/// An account kept in a keystore: the path of its account file and of the keystore.
pub struct KeystoreAccountInfo {
    pub account: String,
    pub keystore: String,
}

/// An account listed by name in an accounts file.
pub struct AccountsFileAccountInfo {
    pub account: Option<String>,
    pub accounts_file: String,
}

/// Where the account to sign with comes from.
pub enum AccountInfo {
    Keystore(KeystoreAccountInfo),
    AccountsFile(AccountsFileAccountInfo),
}

/// The settings a command runs with.
pub struct CastConfig {
    pub rpc_url: String,
    pub account_info: AccountInfo,
    pub wait_timeout: u16,
    pub wait_retry_interval: u8,
}

/// Settings from one source, each of which may be absent.
pub struct CastConfigBuilder {
    pub rpc_url: Option<String>,
    pub account: Option<String>,
    pub accounts_file: Option<String>,
    pub keystore: Option<String>,
    pub wait_timeout: Option<u16>,
    pub wait_retry_interval: Option<u8>,
}

/// `a` where it is present, else `b`.
pub open spec fn first_present<T>(a: Option<T>, b: Option<T>) -> Option<T> {
    if a is Some {
        a
    } else {
        b
    }
}

/// What `AccountInfo::new` gives for these settings.
pub open spec fn account_info_for(
    account: Option<String>,
    keystore: Option<String>,
    accounts_file: String,
) -> Result<AccountInfo, ConfigError> {
    match keystore {
        Some(k) => match account {
            Some(a) => Ok(AccountInfo::Keystore(KeystoreAccountInfo { account: a, keystore: k })),
            None => Err(ConfigError::AccountNameMissing),
        },
        None => Ok(
            AccountInfo::AccountsFile(AccountsFileAccountInfo { account, accounts_file }),
        ),
    }
}

/// `r` is what expanding a leading `~` of `input` can give: `input` itself,
/// or, for an input that starts with `~`, some home directory followed by the
/// rest of it.
pub open spec fn is_tilde_expansion(input: Seq<char>, r: Seq<char>) -> bool {
    r == input || (input.len() > 0 && input[0] == '~' && exists|home: Seq<char>|
        r == home + input.drop_first())
}

/// Relies on `shellexpand::tilde`: an input that starts with `~` alone or
/// `~/` gets the home directory in place of the `~` when it is known; any other
/// input comes back unchanged.
#[verifier::external_body]
fn expand_tilde(path: &str) -> (r: String)
    ensures
        is_tilde_expansion(path@, r@),
        path@.len() == 0 || path@[0] != '~' ==> r@ == path@,
{
    shellexpand::tilde(path).to_string()
}

fn copy_string(s: &Option<String>) -> (r: Option<String>)
    ensures
        r == *s,
{
    match s {
        Some(v) => Some(v.clone()),
        None => None,
    }
}

impl AccountInfo {
    /// Reads the account from the keystore when one is given, which then
    /// needs an account file; else from the accounts file.
    pub fn new(account: Option<String>, keystore: Option<String>, accounts_file: String) -> (r:
        Result<Self, ConfigError>)
        ensures
            r == account_info_for(account, keystore, accounts_file),
    {
        match keystore {
            Some(keystore) => match account {
                Some(account) => Ok(Self::for_keystore(account, keystore)),
                None => Err(ConfigError::AccountNameMissing),
            },
            None => Ok(Self::for_accounts_file(account, accounts_file)),
        }
    }

    pub fn for_keystore(account: String, keystore: String) -> (r: Self)
        ensures
            r == AccountInfo::Keystore(KeystoreAccountInfo { account, keystore }),
    {
        AccountInfo::Keystore(KeystoreAccountInfo { account, keystore })
    }

    pub fn for_accounts_file(account: Option<String>, accounts_file: String) -> (r: Self)
        ensures
            r == AccountInfo::AccountsFile(AccountsFileAccountInfo { account, accounts_file }),
    {
        AccountInfo::AccountsFile(AccountsFileAccountInfo { account, accounts_file })
    }

    pub fn as_accounts_file(&self) -> (r: Result<&AccountsFileAccountInfo, ConfigError>)
        ensures
            match *self {
                AccountInfo::AccountsFile(info) => r == Ok::<&AccountsFileAccountInfo, ConfigError>(&info),
                AccountInfo::Keystore(_) => r == Err::<&AccountsFileAccountInfo, ConfigError>(ConfigError::AccountsFileNotDefined),
            },
    {
        match self {
            AccountInfo::AccountsFile(info) => Ok(info),
            AccountInfo::Keystore(_) => Err(ConfigError::AccountsFileNotDefined),
        }
    }

    pub fn as_keystore(&self) -> (r: Result<&KeystoreAccountInfo, ConfigError>)
        ensures
            match *self {
                AccountInfo::Keystore(info) => r == Ok::<&KeystoreAccountInfo, ConfigError>(&info),
                AccountInfo::AccountsFile(_) => r == Err::<&KeystoreAccountInfo, ConfigError>(ConfigError::KeystoreNotDefined),
            },
    {
        match self {
            AccountInfo::Keystore(info) => Ok(info),
            AccountInfo::AccountsFile(_) => Err(ConfigError::KeystoreNotDefined),
        }
    }

    /// The account's name: its name in the accounts file, or the path of its
    /// account file when it is kept in a keystore.
    pub fn account_name(&self) -> (r: Option<String>)
        ensures
            r == match *self {
                AccountInfo::AccountsFile(info) => info.account,
                AccountInfo::Keystore(info) => Some(info.account),
            },
    {
        match self {
            AccountInfo::AccountsFile(info) => copy_string(&info.account),
            AccountInfo::Keystore(info) => Some(info.account.clone()),
        }
    }
}

impl CastConfigBuilder {
    /// Takes each setting from `self` where it is present, else from `other`.
    pub fn merge(self, other: Self) -> (r: Self)
        ensures
            r.rpc_url == first_present(self.rpc_url, other.rpc_url),
            r.account == first_present(self.account, other.account),
            r.accounts_file == first_present(self.accounts_file, other.accounts_file),
            r.keystore == first_present(self.keystore, other.keystore),
            r.wait_timeout == first_present(self.wait_timeout, other.wait_timeout),
            r.wait_retry_interval == first_present(
                self.wait_retry_interval,
                other.wait_retry_interval,
            ),
    {
        CastConfigBuilder {
            rpc_url: if self.rpc_url.is_some() { self.rpc_url } else { other.rpc_url },
            account: if self.account.is_some() { self.account } else { other.account },
            accounts_file: if self.accounts_file.is_some() {
                self.accounts_file
            } else {
                other.accounts_file
            },
            keystore: if self.keystore.is_some() { self.keystore } else { other.keystore },
            wait_timeout: if self.wait_timeout.is_some() {
                self.wait_timeout
            } else {
                other.wait_timeout
            },
            wait_retry_interval: if self.wait_retry_interval.is_some() {
                self.wait_retry_interval
            } else {
                other.wait_retry_interval
            },
        }
    }

    /// The accounts file the settings name, or the default one.
    pub fn accounts_file_or_default(&self) -> (r: String)
        ensures
            r@ == match self.accounts_file {
                Some(f) => f@,
                None => DEFAULT_ACCOUNTS_FILE@,
            },
    {
        match &self.accounts_file {
            Some(f) => f.clone(),
            None => String::from_str(DEFAULT_ACCOUNTS_FILE),
        }
    }

    /// Builds the configuration with `accounts_file` as the accounts file.
    /// The account comes first: a keystore without an account file is refused;
    /// then a missing RPC url. Absent wait settings take their defaults.
    pub fn build_with_accounts_file(self, accounts_file: String) -> (r: Result<CastConfig, ConfigError>)
        ensures
            match account_info_for(self.account, self.keystore, accounts_file) {
                Err(e) => r == Err::<CastConfig, ConfigError>(e),
                Ok(info) => match self.rpc_url {
                    None => r == Err::<CastConfig, ConfigError>(ConfigError::RpcUrlMissing),
                    Some(url) => r == Ok::<CastConfig, ConfigError>(
                        CastConfig {
                            rpc_url: url,
                            account_info: info,
                            wait_timeout: match self.wait_timeout {
                                Some(t) => t,
                                None => WAIT_TIMEOUT,
                            },
                            wait_retry_interval: match self.wait_retry_interval {
                                Some(t) => t,
                                None => WAIT_RETRY_INTERVAL,
                            },
                        },
                    ),
                },
            },
    {
        let account_info = match AccountInfo::new(self.account, self.keystore, accounts_file) {
            Ok(info) => info,
            Err(e) => {
                return Err(e);
            },
        };
        let rpc_url = match self.rpc_url {
            Some(url) => url,
            None => {
                return Err(ConfigError::RpcUrlMissing);
            },
        };
        Ok(CastConfig {
            rpc_url,
            account_info,
            wait_timeout: match self.wait_timeout {
                Some(t) => t,
                None => WAIT_TIMEOUT,
            },
            wait_retry_interval: match self.wait_retry_interval {
                Some(t) => t,
                None => WAIT_RETRY_INTERVAL,
            },
        })
    }

    /// Builds the configuration, with a leading `~` of the accounts file (or of
    /// the default one) expanded to the home directory.
    pub fn build(self) -> (r: Result<CastConfig, ConfigError>)
        ensures
            (self.keystore is Some && self.account is None) ==> r == Err::<CastConfig, ConfigError>(
                ConfigError::AccountNameMissing,
            ),
            !(self.keystore is Some && self.account is None) && self.rpc_url is None ==> r == Err::<
                CastConfig,
                ConfigError,
            >(ConfigError::RpcUrlMissing),
            r matches Ok(c) ==> {
                &&& self.rpc_url == Some(c.rpc_url)
                &&& c.wait_timeout == match self.wait_timeout {
                    Some(t) => t,
                    None => WAIT_TIMEOUT,
                }
                &&& c.wait_retry_interval == match self.wait_retry_interval {
                    Some(t) => t,
                    None => WAIT_RETRY_INTERVAL,
                }
                &&& match self.keystore {
                    Some(k) => self.account matches Some(a) && c.account_info == AccountInfo::Keystore(
                        KeystoreAccountInfo { account: a, keystore: k },
                    ),
                    None => c.account_info matches AccountInfo::AccountsFile(info) && info.account
                        == self.account && is_tilde_expansion(
                        match self.accounts_file {
                            Some(f) => f@,
                            None => DEFAULT_ACCOUNTS_FILE@,
                        },
                        info.accounts_file@,
                    ),
                }
            },
            r is Ok <==> self.rpc_url is Some && !(self.keystore is Some && self.account is None),
    {
        let file = self.accounts_file_or_default();
        let accounts_file = expand_tilde(file.as_str());
        self.build_with_accounts_file(accounts_file)
    }
}

} // verus!
