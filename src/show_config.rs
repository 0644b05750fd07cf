//! The report of the configuration in use.
use crate::config::{AccountInfo, CastConfig};
use vstd::prelude::*;

verus! {

/// The configuration in use, as reported to the user.
pub struct ShowConfigResponse {
    pub profile: Option<String>,
    pub chain_id: String,
    pub rpc_url: String,
    pub account: Option<String>,
    pub scarb_path: Option<String>,
    pub accounts_file_path: Option<String>,
    pub keystore: Option<String>,
    pub wait_timeout: u16,
    pub wait_retry_interval: u8,
}

/// Reports `cast_config` for the network named `chain_id`: the accounts file
/// or the keystore, whichever the account is read from, and the account's name.
pub fn show_config(
    cast_config: CastConfig,
    profile: Option<String>,
    scarb_path: Option<String>,
    chain_id: String,
) -> (r: ShowConfigResponse)
    ensures
        r == (ShowConfigResponse {
            profile,
            chain_id,
            rpc_url: cast_config.rpc_url,
            account: match cast_config.account_info {
                AccountInfo::AccountsFile(info) => info.account,
                AccountInfo::Keystore(info) => Some(info.account),
            },
            scarb_path,
            accounts_file_path: match cast_config.account_info {
                AccountInfo::AccountsFile(info) => Some(info.accounts_file),
                AccountInfo::Keystore(_) => None,
            },
            keystore: match cast_config.account_info {
                AccountInfo::Keystore(info) => Some(info.keystore),
                AccountInfo::AccountsFile(_) => None,
            },
            wait_timeout: cast_config.wait_timeout,
            wait_retry_interval: cast_config.wait_retry_interval,
        }),
{
    let accounts_file_path = match cast_config.account_info.as_accounts_file() {
        Ok(info) => Some(info.accounts_file.clone()),
        Err(_) => None,
    };
    let keystore = match cast_config.account_info.as_keystore() {
        Ok(info) => Some(info.keystore.clone()),
        Err(_) => None,
    };
    let account = cast_config.account_info.account_name();
    ShowConfigResponse {
        profile,
        chain_id,
        rpc_url: cast_config.rpc_url,
        account,
        scarb_path,
        accounts_file_path,
        keystore,
        wait_timeout: cast_config.wait_timeout,
        wait_retry_interval: cast_config.wait_retry_interval,
    }
}

} // verus!
