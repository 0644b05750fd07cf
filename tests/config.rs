use snforge_scarb_plugin::show_config::show_config;
use snforge_scarb_plugin::commands::{value_format, Account, Commands, ShowConfig, ValueFormat};
use snforge_scarb_plugin::config::{
    AccountInfo, CastConfigBuilder, ConfigError, DEFAULT_ACCOUNTS_FILE, WAIT_RETRY_INTERVAL,
    WAIT_TIMEOUT,
};

fn empty() -> CastConfigBuilder {
    CastConfigBuilder {
        rpc_url: None,
        account: None,
        accounts_file: None,
        keystore: None,
        wait_timeout: None,
        wait_retry_interval: None,
    }
}

#[test]
fn merge_prefers_first() {
    let a = CastConfigBuilder {
        rpc_url: Some("http://a".to_string()),
        wait_timeout: Some(10),
        ..empty()
    };
    let b = CastConfigBuilder {
        rpc_url: Some("http://b".to_string()),
        account: Some("user".to_string()),
        wait_timeout: Some(20),
        wait_retry_interval: Some(3),
        ..empty()
    };
    let m = a.merge(b);
    assert_eq!(m.rpc_url.as_deref(), Some("http://a"));
    assert_eq!(m.account.as_deref(), Some("user"));
    assert_eq!(m.wait_timeout, Some(10));
    assert_eq!(m.wait_retry_interval, Some(3));
    assert_eq!(m.keystore, None);
}

#[test]
fn build_uses_defaults() {
    let b = CastConfigBuilder { rpc_url: Some("http://a".to_string()), ..empty() };
    let c = b.build_with_accounts_file("/tmp/accounts.json".to_string()).unwrap();
    assert_eq!(c.rpc_url, "http://a");
    assert_eq!(c.wait_timeout, WAIT_TIMEOUT);
    assert_eq!(c.wait_retry_interval, WAIT_RETRY_INTERVAL);
    assert_eq!(c.wait_timeout, 60);
    assert_eq!(c.wait_retry_interval, 5);
    let info = c.account_info.as_accounts_file().unwrap();
    assert_eq!(info.accounts_file, "/tmp/accounts.json");
    assert_eq!(info.account, None);
    assert_eq!(c.account_info.as_keystore().err(), Some(ConfigError::KeystoreNotDefined));
}

#[test]
fn build_without_url_fails() {
    let b = CastConfigBuilder { account: Some("user".to_string()), ..empty() };
    let e = b.build().err().unwrap();
    assert_eq!(e, ConfigError::RpcUrlMissing);
    assert_eq!(e.message(), "RPC url not passed nor found in Scarb.toml");
}

#[test]
fn keystore_needs_account() {
    let b = CastConfigBuilder { keystore: Some("/k.json".to_string()), ..empty() };
    let e = b.build().err().unwrap();
    assert_eq!(e, ConfigError::AccountNameMissing);
    assert_eq!(e.message(), "Account name not passed nor found in Scarb.toml");
}

#[test]
fn keystore_account() {
    let b = CastConfigBuilder {
        rpc_url: Some("http://a".to_string()),
        account: Some("/acc.json".to_string()),
        keystore: Some("/k.json".to_string()),
        wait_timeout: Some(7),
        ..empty()
    };
    let c = b.build().unwrap();
    assert_eq!(c.wait_timeout, 7);
    let info = c.account_info.as_keystore().unwrap();
    assert_eq!(info.account, "/acc.json");
    assert_eq!(info.keystore, "/k.json");
    assert_eq!(c.account_info.account_name().as_deref(), Some("/acc.json"));
    assert_eq!(c.account_info.as_accounts_file().err(), Some(ConfigError::AccountsFileNotDefined));
}

#[test]
fn accounts_file_keeps_plain_path() {
    let b = CastConfigBuilder {
        rpc_url: Some("http://a".to_string()),
        account: Some("user".to_string()),
        accounts_file: Some("/data/accounts.json".to_string()),
        ..empty()
    };
    let c = b.build().unwrap();
    assert_eq!(c.account_info.as_accounts_file().unwrap().accounts_file, "/data/accounts.json");
    assert_eq!(c.account_info.account_name().as_deref(), Some("user"));
}

#[test]
fn default_accounts_file_is_expanded() {
    let b = CastConfigBuilder { rpc_url: Some("http://a".to_string()), ..empty() };
    assert_eq!(b.accounts_file_or_default(), DEFAULT_ACCOUNTS_FILE);
    let c = b.build().unwrap();
    let file = c.account_info.as_accounts_file().unwrap().accounts_file.clone();
    assert!(file.ends_with("/.starknet_accounts/starknet_open_zeppelin_accounts.json"));
    assert!(!file.starts_with('~'));
}

#[test]
fn account_info_constructors() {
    let a = AccountInfo::new(None, None, "/f".to_string()).unwrap();
    assert_eq!(a.account_name(), None);
    let k = AccountInfo::new(Some("/a".to_string()), Some("/k".to_string()), "/f".to_string()).unwrap();
    assert_eq!(k.as_keystore().unwrap().keystore, "/k");
    assert_eq!(
        AccountInfo::new(None, Some("/k".to_string()), "/f".to_string()).err(),
        Some(ConfigError::AccountNameMissing)
    );
}

#[test]
fn commands_hold_subcommand() {
    let a = Account { command: Commands::Create };
    assert_eq!(a.command, Commands::Create);
    let _ = ShowConfig {};
}

#[test]
fn show_config_reports_accounts_file() {
    let b = CastConfigBuilder {
        rpc_url: Some("http://a".to_string()),
        account: Some("user".to_string()),
        wait_retry_interval: Some(9),
        ..empty()
    };
    let c = b.build_with_accounts_file("/accounts.json".to_string()).unwrap();
    let r = show_config(c, Some("dev".to_string()), None, "alpha-sepolia".to_string());
    assert_eq!(r.profile.as_deref(), Some("dev"));
    assert_eq!(r.chain_id, "alpha-sepolia");
    assert_eq!(r.rpc_url, "http://a");
    assert_eq!(r.account.as_deref(), Some("user"));
    assert_eq!(r.accounts_file_path.as_deref(), Some("/accounts.json"));
    assert_eq!(r.keystore, None);
    assert_eq!(r.scarb_path, None);
    assert_eq!(r.wait_timeout, 60);
    assert_eq!(r.wait_retry_interval, 9);
}

#[test]
fn show_config_reports_keystore() {
    let b = CastConfigBuilder {
        rpc_url: Some("http://a".to_string()),
        account: Some("/acc.json".to_string()),
        keystore: Some("/k.json".to_string()),
        ..empty()
    };
    let c = b.build_with_accounts_file("/unused.json".to_string()).unwrap();
    let r = show_config(c, None, Some("/p/Scarb.toml".to_string()), "mainnet".to_string());
    assert_eq!(r.account.as_deref(), Some("/acc.json"));
    assert_eq!(r.accounts_file_path, None);
    assert_eq!(r.keystore.as_deref(), Some("/k.json"));
    assert_eq!(r.scarb_path.as_deref(), Some("/p/Scarb.toml"));
}

#[test]
fn value_format_flags() {
    assert_eq!(value_format(false, true), ValueFormat::Hex);
    assert_eq!(value_format(true, false), ValueFormat::Int);
    assert_eq!(value_format(false, false), ValueFormat::Default);
}
