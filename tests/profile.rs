use snforge_scarb_plugin::config::CastConfigBuilder;
use snforge_scarb_plugin::profile::{
    created_profile_text, new_profile_entries, profile_name, ProfileError,
};

fn builder(account: &str) -> CastConfigBuilder {
    CastConfigBuilder {
        rpc_url: Some(String::from("http://some-url")),
        account: Some(String::from(account)),
        accounts_file: Some("accounts".to_string()),
        keystore: None,
        wait_timeout: None,
        wait_retry_interval: None,
    }
}

#[test]
fn created_profile_happy_case() {
    let text = created_profile_text(&builder("some-name"), false).ok().unwrap();
    assert!(text.starts_with('\n'));
    assert!(text.contains("[tool.sncast.some-name]"));
    assert!(text.contains("account = \"some-name\""));
    assert!(text.contains("url = \"http://some-url\""));
    assert!(text.contains("accounts-file = \"accounts\""));
    assert!(!text.contains("keystore"));
}

#[test]
fn created_profile_already_exists() {
    let err = created_profile_text(&builder("myprofile"), true).err().unwrap();
    assert!(matches!(&err, ProfileError::AlreadyExists(name) if name == "myprofile"));
    assert_eq!(
        err.message(),
        "Failed to add profile = myprofile to the Scarb.toml. Profile already exists"
    );
}

#[test]
fn keystore_profile_records_keystore() {
    let mut b = builder("/home/me/accounts/deployer.json");
    b.keystore = Some("/home/me/keystore.json".to_string());
    let entries = new_profile_entries(&b);
    let keys: Vec<&str> = entries.iter().map(|(k, _)| k.as_str()).collect();
    assert_eq!(keys, vec!["url", "account", "keystore"]);
    assert_eq!(entries[2].1, "/home/me/keystore.json");
    assert_eq!(profile_name(&b), "deployer");
    let text = created_profile_text(&b, false).ok().unwrap();
    assert!(text.contains("[tool.sncast.deployer]"));
    assert!(text.contains("keystore = \"/home/me/keystore.json\""));
}

#[test]
fn missing_settings_are_empty_strings() {
    let b = CastConfigBuilder {
        rpc_url: None,
        account: None,
        accounts_file: None,
        keystore: None,
        wait_timeout: None,
        wait_retry_interval: None,
    };
    let entries = new_profile_entries(&b);
    assert_eq!(
        entries,
        vec![
            ("url".to_string(), String::new()),
            ("account".to_string(), String::new()),
            ("accounts-file".to_string(), String::new()),
        ]
    );
    assert_eq!(profile_name(&b), "");
}
