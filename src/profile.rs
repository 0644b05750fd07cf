//! A new profile for the command-line tool's section of the project manifest.
use crate::config::CastConfigBuilder;
use vstd::prelude::*;

verus! {

#[verifier::external_type_specification]
#[verifier::external_body]
pub struct ExTomlSerError(toml::ser::Error);

/// The final component of a path without its extension, if it has a file name.
pub uninterp spec fn path_file_stem(path: Seq<char>) -> Option<Seq<char>>;

/// The TOML document that holds `entries` as string values of the table
/// reached through the keys of `path`.
pub uninterp spec fn nested_table_toml(
    path: Seq<Seq<char>>,
    entries: Seq<(Seq<char>, Seq<char>)>,
) -> Seq<char>;

/// Relies on `camino::Utf8Path::file_stem`: the result depends on the path
/// alone, and an empty path has no file name.
#[verifier::external_body]
fn file_stem(path: &str) -> (r: Option<String>)
    ensures
        match r {
            Some(s) => path_file_stem(path@) == Some(s@),
            None => path_file_stem(path@) is None,
        },
        path@.len() == 0 ==> r is None,
{
    camino::Utf8Path::new(path).file_stem().map(|s| s.to_string())
}

/// Relies on `toml::to_string` of a `toml::Value::Table`: the document depends
/// on the keys and values alone.
#[verifier::external_body]
fn nested_table_text(path: &Vec<String>, entries: &Vec<(String, String)>) -> (r: Result<
    String,
    toml::ser::Error,
>)
    ensures
        r matches Ok(s) ==> s@ == nested_table_toml(strings(path@), pairs(entries@)),
{
    let mut table = toml::value::Table::new();
    for (k, v) in entries {
        table.insert(k.clone(), toml::Value::String(v.clone()));
    }
    for key in path.iter().rev() {
        let mut outer = toml::value::Table::new();
        outer.insert(key.clone(), toml::Value::Table(table));
        table = outer;
    }
    toml::to_string(&toml::Value::Table(table))
}

pub open spec fn strings(v: Seq<String>) -> Seq<Seq<char>> {
    v.map_values(|s: String| s@)
}

pub open spec fn pairs(v: Seq<(String, String)>) -> Seq<(Seq<char>, Seq<char>)> {
    v.map_values(|p: (String, String)| (p.0@, p.1@))
}

/// Why a profile could not be added.
pub enum ProfileError {
    /// The manifest already has a profile with an account under this name.
    AlreadyExists(String),
    /// The profile could not be written as TOML.
    Serialization,
}

impl ProfileError {
    /// The message shown to the user.
    pub fn message(&self) -> (r: String)
        ensures
            r@ == match *self {
                ProfileError::AlreadyExists(name) => "Failed to add profile = "@ + name@
                    + " to the Scarb.toml. Profile already exists"@,
                ProfileError::Serialization => "Failed to convert toml to string"@,
            },
    {
        match self {
            ProfileError::AlreadyExists(name) => String::from_str("Failed to add profile = ").concat(
                name.as_str(),
            ).concat(" to the Scarb.toml. Profile already exists"),
            ProfileError::Serialization => String::from_str("Failed to convert toml to string"),
        }
    }
}

pub open spec fn text_or_empty(s: Option<String>) -> Seq<char> {
    match s {
        Some(t) => t@,
        None => Seq::empty(),
    }
}

/// The settings a new profile records: the url and the account, then the
/// keystore when there is one, else the accounts file.
pub open spec fn profile_entries(config: CastConfigBuilder) -> Seq<(Seq<char>, Seq<char>)> {
    seq![("url"@, text_or_empty(config.rpc_url)), ("account"@, text_or_empty(config.account))]
        + match config.keystore {
        Some(k) => seq![("keystore"@, k@)],
        None => seq![("accounts-file"@, text_or_empty(config.accounts_file))],
    }
}

/// The new profile is named after the file stem of the account, or after the
/// account itself when that has no file name.
pub open spec fn created_profile_name(config: CastConfigBuilder) -> Seq<char> {
    match path_file_stem(text_or_empty(config.account)) {
        Some(stem) => stem,
        None => text_or_empty(config.account),
    }
}

/// The keys of the table that holds the new profile.
pub open spec fn profile_table_path(name: Seq<char>) -> Seq<Seq<char>> {
    seq!["tool"@, "sncast"@, name]
}

fn copy_or_empty(s: &Option<String>) -> (r: String)
    ensures
        r@ == text_or_empty(*s),
{
    match s {
        Some(t) => t.clone(),
        None => String::new(),
    }
}

/// The entries of the new profile, in order.
pub fn new_profile_entries(config: &CastConfigBuilder) -> (r: Vec<(String, String)>)
    ensures
        pairs(r@) == profile_entries(*config),
{
    let mut r: Vec<(String, String)> = Vec::new();
    r.push((String::from_str("url"), copy_or_empty(&config.rpc_url)));
    r.push((String::from_str("account"), copy_or_empty(&config.account)));
    match &config.keystore {
        Some(k) => r.push((String::from_str("keystore"), k.clone())),
        None => r.push((String::from_str("accounts-file"), copy_or_empty(&config.accounts_file))),
    }
    assert(pairs(r@) =~= profile_entries(*config));
    r
}

/// The name of the new profile.
pub fn profile_name(config: &CastConfigBuilder) -> (r: String)
    ensures
        r@ == created_profile_name(*config),
{
    let account = copy_or_empty(&config.account);
    match file_stem(account.as_str()) {
        Some(stem) => stem,
        None => account,
    }
}

/// The text appended to the manifest for a profile made from `config`:
/// a line break, then the TOML of the `tool.sncast.<name>` table. Refused when
/// `profile_exists`, that is when the manifest's `tool.sncast` table already
/// has an entry named after the account, with an account in it.
pub fn created_profile_text(config: &CastConfigBuilder, profile_exists: bool) -> (r: Result<
    String,
    ProfileError,
>)
    ensures
        profile_exists ==> (r matches Err(ProfileError::AlreadyExists(name)) && name@
            == text_or_empty(config.account)),
        !profile_exists ==> match r {
            Ok(s) => s@ == "\n"@ + nested_table_toml(
                profile_table_path(created_profile_name(*config)),
                profile_entries(*config),
            ),
            Err(e) => e is Serialization,
        },
{
    if profile_exists {
        return Err(ProfileError::AlreadyExists(copy_or_empty(&config.account)));
    }
    let entries = new_profile_entries(config);
    let path = vec![String::from_str("tool"), String::from_str("sncast"), profile_name(config)];
    assert(strings(path@) =~= profile_table_path(created_profile_name(*config)));
    match nested_table_text(&path, &entries) {
        Ok(text) => Ok(String::from_str("\n").concat(text.as_str())),
        Err(_) => Err(ProfileError::Serialization),
    }
}

} // verus!
