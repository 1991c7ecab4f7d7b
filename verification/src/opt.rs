//! What the operator asks for, what is configured, and what is installed.

use crate::ghapi::{GhRepo, Github, Timestamp};
use crate::text::{
    chars_of, count_from, find_char, first_index_from, lemma_count_from_first,
    lemma_first_index_from,
};
use indexmap::IndexMap;
use vstd::prelude::*;
use vstd::string::{StrSliceExecFns, StringExecFns};

verus! {

#[verifier::external_type_specification]
#[verifier::external_body]
#[verifier::reject_recursive_types(K)]
#[verifier::reject_recursive_types(V)]
#[verifier::reject_recursive_types(S)]
pub struct ExIndexMap<K, V, S>(IndexMap<K, V, S>);

/// What kind of thing an application's asset is.
#[non_exhaustive]
#[derive(Debug, Clone, Copy, PartialEq, Eq, Structural)]
pub enum Type {
    Font,
    Executable,
    Configuration,
}

impl Default for Type {
    fn default() -> (r: Type)
        ensures
            r == Type::Executable,
    {
        Type::Executable
    }
}

/// What is wrong with what the operator asked for.
#[derive(Debug, Clone, PartialEq, Eq)]
pub enum OptError {
    /// The kind is none of `exe`, `font`, `config`.
    InvalidType { given: String },
    /// The repository is not written as owner, `/`, name.
    RepoFormat,
    /// The application is not configured, or not on record as installed.
    NotInstalled { name: String },
}

/// What `OptError::message` says of each error.
pub open spec fn error_text(error: OptError) -> Seq<char> {
    match error {
        OptError::InvalidType { given } => "Invalid type `"@ + given@
            + "`, must be one of 'exe', 'font', 'config'."@,
        OptError::RepoFormat => "repo must in format `{owner}/{name}`"@,
        OptError::NotInstalled { name } => name@ + " not installed yet."@,
    }
}

impl OptError {
    /// The error in words, for the operator.
    pub fn message(&self) -> (r: String)
        ensures
            r@ == error_text(*self),
    {
        match self {
            OptError::InvalidType { given } => {
                let mut r = String::from_str("Invalid type `");
                r.append(given.as_str());
                r.append("`, must be one of 'exe', 'font', 'config'.");
                r
            },
            OptError::RepoFormat => String::from_str("repo must in format `{owner}/{name}`"),
            OptError::NotInstalled { name } => {
                let mut r = name.clone();
                r.append(" not installed yet.");
                r
            },
        }
    }
}

/// The kind that a word names.
pub open spec fn type_named(word: Seq<char>) -> Option<Type> {
    if word == "exe"@ {
        Some(Type::Executable)
    } else if word == "font"@ {
        Some(Type::Font)
    } else if word == "config"@ {
        Some(Type::Configuration)
    } else {
        None
    }
}

impl Type {
    /// Reads a kind from its word: `exe`, `font` or `config`. Any other word is refused, and
    /// the error carries it.
    pub fn from_str(s: &str) -> (r: Result<Type, OptError>)
        ensures
            match r {
                Ok(kind) => type_named(s@) == Some(kind),
                Err(error) => {
                    &&& type_named(s@) is None
                    &&& error matches OptError::InvalidType { given }
                    &&& given@ == s@
                },
            },
    {
        if crate::text::str_eq(s, "exe") {
            Ok(Type::Executable)
        } else if crate::text::str_eq(s, "font") {
            Ok(Type::Font)
        } else if crate::text::str_eq(s, "config") {
            Ok(Type::Configuration)
        } else {
            Err(OptError::InvalidType { given: String::from_str(s) })
        }
    }
}

/// A repository reference: an owner and a name.
#[derive(Debug, Clone, PartialEq, Eq)]
pub struct Repo {
    name: String,
    owner: String,
}

impl Default for Repo {
    fn default() -> (r: Repo)
        ensures
            r.name_of() == Seq::<char>::empty(),
            r.owner_of() == Seq::<char>::empty(),
    {
        Repo { name: String::new(), owner: String::new() }
    }
}

impl Repo {
    /// The repository's name.
    pub closed spec fn name_of(&self) -> Seq<char> {
        self.name@
    }

    /// The repository's owner.
    pub closed spec fn owner_of(&self) -> Seq<char> {
        self.owner@
    }

    pub fn new(owner: String, name: String) -> (r: Repo)
        ensures
            r.owner_of() == owner@,
            r.name_of() == name@,
    {
        Repo { name, owner }
    }

    pub fn name(&self) -> (r: &str)
        ensures
            r@ == self.name_of(),
    {
        self.name.as_str()
    }

    pub fn owner(&self) -> (r: &str)
        ensures
            r@ == self.owner_of(),
    {
        self.owner.as_str()
    }

    /// This repository on the feed `gh`.
    pub fn github(&self, gh: Github) -> (r: GhRepo)
        ensures
            r@.api == gh.api@,
            r@.owner == self.owner_of(),
            r@.name == self.name_of(),
    {
        gh.repo(self.owner.clone(), self.name.clone())
    }
}

/// The owner and the name that a repository reference names: what stands before and behind
/// its `/`, where it holds exactly one.
pub open spec fn repo_parts(text: Seq<char>) -> Option<(Seq<char>, Seq<char>)> {
    match first_index_from(text, 0, '/') {
        Some(i) => if first_index_from(text, i + 1, '/') is None {
            Some((text.take(i), text.skip(i + 1)))
        } else {
            None
        },
        None => None,
    }
}

/// A repository reference names an owner and a name exactly when it holds exactly one `/`.
pub proof fn lemma_repo_has_one_slash(text: Seq<char>)
    ensures
        repo_parts(text) is Some <==> count_from(text, 0, '/') == 1,
{
    lemma_count_from_first(text, 0, '/');
    lemma_first_index_from(text, 0, '/');
    if first_index_from(text, 0, '/') is Some {
        let i = first_index_from(text, 0, '/').unwrap();
        lemma_count_from_first(text, i + 1, '/');
    }
}

/// What is to be installed or updated, and how: one run's intent.
#[derive(Debug, Clone, PartialEq, Eq)]
pub struct Options {
    pub name: String,
    pub repo: String,
    pub latest: bool,
    pub version: Option<String>,
    pub asset_name: Option<String>,
    pub allow_prerelease: bool,
    pub after_downloaded: Option<String>,
    pub kind: Type,
    pub unpack: Option<String>,
    pub binname: Option<String>,
    pub app_version: Option<AppVersion>,
}

/// The durable intent for one application.
#[derive(Debug, Clone, PartialEq, Eq)]
pub struct AppConfig {
    pub name: String,
    pub repo: String,
    pub asset_name: String,
    pub allow_prerelease: bool,
    pub after_downloaded: Option<String>,
    pub kind: Type,
    pub unpack: Option<String>,
    pub binname: Option<String>,
}

/// The configuration that a finished run leaves behind.
pub open spec fn config_of(opts: Options) -> AppConfig {
    AppConfig {
        name: opts.name,
        repo: opts.repo,
        asset_name: opts.asset_name.unwrap(),
        allow_prerelease: opts.allow_prerelease,
        after_downloaded: opts.after_downloaded,
        kind: opts.kind,
        unpack: opts.unpack,
        binname: opts.binname,
    }
}

impl Options {
    /// The repository that the run is about. The reference must hold exactly one `/`; the owner
    /// stands before it and the name behind it.
    pub fn repo(&self) -> (r: Result<Repo, OptError>)
        ensures
            match r {
                Ok(repo) => repo_parts(self.repo@) == Some((repo.owner_of(), repo.name_of())),
                Err(error) => repo_parts(self.repo@) is None && error is RepoFormat,
            },
    {
        let text = chars_of(self.repo.as_str());
        match find_char(&text, 0, '/') {
            Some(i) => {
                match find_char(&text, i + 1, '/') {
                    Some(_) => Err(OptError::RepoFormat),
                    None => {
                        let owner = self.repo.as_str().substring_char(0, i);
                        let name = self.repo.as_str().substring_char(i + 1, text.len());
                        Ok(Repo::new(String::from_str(owner), String::from_str(name)))
                    },
                }
            },
            None => Err(OptError::RepoFormat),
        }
    }

    /// The configuration to keep once the run is through and the asset is settled.
    pub fn into_config(self) -> (r: AppConfig)
        requires
            self.asset_name is Some,
        ensures
            r == config_of(self),
    {
        AppConfig {
            name: self.name,
            repo: self.repo,
            asset_name: self.asset_name.unwrap(),
            allow_prerelease: self.allow_prerelease,
            after_downloaded: self.after_downloaded,
            kind: self.kind,
            unpack: self.unpack,
            binname: self.binname,
        }
    }
}

/// The factual record of one installed application.
#[derive(Debug, Clone, PartialEq, Eq)]
pub struct AppVersion {
    pub name: String,
    pub version: String,
    pub files: Vec<String>,
    pub updated_at: Timestamp,
    pub last_latest_at: Option<Timestamp>,
    pub last_releases_at: Option<Timestamp>,
}

/// The record of what is installed, by application name.
#[derive(Debug)]
pub struct AppVersions {
    pub apps: IndexMap<String, AppVersion>,
}

/// The entries of a version ledger, by application name.
pub uninterp spec fn ledger_entries(apps: IndexMap<String, AppVersion>) -> Map<
    Seq<char>,
    AppVersion,
>;

/// Calls `IndexMap::new`: a map without entries.
#[verifier::external_body]
fn ledger_new() -> (apps: IndexMap<String, AppVersion>)
    ensures
        (ledger_entries(apps) == Map::<Seq<char>, AppVersion>::empty()),
{
    IndexMap::new()
}

/// Calls `IndexMap::get` and clones what it finds: the entry stored for `name`, where there is
/// one.
#[verifier::external_body]
fn ledger_get(apps: &IndexMap<String, AppVersion>, name: &str) -> (found: Option<AppVersion>)
    ensures
        found == if ledger_entries(*apps).contains_key(name@) {
            Some(ledger_entries(*apps)[name@])
        } else {
            None
        },
{
    apps.get(name).cloned()
}

/// Calls `IndexMap::insert`: afterwards `name` has the entry `version`, in place of an earlier
/// entry for it, and every other name has what it had.
#[verifier::external_body]
fn ledger_insert(apps: &mut IndexMap<String, AppVersion>, name: String, version: AppVersion)
    ensures
        ledger_entries(*final(apps)) == ledger_entries(*old(apps)).insert(name@, version),
{
    apps.insert(name, version);
}

impl View for AppVersions {
    type V = Map<Seq<char>, AppVersion>;

    open spec fn view(&self) -> Map<Seq<char>, AppVersion> {
        ledger_entries(self.apps)
    }
}

impl AppVersions {
    /// A ledger without entries.
    pub fn new() -> (r: AppVersions)
        ensures
            r@ == Map::<Seq<char>, AppVersion>::empty(),
    {
        AppVersions { apps: ledger_new() }
    }

    /// What is on record for `name`, where it is installed.
    pub fn get(&self, name: &str) -> (found: Option<AppVersion>)
        ensures
            found == if self@.contains_key(name@) {
                Some(self@[name@])
            } else {
                None
            },
    {
        ledger_get(&self.apps, name)
    }

    /// Puts `version` on record for `name`, in place of what was on record for it.
    pub fn insert(&mut self, name: String, version: AppVersion)
        ensures
            final(self)@ == old(self)@.insert(name@, version),
    {
        ledger_insert(&mut self.apps, name, version);
    }
}

/// The durable intent, by application name.
#[derive(Debug)]
pub struct Config {
    pub apps: IndexMap<String, AppConfig>,
}

/// The entries of a configuration, by application name.
pub uninterp spec fn config_entries(apps: IndexMap<String, AppConfig>) -> Map<Seq<char>, AppConfig>;

/// Calls `IndexMap::new`: a map without entries.
#[verifier::external_body]
fn config_new() -> (apps: IndexMap<String, AppConfig>)
    ensures
        (config_entries(apps) == Map::<Seq<char>, AppConfig>::empty()),
{
    IndexMap::new()
}

/// Calls `IndexMap::get` and clones what it finds: the entry stored for `name`, where there is
/// one.
#[verifier::external_body]
fn config_get(apps: &IndexMap<String, AppConfig>, name: &str) -> (found: Option<AppConfig>)
    ensures
        found == if config_entries(*apps).contains_key(name@) {
            Some(config_entries(*apps)[name@])
        } else {
            None
        },
{
    apps.get(name).cloned()
}

/// Calls `IndexMap::insert`: afterwards `name` has the entry `config`, in place of an earlier
/// entry for it, and every other name has what it had.
#[verifier::external_body]
fn config_insert(apps: &mut IndexMap<String, AppConfig>, name: String, config: AppConfig)
    ensures
        config_entries(*final(apps)) == config_entries(*old(apps)).insert(name@, config),
{
    apps.insert(name, config);
}

impl View for Config {
    type V = Map<Seq<char>, AppConfig>;

    open spec fn view(&self) -> Map<Seq<char>, AppConfig> {
        config_entries(self.apps)
    }
}

impl Config {
    /// A configuration without entries.
    pub fn new() -> (r: Config)
        ensures
            r@ == Map::<Seq<char>, AppConfig>::empty(),
    {
        Config { apps: config_new() }
    }

    /// What is configured for `name`, where anything is.
    pub fn get(&self, name: &str) -> (found: Option<AppConfig>)
        ensures
            found == if self@.contains_key(name@) {
                Some(self@[name@])
            } else {
                None
            },
    {
        config_get(&self.apps, name)
    }

    /// Configures `name` as `config` says, in place of what was configured for it.
    pub fn insert(&mut self, name: String, config: AppConfig)
        ensures
            final(self)@ == old(self)@.insert(name@, config),
    {
        config_insert(&mut self.apps, name, config);
    }
}

/// What the operator asks the program to do.
#[non_exhaustive]
#[allow(inconsistent_fields)]
#[derive(Debug, Clone, PartialEq, Eq)]
pub enum Commands {
    Install {
        name: String,
        version: Option<String>,
        repo: String,
        latest: bool,
        asset_name: Option<String>,
        allow_prerelease: bool,
        after_downloaded: Option<String>,
        kind: Type,
        unpack: Option<String>,
        binname: Option<String>,
    },
    Update {
        name: String,
        version: Option<String>,
        asset_name: Option<String>,
        repo: Option<String>,
        allow_prerelease: bool,
        after_downloaded: Option<String>,
    },
    Upgrade { allow_prerelease: bool },
}

/// The command line: a command, and the configuration file where one is named.
#[derive(Debug, Clone, PartialEq, Eq)]
pub struct Cli {
    pub command: Commands,
    pub config: Option<String>,
}

/// `given` where the operator gave it, else what is configured.
pub open spec fn given_or(given: Option<String>, configured: String) -> String {
    match given {
        Some(text) => text,
        None => configured,
    }
}

/// The run that a command asks for, if any. An installation runs as asked. An update runs on
/// what is configured and on record for the application, as far as the command says nothing
/// else, and is refused for an application that is not configured or not on record. An upgrade
/// of everything asks for no run.
pub open spec fn planned(
    command: Commands,
    config: Map<Seq<char>, AppConfig>,
    ledger: Map<Seq<char>, AppVersion>,
) -> Result<Option<Options>, OptError> {
    match command {
        Commands::Install {
            name,
            version,
            repo,
            latest,
            asset_name,
            allow_prerelease,
            after_downloaded,
            kind,
            unpack,
            binname,
        } => Ok(
            Some(
                Options {
                    name,
                    repo,
                    latest,
                    version,
                    asset_name,
                    allow_prerelease,
                    after_downloaded,
                    kind,
                    unpack,
                    binname,
                    app_version: None,
                },
            ),
        ),
        Commands::Update { name, version, asset_name, repo, allow_prerelease, after_downloaded } => {
            if config.contains_key(name@) && ledger.contains_key(name@) {
                let configured = config[name@];
                Ok(
                    Some(
                        Options {
                            name,
                            repo: given_or(repo, configured.repo),
                            latest: version is None,
                            version,
                            asset_name: Some(given_or(asset_name, configured.asset_name)),
                            allow_prerelease: allow_prerelease || configured.allow_prerelease,
                            after_downloaded: if after_downloaded is Some {
                                after_downloaded
                            } else {
                                configured.after_downloaded
                            },
                            kind: configured.kind,
                            unpack: configured.unpack,
                            binname: configured.binname,
                            app_version: Some(ledger[name@]),
                        },
                    ),
                )
            } else {
                Err(OptError::NotInstalled { name })
            }
        },
        Commands::Upgrade { allow_prerelease } => Ok(None),
    }
}

/// Settles what a command asks for, against what is configured and what is on record.
pub fn plan(command: Commands, config: &Config, versions: &AppVersions) -> (r: Result<
    Option<Options>,
    OptError,
>)
    ensures
        r == planned(command, config@, versions@),
{
    match command {
        Commands::Install {
            name,
            version,
            repo,
            latest,
            asset_name,
            allow_prerelease,
            after_downloaded,
            kind,
            unpack,
            binname,
        } => Ok(
            Some(
                Options {
                    name,
                    repo,
                    latest,
                    version,
                    asset_name,
                    allow_prerelease,
                    after_downloaded,
                    kind,
                    unpack,
                    binname,
                    app_version: None,
                },
            ),
        ),
        Commands::Update { name, version, asset_name, repo, allow_prerelease, after_downloaded } => {
            let configured = match config.get(name.as_str()) {
                Some(configured) => configured,
                None => {
                    return Err(OptError::NotInstalled { name });
                },
            };
            let installed = match versions.get(name.as_str()) {
                Some(installed) => installed,
                None => {
                    return Err(OptError::NotInstalled { name });
                },
            };
            let repo = match repo {
                Some(repo) => repo,
                None => configured.repo,
            };
            let asset_name = match asset_name {
                Some(asset_name) => asset_name,
                None => configured.asset_name,
            };
            let after_downloaded = match after_downloaded {
                Some(hook) => Some(hook),
                None => configured.after_downloaded,
            };
            let latest = version.is_none();
            Ok(
                Some(
                    Options {
                        name,
                        repo,
                        latest,
                        version,
                        asset_name: Some(asset_name),
                        allow_prerelease: allow_prerelease || configured.allow_prerelease,
                        after_downloaded,
                        kind: configured.kind,
                        unpack: configured.unpack,
                        binname: configured.binname,
                        app_version: Some(installed),
                    },
                ),
            )
        },
        Commands::Upgrade { allow_prerelease } => Ok(None),
    }
}

/// Keeps the outcome of a finished run: the application's configuration and its record, both
/// under the application's name. Where every application on record was configured before, it
/// is so afterwards.
pub fn record(config: &mut Config, versions: &mut AppVersions, app: AppConfig, installed: AppVersion)
    ensures
        final(config)@ == old(config)@.insert(app.name@, app),
        final(versions)@ == old(versions)@.insert(app.name@, installed),
        old(versions)@.dom().subset_of(old(config)@.dom()) ==> final(versions)@.dom().subset_of(
            final(config)@.dom(),
        ),
{
    let name = app.name.clone();
    let key = app.name.clone();
    versions.insert(name, installed);
    config.insert(key, app);
}

} // verus!
