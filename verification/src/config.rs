//! Configuration schema and defaults, the locations of the files kept under
//! the user's configuration directory, and the resolution of API credentials
//! from the command line, the environment and the configuration file.
use vstd::prelude::*;

use crate::errors::BinanceError;

verus! {

/// Default Binance API host.
pub const DEFAULT_HOST: &'static str = "https://api.binance.com";

/// Environment variable names for credential override.
pub const ENV_API_KEY: &'static str = "BINANCE_API_KEY";

pub const ENV_API_SECRET: &'static str = "BINANCE_API_SECRET";

/// The error text when no source holds a complete key pair.
pub const MISSING_CREDENTIALS: &'static str = "No API credentials found. Set via:\n  1. CLI flags: --api-key, --api-secret\n  2. Environment: BINANCE_API_KEY, BINANCE_API_SECRET\n  3. Config: binance auth set --api-key KEY --api-secret SECRET";

/// The error text when the platform has no configuration directory.
pub const NO_CONFIG_DIR: &'static str = "Cannot determine config directory";

/// Configuration file schema.
#[derive(Debug)]
pub struct Config {
    pub auth: AuthConfig,
    pub settings: SettingsConfig,
}

#[derive(Debug)]
pub struct AuthConfig {
    pub api_key: Option<String>,
    pub api_secret: Option<String>,
}

#[derive(Debug)]
pub struct SettingsConfig {
    pub output: String,
    pub host: String,
    pub default_pair: Option<String>,
}

/// The default output format name.
pub fn default_output() -> (r: String)
    ensures
        r@ == "table"@,
{
    String::from_str("table")
}

/// The default API host.
pub fn default_host() -> (r: String)
    ensures
        r@ == DEFAULT_HOST@,
{
    String::from_str(DEFAULT_HOST)
}

impl Default for AuthConfig {
    fn default() -> (r: Self)
        ensures
            r.api_key is None,
            r.api_secret is None,
    {
        AuthConfig { api_key: None, api_secret: None }
    }
}

impl Default for SettingsConfig {
    fn default() -> (r: Self)
        ensures
            r.output@ == "table"@,
            r.host@ == DEFAULT_HOST@,
            r.default_pair is None,
    {
        SettingsConfig { output: default_output(), host: default_host(), default_pair: None }
    }
}

impl Default for Config {
    fn default() -> (r: Self)
        ensures
            r.auth.api_key is None,
            r.auth.api_secret is None,
            r.settings.output@ == "table"@,
            r.settings.host@ == DEFAULT_HOST@,
            r.settings.default_pair is None,
    {
        Config { auth: AuthConfig::default(), settings: SettingsConfig::default() }
    }
}


/// `name` placed inside the directory `dir`, with `sep` the platform's
/// path separator: a separator is put between them unless `dir` is empty or
/// already ends with one (as `Path::join` does for a relative name).
pub open spec fn path_in(dir: Seq<char>, sep: char, name: Seq<char>) -> Seq<char> {
    if dir.len() == 0 {
        name
    } else if dir.last() == sep {
        dir + name
    } else {
        dir + seq![sep] + name
    }
}

/// The application's directory inside a platform configuration directory.
pub open spec fn app_dir(base: Seq<char>, sep: char) -> Seq<char> {
    path_in(base, sep, "binance"@)
}

/// The text of `name` placed inside the directory `dir`, with `sep` the
/// platform's path separator.
pub fn join_path(dir: &str, sep: char, name: &str) -> (r: String)
    ensures
        r@ == path_in(dir@, sep, name@),
{
    let n = dir.unicode_len();
    let mut s = String::from_str(dir);
    if n > 0 && dir.get_char(n - 1) != sep {
        crate::text::push_char(&mut s, sep);
    }
    s.append(name);
    s
}

/// Reads `std::path::MAIN_SEPARATOR`, the primary path separator of the
/// platform (such as '/' on Unix and '\\' on Windows). It depends on the
/// platform, so nothing is promised of it.
#[verifier::external_body]
fn path_separator() -> char {
    std::path::MAIN_SEPARATOR
}

/// Calls `dirs::config_dir`. The platform configuration directory depends
/// on the environment, so nothing is promised of it; a directory whose
/// name is not valid Unicode is reported as absent.
#[verifier::external_body]
fn platform_config_dir() -> Option<String> {
    match dirs::config_dir() {
        Some(p) => p.into_os_string().into_string().ok(),
        None => None,
    }
}

impl Config {
    /// The application's directory inside the given platform configuration
    /// directory, or the configuration error when there is none.
    pub fn config_dir_in(base: Option<String>, sep: char) -> (r: Result<String, BinanceError>)
        ensures
            match base {
                Some(b) => r matches Ok(d) && d@ == app_dir(b@, sep),
                None => r matches Err(BinanceError::Config(m)) && m@ == NO_CONFIG_DIR@,
            },
    {
        match base {
            Some(b) => Ok(join_path(b.as_str(), sep, "binance")),
            None => Err(BinanceError::Config(String::from_str(NO_CONFIG_DIR))),
        }
    }

    /// Returns the config directory: `~/.config/binance`.
    pub fn config_dir() -> (r: Result<String, BinanceError>)
        ensures
            r matches Ok(d) ==> exists|b: Seq<char>, sep: char| d@ == app_dir(b, sep),
            r matches Err(e) ==> e matches BinanceError::Config(m) && m@ == NO_CONFIG_DIR@,
    {
        Self::config_dir_in(platform_config_dir(), path_separator())
    }

    /// The file `name` inside the application's directory of the given
    /// platform configuration directory, or the configuration error when
    /// there is none.
    pub fn config_file_in(base: Option<String>, sep: char, name: &str) -> (r: Result<String, BinanceError>)
        ensures
            match base {
                Some(b) => r matches Ok(p) && p@ == path_in(app_dir(b@, sep), sep, name@),
                None => r matches Err(BinanceError::Config(m)) && m@ == NO_CONFIG_DIR@,
            },
    {
        match Self::config_dir_in(base, sep) {
            Ok(d) => Ok(join_path(d.as_str(), sep, name)),
            Err(e) => Err(e),
        }
    }

    /// Returns the config file path: `~/.config/binance/config.toml`.
    pub fn config_path() -> (r: Result<String, BinanceError>)
        ensures
            r matches Ok(p) ==> exists|b: Seq<char>, sep: char| p@ == path_in(app_dir(b, sep), sep, "config.toml"@),
            r matches Err(e) ==> e matches BinanceError::Config(m) && m@ == NO_CONFIG_DIR@,
    {
        Self::config_file_in(platform_config_dir(), path_separator(), "config.toml")
    }

    /// Returns the shell history file path: `~/.config/binance/history`.
    pub fn history_path() -> (r: Result<String, BinanceError>)
        ensures
            r matches Ok(p) ==> exists|b: Seq<char>, sep: char| p@ == path_in(app_dir(b, sep), sep, "history"@),
            r matches Err(e) ==> e matches BinanceError::Config(m) && m@ == NO_CONFIG_DIR@,
    {
        Self::config_file_in(platform_config_dir(), path_separator(), "history")
    }

    /// Returns the paper trading state file path:
    /// `~/.config/binance/paper_state.json`.
    pub fn paper_state_path() -> (r: Result<String, BinanceError>)
        ensures
            r matches Ok(p) ==> exists|b: Seq<char>, sep: char| p@ == path_in(app_dir(b, sep), sep, "paper_state.json"@),
            r matches Err(e) ==> e matches BinanceError::Config(m) && m@ == NO_CONFIG_DIR@,
    {
        Self::config_file_in(platform_config_dir(), path_separator(), "paper_state.json")
    }
}

/// Law: for any platform configuration directory and separator, the
/// configuration file, the shell history and the paper trading state are
/// three different files of the one application directory.
pub proof fn law_state_files_are_distinct(base: Seq<char>, sep: char)
    ensures
        path_in(app_dir(base, sep), sep, "config.toml"@) != path_in(app_dir(base, sep), sep, "history"@),
        path_in(app_dir(base, sep), sep, "config.toml"@) != path_in(app_dir(base, sep), sep, "paper_state.json"@),
        path_in(app_dir(base, sep), sep, "history"@) != path_in(app_dir(base, sep), sep, "paper_state.json"@),
{
    reveal_strlit("config.toml");
    reveal_strlit("history");
    reveal_strlit("paper_state.json");
    let d = app_dir(base, sep);
    assert(path_in(d, sep, "config.toml"@).len() != path_in(d, sep, "history"@).len());
    assert(path_in(d, sep, "config.toml"@).len() != path_in(d, sep, "paper_state.json"@).len());
    assert(path_in(d, sep, "history"@).len() != path_in(d, sep, "paper_state.json"@).len());
}

/// Resolved credentials from multiple sources.
/// Priority: CLI flags, then environment variables, then the config file.
#[derive(Debug)]
pub struct Credentials {
    pub api_key: String,
    pub api_secret: String,
}

impl Clone for Credentials {
    fn clone(&self) -> (r: Self)
        ensures
            r == *self,
    {
        Credentials { api_key: self.api_key.clone(), api_secret: self.api_secret.clone() }
    }
}

/// The credential sources other than the command line: the two environment
/// variables, and the `[auth]` section of the config file, or the error met
/// loading that file.
#[derive(Debug)]
pub struct CredentialSources {
    pub env_key: Option<String>,
    pub env_secret: Option<String>,
    pub file: Result<AuthConfig, BinanceError>,
}

/// Whether both halves of a key pair are present.
pub open spec fn complete<A, B>(key: Option<A>, secret: Option<B>) -> bool {
    key is Some && secret is Some
}

/// Whether `r` is what credential resolution gives for these sources: the
/// first complete pair among the command line, the environment and the
/// config file; the error met loading the config file when that source is
/// reached; otherwise the authentication error listing the three sources.
pub open spec fn resolves_to(
    cli_key: Option<Seq<char>>,
    cli_secret: Option<Seq<char>>,
    sources: CredentialSources,
    r: Result<Credentials, BinanceError>,
) -> bool {
    if complete(cli_key, cli_secret) {
        r matches Ok(c) && c.api_key@ == cli_key.unwrap() && c.api_secret@ == cli_secret.unwrap()
    } else if complete(sources.env_key, sources.env_secret) {
        r matches Ok(c) && c.api_key == sources.env_key.unwrap() && c.api_secret
            == sources.env_secret.unwrap()
    } else {
        match sources.file {
            Err(e) => r == Err::<Credentials, BinanceError>(e),
            Ok(auth) => if complete(auth.api_key, auth.api_secret) {
                r matches Ok(c) && c.api_key == auth.api_key.unwrap() && c.api_secret
                    == auth.api_secret.unwrap()
            } else {
                r matches Err(BinanceError::Auth(m)) && m@ == MISSING_CREDENTIALS@
            },
        }
    }
}

/// Whether resolution reaches the config file: neither the command line
/// nor the environment holds a complete pair. The file need only be read
/// then.
pub fn needs_config_file(
    cli_key: Option<&str>,
    cli_secret: Option<&str>,
    env_key: &Option<String>,
    env_secret: &Option<String>,
) -> (r: bool)
    ensures
        r == (!complete(cli_key, cli_secret) && !complete(*env_key, *env_secret)),
{
    !(cli_key.is_some() && cli_secret.is_some()) && !(env_key.is_some() && env_secret.is_some())
}

/// An owned copy of a string slice.
fn owned(s: &str) -> (r: String)
    ensures
        r@ == s@,
{
    String::from_str(s)
}

impl Credentials {
    /// Resolve credentials from the available sources.
    pub fn resolve(cli_key: Option<&str>, cli_secret: Option<&str>, sources: &CredentialSources) -> (r:
        Result<Self, BinanceError>)
        ensures
            resolves_to(cli_key.deep_view(), cli_secret.deep_view(), *sources, r),
    {
        // 1. CLI flags
        if let (Some(key), Some(secret)) = (cli_key, cli_secret) {
            return Ok(Credentials { api_key: owned(key), api_secret: owned(secret) });
        }
        // 2. Environment variables

        if let (Some(key), Some(secret)) = (&sources.env_key, &sources.env_secret) {
            return Ok(Credentials { api_key: key.clone(), api_secret: secret.clone() });
        }
        // 3. Config file

        match &sources.file {
            Err(e) => Err(e.clone()),
            Ok(auth) => {
                if let (Some(key), Some(secret)) = (&auth.api_key, &auth.api_secret) {
                    Ok(Credentials { api_key: key.clone(), api_secret: secret.clone() })
                } else {
                    Err(BinanceError::Auth(owned(MISSING_CREDENTIALS)))
                }
            },
        }
    }

    /// Check if credentials are available without error.
    pub fn available(cli_key: Option<&str>, cli_secret: Option<&str>, sources: &CredentialSources) -> (r:
        bool)
        ensures
            r == (exists|c: Credentials|
                resolves_to(cli_key.deep_view(), cli_secret.deep_view(), *sources, Ok(c))),
    {
        let res = Self::resolve(cli_key, cli_secret, sources);
        match res {
            Ok(c) => true,
            Err(e) => {
                proof {
                    if exists|c: Credentials|
                        resolves_to(cli_key.deep_view(), cli_secret.deep_view(), *sources, Ok(c)) {
                        let c = choose|c: Credentials|
                            resolves_to(cli_key.deep_view(), cli_secret.deep_view(), *sources, Ok(c));
                        assert(false);
                    }
                }
                false
            },
        }
    }
}

/// The error text when an endpoint needs credentials and none were given.
pub const CREDENTIALS_REQUIRED: &'static str = "API credentials required for this endpoint";

/// The credentials of a client, or the authentication error of an endpoint
/// that needs them when there are none.
pub fn require_credentials(credentials: &Option<Credentials>) -> (r: Result<&Credentials, BinanceError>)
    ensures
        match credentials {
            Some(c) => r == Ok::<&Credentials, BinanceError>(c),
            None => r matches Err(BinanceError::Auth(m)) && m@ == CREDENTIALS_REQUIRED@,
        },
{
    match credentials {
        Some(c) => Ok(c),
        None => Err(BinanceError::Auth(String::from_str(CREDENTIALS_REQUIRED))),
    }
}

/// Law: credentials given on the command line win over every other source,
/// whatever the environment and the config file hold, even a config file
/// that failed to load.
pub proof fn law_cli_credentials_win(
    key: Seq<char>,
    secret: Seq<char>,
    sources: CredentialSources,
    r: Result<Credentials, BinanceError>,
)
    requires
        resolves_to(Some(key), Some(secret), sources, r),
    ensures
        r matches Ok(c) && c.api_key@ == key && c.api_secret@ == secret,
{
}

/// Law: when the command line lacks one half of the pair, complete
/// environment credentials are used, and the config file is not consulted.
pub proof fn law_env_credentials_second(
    cli_key: Option<Seq<char>>,
    cli_secret: Option<Seq<char>>,
    sources: CredentialSources,
    r: Result<Credentials, BinanceError>,
)
    requires
        !complete(cli_key, cli_secret),
        complete(sources.env_key, sources.env_secret),
        resolves_to(cli_key, cli_secret, sources, r),
    ensures
        r matches Ok(c) && c.api_key == sources.env_key.unwrap() && c.api_secret
            == sources.env_secret.unwrap(),
{
}

/// Law: resolution fails exactly when no source holds a complete pair, and
/// the failure is then either the config file's loading error or the
/// authentication error that lists the sources.
pub proof fn law_resolution_fails_without_a_pair(
    cli_key: Option<Seq<char>>,
    cli_secret: Option<Seq<char>>,
    sources: CredentialSources,
    r: Result<Credentials, BinanceError>,
)
    requires
        resolves_to(cli_key, cli_secret, sources, r),
    ensures
        r is Err <==> (!complete(cli_key, cli_secret) && !complete(
            sources.env_key,
            sources.env_secret,
        ) && match sources.file {
            Err(_) => true,
            Ok(auth) => !complete(auth.api_key, auth.api_secret),
        }),
        r matches Err(e) ==> (sources.file == Err::<AuthConfig, BinanceError>(e) || (
        e matches BinanceError::Auth(m) && m@ == MISSING_CREDENTIALS@)),
{
}

} // verus!
