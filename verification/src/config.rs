//! The configuration of one run.
//!
//! Each setting is looked for in four places, and the first that has it
//! wins: the flags of the invocation, the environment, the configuration
//! file, and what is built in.

use vstd::prelude::*;
use vstd::string::StringExecFns;
use crate::addr::{host_port, join_addr};
use crate::gate::{Guard, GuardView};
use crate::text::text_of;

verus! {

/// The address served where none is configured.
pub const DEFAULT_ADDR: &'static str = "127.0.0.1:1234";

/// The environment variable of the git URL.
pub const ENV_GIT_URL: &'static str = "TBL_GIT_URL";

/// The environment variable of the address.
pub const ENV_ADDR: &'static str = "TBL_ADDR";

/// The environment variable of the TLS certificate's file.
pub const ENV_TLS_CERT: &'static str = "TBL_TLS_CERT";

/// The environment variable of the TLS key's file.
pub const ENV_TLS_KEY: &'static str = "TBL_TLS_KEY";

/// The environment variable of the user name for basic authentication.
pub const ENV_BASIC_USER: &'static str = "TBL_BASIC_USER";

/// The environment variable of the password for basic authentication.
pub const ENV_BASIC_PASS: &'static str = "TBL_BASIC_PASS";

/// The settings. One value of this type holds what one source says; the
/// merged value holds what the run goes by.
#[derive(Clone, Debug, PartialEq, Eq)]
pub struct TblConfig {
    /// Where the served application is cloned from.
    pub git_url: Option<String>,
    /// The address to bind, `host:port`.
    pub addr: Option<String>,
    /// The file of the TLS certificate.
    pub tls_cert: Option<String>,
    /// The file of the TLS key.
    pub tls_key: Option<String>,
    /// The user name for basic authentication.
    pub basic_user: Option<String>,
    /// The password for basic authentication.
    pub basic_pass: Option<String>,
}

/// The settings as a mathematical value.
pub struct ConfigView {
    pub git_url: Option<Seq<char>>,
    pub addr: Option<Seq<char>>,
    pub tls_cert: Option<Seq<char>>,
    pub tls_key: Option<Seq<char>>,
    pub basic_user: Option<Seq<char>>,
    pub basic_pass: Option<Seq<char>>,
}

impl View for TblConfig {
    type V = ConfigView;

    open spec fn view(&self) -> ConfigView {
        ConfigView {
            git_url: text_of(self.git_url),
            addr: text_of(self.addr),
            tls_cert: text_of(self.tls_cert),
            tls_key: text_of(self.tls_key),
            basic_user: text_of(self.basic_user),
            basic_pass: text_of(self.basic_pass),
        }
    }
}

/// The first of three values that is there.
pub open spec fn first_set(
    high: Option<Seq<char>>,
    mid: Option<Seq<char>>,
    low: Option<Seq<char>>,
) -> Option<Seq<char>> {
    if high is Some {
        high
    } else if mid is Some {
        mid
    } else {
        low
    }
}

/// No setting at all.
pub open spec fn empty_config() -> ConfigView {
    ConfigView {
        git_url: None,
        addr: None,
        tls_cert: None,
        tls_key: None,
        basic_user: None,
        basic_pass: None,
    }
}

/// What a run goes by: for each setting the flag, else the environment,
/// else the file. The address alone has a built-in value behind these.
pub open spec fn merged(flags: ConfigView, env: ConfigView, file: ConfigView) -> ConfigView {
    ConfigView {
        git_url: first_set(flags.git_url, env.git_url, file.git_url),
        addr: match first_set(flags.addr, env.addr, file.addr) {
            Some(addr) => Some(addr),
            None => Some(DEFAULT_ADDR@),
        },
        tls_cert: first_set(flags.tls_cert, env.tls_cert, file.tls_cert),
        tls_key: first_set(flags.tls_key, env.tls_key, file.tls_key),
        basic_user: first_set(flags.basic_user, env.basic_user, file.basic_user),
        basic_pass: first_set(flags.basic_pass, env.basic_pass, file.basic_pass),
    }
}

impl ConfigView {
    /// Whether the run serves TLS: only with both a certificate and a key.
    pub open spec fn tls_enabled(self) -> bool {
        self.tls_cert is Some && self.tls_key is Some
    }
}

/// The first of three values that is there.
fn first_of(high: Option<String>, mid: Option<String>, low: Option<String>) -> (r: Option<String>)
    ensures
        text_of(r) == first_set(text_of(high), text_of(mid), text_of(low)),
{
    match high {
        Some(v) => Some(v),
        None => match mid {
            Some(v) => Some(v),
            None => low,
        },
    }
}

impl TblConfig {
    /// The settings of a source that says nothing.
    pub fn empty() -> (cfg: TblConfig)
        ensures
            cfg@ == empty_config(),
    {
        TblConfig {
            git_url: None,
            addr: None,
            tls_cert: None,
            tls_key: None,
            basic_user: None,
            basic_pass: None,
        }
    }

    /// Whether the run serves TLS.
    pub fn tls_enabled(&self) -> (tls: bool)
        ensures
            tls == self@.tls_enabled(),
    {
        self.tls_cert.is_some() && self.tls_key.is_some()
    }

    /// Writes the chosen port back into the settings: the address becomes
    /// `host:port`, all else stays.
    pub fn set_port(&mut self, host: &str, port: u16)
        ensures
            final(self)@ == (ConfigView { addr: Some(join_addr(host@, port)), ..old(self)@ }),
    {
        self.addr = Some(host_port(host, port));
    }

    /// Sets the git URL; all else stays.
    pub fn set_git_url(&mut self, url: &str)
        ensures
            final(self)@ == (ConfigView { git_url: Some(url@), ..old(self)@ }),
    {
        self.git_url = Some(String::from_str(url));
    }

    /// What requests are held against under these settings, for the secret
    /// of this run.
    pub fn guard(&self, secret: &str) -> (guard: Guard)
        ensures
            guard@ == (GuardView {
                secret: secret@,
                basic_user: self@.basic_user,
                basic_pass: self@.basic_pass,
            }),
    {
        Guard {
            secret: String::from_str(secret),
            basic_user: self.basic_user.clone(),
            basic_pass: self.basic_pass.clone(),
        }
    }
}

/// Merges the settings of the three sources into those of the run.
pub fn merge_config(flags: TblConfig, env: TblConfig, file: TblConfig) -> (cfg: TblConfig)
    ensures
        cfg@ == merged(flags@, env@, file@),
        cfg@.addr is Some,
{
    let addr = match first_of(flags.addr, env.addr, file.addr) {
        Some(addr) => Some(addr),
        None => Some(String::from_str(DEFAULT_ADDR)),
    };
    TblConfig {
        git_url: first_of(flags.git_url, env.git_url, file.git_url),
        addr,
        tls_cert: first_of(flags.tls_cert, env.tls_cert, file.tls_cert),
        tls_key: first_of(flags.tls_key, env.tls_key, file.tls_key),
        basic_user: first_of(flags.basic_user, env.basic_user, file.basic_user),
        basic_pass: first_of(flags.basic_pass, env.basic_pass, file.basic_pass),
    }
}

/// A flag beats the environment, the environment beats the file, and where
/// none of them names an address the built-in one is served.
pub proof fn lemma_precedence(flags: ConfigView, env: ConfigView, file: ConfigView)
    ensures
        flags.git_url is Some ==> merged(flags, env, file).git_url == flags.git_url,
        flags.git_url is None && env.git_url is Some ==> merged(flags, env, file).git_url
            == env.git_url,
        flags.git_url is None && env.git_url is None ==> merged(flags, env, file).git_url
            == file.git_url,
        flags.addr is Some ==> merged(flags, env, file).addr == flags.addr,
        flags.addr is None && env.addr is Some ==> merged(flags, env, file).addr == env.addr,
        flags.addr is None && env.addr is None && file.addr is Some ==> merged(
            flags,
            env,
            file,
        ).addr == file.addr,
        flags.addr is None && env.addr is None && file.addr is None ==> merged(
            flags,
            env,
            file,
        ).addr == Some(DEFAULT_ADDR@),
{
}

// ---------------------------------------------------------------------------
// The configuration file
// ---------------------------------------------------------------------------

/// The formats a configuration file may be written in.
#[derive(Clone, Copy, Debug, PartialEq, Eq, Structural)]
pub enum ConfigFormat {
    Json,
    Yaml,
    Toml,
}

/// The files that are tried, in this order.
pub open spec fn candidate_files() -> Seq<(Seq<char>, ConfigFormat)> {
    seq![
        ("config.json"@, ConfigFormat::Json),
        ("config.yaml"@, ConfigFormat::Yaml),
        ("config.yml"@, ConfigFormat::Yaml),
        ("config.toml"@, ConfigFormat::Toml),
    ]
}

/// The file that is written.
pub const CONFIG_FILE: &'static str = "config.json";

/// The views of named formats.
pub open spec fn files_of(files: Seq<(String, ConfigFormat)>) -> Seq<(Seq<char>, ConfigFormat)> {
    files.map_values(|f: (String, ConfigFormat)| (f.0@, f.1))
}

/// The names of the configuration files to try, each with its format, in
/// the order of trying.
pub fn config_candidates() -> (files: Vec<(String, ConfigFormat)>)
    ensures
        files_of(files@) == candidate_files(),
{
    let mut files: Vec<(String, ConfigFormat)> = Vec::new();
    files.push((String::from_str("config.json"), ConfigFormat::Json));
    files.push((String::from_str("config.yaml"), ConfigFormat::Yaml));
    files.push((String::from_str("config.yml"), ConfigFormat::Yaml));
    files.push((String::from_str("config.toml"), ConfigFormat::Toml));
    assert(files_of(files@) =~= candidate_files());
    files
}

/// The index of the first reading that gave settings; the number of
/// readings where none did.
pub open spec fn first_read_from(readings: Seq<Option<TblConfig>>, from: int) -> int
    decreases readings.len() - from,
{
    if from < 0 || from >= readings.len() {
        readings.len() as int
    } else if readings[from] is Some {
        from
    } else {
        first_read_from(readings, from + 1)
    }
}

/// The settings of the configuration file, given what reading each
/// candidate gave, in the order of the candidates: `None` stands for a file
/// that is missing, unreadable or malformed. The first file that could be
/// read decides; later ones are not looked at.
pub fn load_config(readings: Vec<Option<TblConfig>>) -> (cfg: Option<TblConfig>)
    ensures
        cfg is Some <==> first_read_from(readings@, 0) < readings@.len(),
        cfg matches Some(c) ==> readings@[first_read_from(readings@, 0)] == Some(c),
{
    let ghost all = readings@;
    for reading in it: readings
        invariant
            it.seq() == all,
            first_read_from(all, 0) == first_read_from(all, it.index() as int),
    {
        if reading.is_some() {
            return reading;
        }
    }
    None
}

} // verus!
