//! cpc-paths: portable path discovery for CPC MCP servers.
//!
//! Three core paths (Volumes, install, backups) are resolved with the precedence
//! in-process cache, environment variable, `.cpc-config.toml`, (for the backups
//! path) the `backups` directory beside the install path, auto-detection,
//! interactive prompt, error. The decisions of that resolution, the cache, the
//! configuration record and the health report are computed here; reading the
//! environment, the disk and the terminal is left to the caller, which hands the
//! observations to the resolution machine in `resolver`.
pub mod config;
pub mod error;
pub mod health;
pub mod platform;
pub mod resolver;
pub mod text;

pub use error::Error;

use vstd::prelude::*;

verus! {

/// How a path was resolved.
#[derive(Debug, PartialEq, Eq)]
pub enum ResolutionMethod {
    Cache,
    /// Env var name that resolved.
    EnvVar(String),
    ConfigFile,
    AutoDetect,
    PlatformDefault,
    /// Failed to resolve.
    Unresolved,
}

/// The mathematical value of a `ResolutionMethod`: the variable name is a sequence of chars.
pub enum MethodView {
    Cache,
    EnvVar(Seq<char>),
    ConfigFile,
    AutoDetect,
    PlatformDefault,
    Unresolved,
}

impl View for ResolutionMethod {
    type V = MethodView;

    open spec fn view(&self) -> MethodView {
        match self {
            ResolutionMethod::Cache => MethodView::Cache,
            ResolutionMethod::EnvVar(name) => MethodView::EnvVar(name@),
            ResolutionMethod::ConfigFile => MethodView::ConfigFile,
            ResolutionMethod::AutoDetect => MethodView::AutoDetect,
            ResolutionMethod::PlatformDefault => MethodView::PlatformDefault,
            ResolutionMethod::Unresolved => MethodView::Unresolved,
        }
    }
}

impl Clone for ResolutionMethod {
    fn clone(&self) -> (res: Self)
        ensures
            res@ == self@,
    {
        match self {
            ResolutionMethod::Cache => ResolutionMethod::Cache,
            ResolutionMethod::EnvVar(name) => ResolutionMethod::EnvVar(name.clone()),
            ResolutionMethod::ConfigFile => ResolutionMethod::ConfigFile,
            ResolutionMethod::AutoDetect => ResolutionMethod::AutoDetect,
            ResolutionMethod::PlatformDefault => ResolutionMethod::PlatformDefault,
            ResolutionMethod::Unresolved => ResolutionMethod::Unresolved,
        }
    }
}

/// Which of the three core paths a configuration entry or a cache slot is for.
#[derive(Debug, Clone, Copy, PartialEq, Eq, Structural)]
pub enum ConfigKey {
    VolumesPath,
    InstallPath,
    BackupsPath,
}

/// The state of one path in a health report.
#[derive(Debug)]
pub struct PathStatus {
    pub path: Option<String>,
    pub resolved_via: ResolutionMethod,
    pub exists: bool,
    pub error: Option<String>,
}

/// A full diagnostic report of the resolved paths and how each was resolved.
#[derive(Debug)]
pub struct HealthReport {
    pub volumes: PathStatus,
    pub install: PathStatus,
    pub backups: PathStatus,
    pub config_file: PathStatus,
    /// "windows" | "macos" | "linux"
    pub platform: String,
    /// The version of this crate.
    pub crate_version: String,
}

/// The name of the configuration file within the configuration directory.
pub const CONFIG_FILE_NAME: &'static str = ".cpc-config.toml";

/// Whether `p` starts with a Windows verbatim prefix (`\\?\`), under which
/// `PathBuf::push` normalises `.` and `..` away.
pub open spec fn is_verbatim(p: Seq<char>) -> bool {
    p.len() >= 4 && p.subrange(0, 4) == seq!['\\', '\\', '?', '\\']
}

/// Whether `out` is `base` extended by the component `name`: directly (where no
/// separator is needed), or after a `/` or a `\\` (the platform's separator).
pub open spec fn extends(base: Seq<char>, name: Seq<char>, out: Seq<char>) -> bool {
    ||| out == base + name
    ||| out == base + seq!['/'] + name
    ||| out == base + seq!['\\'] + name
}

/// Whether `out` is `base` and `name` with a separator (`/` or `\`) between them.
pub open spec fn separated(base: Seq<char>, name: Seq<char>, out: Seq<char>) -> bool {
    ||| out == base + seq!['/'] + name
    ||| out == base + seq!['\\'] + name
}

/// Whether joining `name` onto `base` needs a separator on every platform: `base`
/// is not empty, does not end in a separator, is not a bare drive such as `C:`,
/// and has no verbatim prefix.
pub open spec fn needs_separator(base: Seq<char>) -> bool {
    &&& base.len() > 0
    &&& base.last() != '/'
    &&& base.last() != '\\'
    &&& !(base.len() == 2 && base[1] == ':')
    &&& !is_verbatim(base)
}

/// What `Path::join` does with a relative component `name`, as far as it holds on
/// every platform: outside a verbatim prefix it extends `base`; onto an empty
/// path it gives `name`; after a trailing `/` it adds no separator; after any
/// other path (but a bare drive) it adds one, `/` or `\` by platform.
pub open spec fn joins(base: Seq<char>, name: Seq<char>, out: Seq<char>) -> bool {
    &&& !is_verbatim(base) ==> extends(base, name, out)
    &&& base.len() == 0 ==> out == name
    &&& (base.len() > 0 && base.last() == '/' && !is_verbatim(base)) ==> out == base + name
    &&& needs_separator(base) ==> separated(base, name, out)
}

/// `std::path::Path::join` of `base` and the single relative component `name`,
/// rendered back as a string (losslessly, both being UTF-8).
///
/// `PathBuf::push` extends a path by a relative one, adding the platform's
/// separator unless the path is empty or already ends in one (a bare drive such
/// as `C:` takes none on Windows). Which separator is the platform's is left
/// open. Under a verbatim prefix the result is normalised, so only its ending is
/// claimed there, and only for a plain name.
#[verifier::external_body]
pub(crate) fn join_path(base: &str, name: &str) -> (joined: String)
    requires
        name@.len() > 0,
        !name@.contains('/'),
        !name@.contains('\\'),
        !name@.contains(':'),
    ensures
        joins(base@, name@, joined@),
        name@ != "."@ && name@ != ".."@ ==> joined@.len() >= name@.len() && joined@.subrange(
            joined@.len() - name@.len(),
            joined@.len() as int,
        ) == name@,
{
    std::path::Path::new(base).join(name).to_string_lossy().into_owned()
}

/// Path to `.cpc-config.toml` within the configuration directory `config_dir`:
/// `{config_dir}/.cpc-config.toml` (with the platform's separator, added unless
/// the directory is empty or already ends in one).
pub fn config_file(config_dir: &str) -> (path: String)
    ensures
        joins(config_dir@, CONFIG_FILE_NAME@, path@),
        path@.len() >= CONFIG_FILE_NAME@.len(),
        path@.subrange(path@.len() - CONFIG_FILE_NAME@.len(), path@.len() as int)
            == CONFIG_FILE_NAME@,
{
    proof {
        reveal_strlit(".cpc-config.toml");
        reveal_strlit(".");
        reveal_strlit("..");
    }
    join_path(config_dir, CONFIG_FILE_NAME)
}

/// The name of a server's data directory: `{server}-data`.
pub fn data_dir_name(server: &str) -> (name: String)
    ensures
        name@ == server@ + "-data"@,
{
    let mut name = String::from_str(server);
    name.append("-data");
    name
}

} // verus!
