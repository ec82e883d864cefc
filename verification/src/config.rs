//! The record held in `.cpc-config.toml`, and the changes made to it.
use crate::ConfigKey;
use vstd::prelude::*;

verus! {

/// The record mirrored by `.cpc-config.toml`.
#[derive(Debug)]
pub struct CpcConfig {
    pub paths: PathsSection,
    pub metadata: MetadataSection,
}

/// The `[paths]` table.
#[derive(Debug)]
pub struct PathsSection {
    pub volumes: Option<String>,
    pub install: Option<String>,
    pub backups: Option<String>,
}

/// The `[metadata]` table.
#[derive(Debug)]
pub struct MetadataSection {
    pub schema_version: Option<u32>,
    pub last_updated: Option<String>,
    pub last_updated_by: Option<String>,
}

impl Default for PathsSection {
    fn default() -> (res: Self)
        ensures
            res.volumes is None,
            res.install is None,
            res.backups is None,
    {
        PathsSection { volumes: None, install: None, backups: None }
    }
}

impl Default for MetadataSection {
    fn default() -> (res: Self)
        ensures
            res.schema_version is None,
            res.last_updated is None,
            res.last_updated_by is None,
    {
        MetadataSection { schema_version: None, last_updated: None, last_updated_by: None }
    }
}

impl Default for CpcConfig {
    /// The empty configuration, used where no configuration file exists.
    fn default() -> (res: Self)
        ensures
            res.is_empty(),
    {
        CpcConfig { paths: PathsSection::default(), metadata: MetadataSection::default() }
    }
}

impl CpcConfig {
    /// No entry of either table is set.
    pub open spec fn is_empty(&self) -> bool {
        &&& self.paths.volumes is None
        &&& self.paths.install is None
        &&& self.paths.backups is None
        &&& self.metadata.schema_version is None
        &&& self.metadata.last_updated is None
        &&& self.metadata.last_updated_by is None
    }
}

/// The path that `cfg` holds for `key`, if any.
pub open spec fn configured(cfg: CpcConfig, key: ConfigKey) -> Option<String> {
    match key {
        ConfigKey::VolumesPath => cfg.paths.volumes,
        ConfigKey::InstallPath => cfg.paths.install,
        ConfigKey::BackupsPath => cfg.paths.backups,
    }
}

fn clone_opt(s: &Option<String>) -> (res: Option<String>)
    ensures
        res == *s,
{
    match s {
        Some(v) => Some(v.clone()),
        None => None,
    }
}

/// The path that `cfg` holds for `key`, if any.
///
/// Whether that path exists on disk is for the caller to check: a configured
/// path is used only where it exists.
pub fn configured_path(cfg: &CpcConfig, key: ConfigKey) -> (res: Option<String>)
    ensures
        res == configured(*cfg, key),
{
    match key {
        ConfigKey::VolumesPath => clone_opt(&cfg.paths.volumes),
        ConfigKey::InstallPath => clone_opt(&cfg.paths.install),
        ConfigKey::BackupsPath => clone_opt(&cfg.paths.backups),
    }
}

/// The path that `cfg` holds for `key`, where one is held and it exists on disk;
/// `exists` says whether the held path exists (it is not read where none is held).
pub fn existing_configured_path(cfg: &CpcConfig, key: ConfigKey, exists: bool) -> (res: Option<
    String,
>)
    ensures
        res == (if exists {
            configured(*cfg, key)
        } else {
            None
        }),
{
    if exists {
        configured_path(cfg, key)
    } else {
        None
    }
}

/// Read the Volumes path from config, if present and the path exists on disk
/// (`exists`: whether the configured Volumes path exists).
pub fn config_volumes(cfg: &CpcConfig, exists: bool) -> (res: Option<String>)
    ensures
        res == (if exists {
            cfg.paths.volumes
        } else {
            None
        }),
{
    existing_configured_path(cfg, ConfigKey::VolumesPath, exists)
}

/// Read the install path from config, if present and the path exists on disk
/// (`exists`: whether the configured install path exists).
pub fn config_install(cfg: &CpcConfig, exists: bool) -> (res: Option<String>)
    ensures
        res == (if exists {
            cfg.paths.install
        } else {
            None
        }),
{
    existing_configured_path(cfg, ConfigKey::InstallPath, exists)
}

/// Read the backups path from config, if present and the path exists on disk
/// (`exists`: whether the configured backups path exists).
pub fn config_backups(cfg: &CpcConfig, exists: bool) -> (res: Option<String>)
    ensures
        res == (if exists {
            cfg.paths.backups
        } else {
            None
        }),
{
    existing_configured_path(cfg, ConfigKey::BackupsPath, exists)
}

/// The version of the configuration layout that this crate writes.
pub const SCHEMA_VERSION: u32 = 1;

/// The comment that heads every configuration file this crate writes.
pub const CONFIG_HEADER: &'static str = "# CPC configuration file \u{2014} written by cpc-paths auto-detect.\n# Manual edits survive subsequent auto-detects.\n\n";

/// The name written in `last_updated_by`: `cpc-paths v` and the crate's version.
pub open spec fn updated_by(version: Seq<char>) -> Seq<char> {
    "cpc-paths v"@ + version
}

/// Records `value` as the path for `key` and stamps the metadata: the schema
/// version, the time of the change (`stamp`, as read from the clock by the
/// caller, in RFC 3339 form), and `cpc-paths v{version}` as its author. Every
/// other entry is kept.
pub fn set_config(cfg: &mut CpcConfig, key: ConfigKey, value: String, version: &str, stamp: String)
    ensures
        configured(*final(cfg), key) == Some(value),
        forall|k: ConfigKey| k != key ==> configured(*final(cfg), k) == configured(*old(cfg), k),
        final(cfg).metadata.schema_version == Some(SCHEMA_VERSION),
        final(cfg).metadata.last_updated == Some(stamp),
        final(cfg).metadata.last_updated_by matches Some(by) && by@ == updated_by(version@),
{
    match key {
        ConfigKey::VolumesPath => cfg.paths.volumes = Some(value),
        ConfigKey::InstallPath => cfg.paths.install = Some(value),
        ConfigKey::BackupsPath => cfg.paths.backups = Some(value),
    }
    cfg.metadata.schema_version = Some(SCHEMA_VERSION);
    cfg.metadata.last_updated = Some(stamp);
    let mut by = String::from_str("cpc-paths v");
    by.append(version);
    cfg.metadata.last_updated_by = Some(by);
}

/// The text of a configuration file: the header comment, then the TOML `body`.
pub fn config_file_contents(body: &str) -> (text: String)
    ensures
        text@ == CONFIG_HEADER@ + body@,
{
    let mut text = String::from_str(CONFIG_HEADER);
    text.append(body);
    text
}

} // verus!
