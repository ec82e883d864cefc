use cpc_paths::config::{
    config_backups, config_file_contents, existing_configured_path, config_install, config_volumes, configured_path,
    set_config, CpcConfig, CONFIG_HEADER, SCHEMA_VERSION,
};
use cpc_paths::health::{build_health_report, path_status, Probe, RESOLUTION_FAILED};
use cpc_paths::platform::{
    backups_candidates, candidates_disabled, candidates_for, install_candidates, platform_name,
    volumes_candidates, Candidate, CandidateEnv, Platform,
};
use cpc_paths::text::{parse_usize, trim};
use cpc_paths::{config_file, data_dir_name, ConfigKey, ResolutionMethod, CONFIG_FILE_NAME};

#[test]
fn default_config_is_empty() {
    let cfg = CpcConfig::default();
    assert!(cfg.paths.volumes.is_none());
    assert!(cfg.paths.install.is_none());
    assert!(cfg.paths.backups.is_none());
    assert!(cfg.metadata.schema_version.is_none());
    assert!(cfg.metadata.last_updated.is_none());
    assert!(cfg.metadata.last_updated_by.is_none());
}

#[test]
fn set_config_writes_key_and_metadata() {
    let mut cfg = CpcConfig::default();
    cfg.paths.install = Some("/keep/install".to_string());
    set_config(
        &mut cfg,
        ConfigKey::VolumesPath,
        "/tmp/cpc_test_volumes".to_string(),
        "0.1.2",
        "2026-04-18T12:34:56.123+00:00".to_string(),
    );
    assert_eq!(config_volumes(&cfg, true), Some("/tmp/cpc_test_volumes".to_string()));
    assert_eq!(config_install(&cfg, true), Some("/keep/install".to_string()));
    assert_eq!(config_backups(&cfg, true), None);
    assert_eq!(cfg.metadata.schema_version, Some(1));
    assert_eq!(SCHEMA_VERSION, 1);
    assert_eq!(cfg.metadata.last_updated_by.as_deref(), Some("cpc-paths v0.1.2"));
    assert_eq!(cfg.metadata.last_updated.as_deref(), Some("2026-04-18T12:34:56.123+00:00"));
}

#[test]
fn configured_paths_need_to_exist() {
    let mut cfg = CpcConfig::default();
    assert_eq!(config_volumes(&cfg, true), None);
    cfg.paths.volumes = Some("/".to_string());
    cfg.paths.install = Some("/no/such/dir".to_string());
    cfg.paths.backups = Some("/b".to_string());
    assert_eq!(config_volumes(&cfg, true), Some("/".to_string()));
    assert_eq!(config_volumes(&cfg, false), None);
    assert_eq!(config_install(&cfg, false), None);
    assert_eq!(config_backups(&cfg, true), Some("/b".to_string()));
    assert_eq!(config_backups(&cfg, false), None);
    assert_eq!(
        existing_configured_path(&cfg, ConfigKey::InstallPath, true),
        Some("/no/such/dir".to_string())
    );
}

#[test]
fn set_config_overwrites_only_its_key() {
    let mut cfg = CpcConfig::default();
    set_config(&mut cfg, ConfigKey::BackupsPath, "/b1".to_string(), "9", "t1".to_string());
    set_config(&mut cfg, ConfigKey::InstallPath, "/i".to_string(), "9", "t2".to_string());
    set_config(&mut cfg, ConfigKey::BackupsPath, "/b2".to_string(), "9", "t3".to_string());
    assert_eq!(configured_path(&cfg, ConfigKey::BackupsPath), Some("/b2".to_string()));
    assert_eq!(configured_path(&cfg, ConfigKey::InstallPath), Some("/i".to_string()));
    assert_eq!(configured_path(&cfg, ConfigKey::VolumesPath), None);
    assert_eq!(cfg.metadata.last_updated.as_deref(), Some("t3"));
}

#[test]
fn config_file_text_starts_with_header() {
    let text = config_file_contents("[paths]\nvolumes = \"/v\"\n");
    assert_eq!(
        text,
        "# CPC configuration file \u{2014} written by cpc-paths auto-detect.\n# Manual edits survive subsequent auto-detects.\n\n[paths]\nvolumes = \"/v\"\n"
    );
    assert!(text.starts_with(CONFIG_HEADER));
}

#[test]
fn config_file_is_in_config_dir() {
    assert_eq!(CONFIG_FILE_NAME, ".cpc-config.toml");
    assert_eq!(config_file("/tmp/cfg"), "/tmp/cfg/.cpc-config.toml");
    assert_eq!(config_file("/tmp/cfg/"), "/tmp/cfg/.cpc-config.toml");
    assert_eq!(config_file(""), ".cpc-config.toml");
    let p = config_file("/home/u/.config/cpc");
    assert!(p.ends_with(".cpc-config.toml"));
    assert!(p.starts_with("/home/u/.config/cpc"));
    assert_eq!(p.len(), "/home/u/.config/cpc".len() + 1 + ".cpc-config.toml".len());
}

#[test]
fn data_dir_is_named_after_the_server() {
    assert_eq!(data_dir_name("workflow"), "workflow-data");
    assert_eq!(data_dir_name(""), "-data");
}

#[test]
fn path_status_of_resolved_and_unresolved() {
    let s = path_status(Some("/v".to_string()), ResolutionMethod::ConfigFile, true);
    assert_eq!(s.path.as_deref(), Some("/v"));
    assert_eq!(s.resolved_via, ResolutionMethod::ConfigFile);
    assert!(s.exists);
    assert!(s.error.is_none());

    let s = path_status(None, ResolutionMethod::AutoDetect, true);
    assert!(s.path.is_none());
    assert_eq!(s.resolved_via, ResolutionMethod::Unresolved);
    assert!(!s.exists);
    assert_eq!(s.error.as_deref(), Some(RESOLUTION_FAILED));
    assert_eq!(RESOLUTION_FAILED, "Resolution failed \u{2014} see error variants for details");
}

#[test]
fn health_check_reports_resolution_method() {
    let report = build_health_report(
        Probe {
            path: Some("/v".to_string()),
            method: ResolutionMethod::EnvVar("CPC_VOLUMES_PATH".to_string()),
            exists: true,
        },
        Probe { path: None, method: ResolutionMethod::Unresolved, exists: false },
        Probe { path: Some("/b".to_string()), method: ResolutionMethod::Cache, exists: false },
        "/cfg/.cpc-config.toml".to_string(),
        false,
        "linux",
        "0.1.2",
    );
    assert!(matches!(
        &report.volumes.resolved_via,
        ResolutionMethod::EnvVar(_) | ResolutionMethod::Cache
    ));
    assert!(report.volumes.path.is_some());
    assert!(report.install.path.is_none());
    assert!(report.install.error.is_some());
    assert_eq!(report.backups.resolved_via, ResolutionMethod::Cache);
    assert!(!report.backups.exists);
    assert_eq!(report.config_file.path.as_deref(), Some("/cfg/.cpc-config.toml"));
    assert_eq!(report.config_file.resolved_via, ResolutionMethod::PlatformDefault);
    assert!(!report.config_file.exists);
    assert_eq!(report.platform, "linux");
    assert_eq!(report.crate_version, "0.1.2");
}

#[test]
fn platform_names() {
    assert_eq!(platform_name("windows"), "windows");
    assert_eq!(platform_name("macos"), "macos");
    assert_eq!(platform_name("linux"), "linux");
    assert_eq!(platform_name("freebsd"), "linux");
    assert_eq!(Platform::of("macos"), Platform::MacOs);
    assert_eq!(Platform::of("Windows"), Platform::Linux);
    assert_eq!(Platform::Windows.name(), "windows");
}

fn env(home: Option<&str>) -> CandidateEnv {
    CandidateEnv {
        no_candidates: None,
        home: home.map(|s| s.to_string()),
        user_profile: Some("C:\\Users\\a".to_string()),
        local_app_data: Some("C:\\Users\\a\\AppData\\Local".to_string()),
        program_files: None,
    }
}

fn shape(v: &[Candidate]) -> Vec<(String, Vec<&'static str>)> {
    v.iter().map(|c| (c.root.clone(), c.parts.clone())).collect()
}

#[test]
fn linux_candidates() {
    let e = env(Some("/home/a"));
    assert_eq!(
        shape(&volumes_candidates(Platform::Linux, &e)),
        vec![
            ("/home/a".to_string(), vec!["Google Drive", "Volumes"]),
            ("/home/a".to_string(), vec!["gdrive", "Volumes"]),
            ("/home/a".to_string(), vec![".cpc", "volumes"]),
        ]
    );
    assert_eq!(
        shape(&install_candidates(Platform::Linux, &e)),
        vec![
            ("/home/a".to_string(), vec![".cpc", "servers"]),
            ("/usr/local/lib/cpc/servers".to_string(), vec![]),
            ("/opt/cpc/servers".to_string(), vec![]),
        ]
    );
    assert_eq!(
        shape(&backups_candidates(Platform::Linux, &e)),
        vec![("/home/a".to_string(), vec![".cpc", "backups"])]
    );
    let no_home = env(None);
    assert!(volumes_candidates(Platform::Linux, &no_home).is_empty());
    assert_eq!(install_candidates(Platform::Linux, &no_home).len(), 2);
}

#[test]
fn macos_candidates() {
    let e = env(Some("/Users/a"));
    assert_eq!(
        shape(&volumes_candidates(Platform::MacOs, &e)),
        vec![
            (
                "/Users/a".to_string(),
                vec!["Library", "Mobile Documents", "com~apple~CloudDocs", "Volumes"]
            ),
            ("/Users/a".to_string(), vec!["Google Drive", "Volumes"]),
            ("/Users/a".to_string(), vec!["Google Drive", "My Drive", "Volumes"]),
        ]
    );
    assert_eq!(
        shape(&backups_candidates(Platform::MacOs, &e)),
        vec![
            ("/Users/a".to_string(), vec![".cpc", "backups"]),
            ("/Users/a".to_string(), vec!["Library", "Application Support", "CPC", "backups"]),
        ]
    );
}

#[test]
fn windows_candidates() {
    let e = env(None);
    assert_eq!(
        shape(&volumes_candidates(Platform::Windows, &e)),
        vec![
            ("C:\\My Drive\\Volumes".to_string(), vec![]),
            ("D:\\My Drive\\Volumes".to_string(), vec![]),
            ("C:\\Users\\a".to_string(), vec!["Google Drive", "Volumes"]),
        ]
    );
    assert_eq!(
        shape(&install_candidates(Platform::Windows, &e)),
        vec![
            ("C:\\CPC\\servers".to_string(), vec![]),
            ("C:\\Users\\a\\AppData\\Local".to_string(), vec!["CPC", "servers"]),
        ]
    );
    assert_eq!(
        shape(&backups_candidates(Platform::Windows, &e)),
        vec![
            ("C:\\Users\\a\\AppData\\Local".to_string(), vec!["CPC", "backups"]),
            ("C:\\CPC\\backups".to_string(), vec![]),
        ]
    );
}

#[test]
fn no_candidates_seam() {
    let mut e = env(Some("/home/a"));
    e.no_candidates = Some("1".to_string());
    assert!(candidates_disabled(&e));
    assert!(volumes_candidates(Platform::Linux, &e).is_empty());
    assert!(candidates_for(ConfigKey::InstallPath, Platform::Windows, &e).is_empty());
    e.no_candidates = Some("yes".to_string());
    assert!(!candidates_disabled(&e));
    assert_eq!(candidates_for(ConfigKey::BackupsPath, Platform::Linux, &e).len(), 1);
}

#[test]
fn trim_removes_unicode_white_space() {
    assert_eq!(trim("  a b \n"), "a b");
    assert_eq!(trim("\t\u{3000}x\u{a0}"), "x");
    assert_eq!(trim(" \n "), "");
    assert_eq!(trim("x"), "x");
}

#[test]
fn parse_usize_as_std_does() {
    assert_eq!(parse_usize("42"), Some(42));
    assert_eq!(parse_usize("+7"), Some(7));
    assert_eq!(parse_usize("007"), Some(7));
    assert_eq!(parse_usize(""), None);
    assert_eq!(parse_usize("+"), None);
    assert_eq!(parse_usize("-1"), None);
    assert_eq!(parse_usize("1a"), None);
    assert_eq!(parse_usize(" 1"), None);
    let max = usize::MAX.to_string();
    assert_eq!(parse_usize(&max), Some(usize::MAX));
    assert_eq!(parse_usize(&(max + "0")), None);
    for s in ["0", "12", "+3", "x", "", "99999999999999999999999", "+-1"] {
        assert_eq!(parse_usize(s), s.parse::<usize>().ok(), "{s}");
    }
}
