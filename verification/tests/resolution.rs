use cpc_paths::config::{CpcConfig, MetadataSection, PathsSection};
use cpc_paths::resolver::{
    backups_beside, backups_desc, expects, install_desc, invalidate, start, step, store_cache, try_resolve,
    volumes_desc, CacheEntry, Completion, Observed, PathCache, PathDescriptor, ResolveAction,
    ResolveEvent,
};
use cpc_paths::{ConfigKey, Error, ResolutionMethod};

/// What the outside world answers during one resolution.
struct World {
    cache: Option<(String, ResolutionMethod)>,
    env: Option<(String, bool)>,
    config_file: String,
    volumes: Option<String>,
    install: Option<String>,
    backups: Option<String>,
    configured_exists: bool,
    beside: Option<(String, bool)>,
    listed: Vec<(String, bool)>,
    terminal: bool,
    line: String,
}

impl World {
    fn empty() -> World {
        World {
            cache: None,
            env: None,
            config_file: "/cfg/.cpc-config.toml".to_string(),
            volumes: None,
            install: None,
            backups: None,
            configured_exists: false,
            beside: None,
            listed: Vec::new(),
            terminal: false,
            line: String::new(),
        }
    }

    fn config(&self) -> CpcConfig {
        CpcConfig {
            paths: PathsSection {
                volumes: self.volumes.clone(),
                install: self.install.clone(),
                backups: self.backups.clone(),
            },
            metadata: MetadataSection::default(),
        }
    }
}

/// The questions asked, by kind, and the completion.
fn drive(d: &PathDescriptor, w: &World) -> (Vec<&'static str>, Completion) {
    let (mut state, mut action) = start(d);
    let mut asked = Vec::new();
    loop {
        let event = match action {
            ResolveAction::LookupCache(k) => {
                assert_eq!(k, d.config_key);
                asked.push("cache");
                ResolveEvent::CacheLooked(w.cache.as_ref().map(|(p, m)| CacheEntry {
                    path: p.clone(),
                    method: m.clone(),
                }))
            }
            ResolveAction::ReadEnv(name) => {
                assert_eq!(name, d.env_var);
                asked.push("env");
                ResolveEvent::EnvRead(
                    w.env.as_ref().map(|(p, e)| Observed { path: p.clone(), exists: *e }),
                )
            }
            ResolveAction::ReadConfig => {
                asked.push("config");
                ResolveEvent::ConfigRead { config_file: w.config_file.clone(), config: w.config() }
            }
            ResolveAction::CheckExists(_) => {
                asked.push("exists");
                ResolveEvent::PathChecked(w.configured_exists)
            }
            ResolveAction::ListCandidates(k) => {
                assert_eq!(k, d.config_key);
                asked.push("candidates");
                ResolveEvent::CandidatesListed(
                    w.listed.iter().map(|(p, e)| Observed { path: p.clone(), exists: *e }).collect(),
                )
            }
            ResolveAction::CheckBesideInstall => {
                asked.push("beside install");
                ResolveEvent::InstallBeside(
                    w.beside.as_ref().map(|(p, e)| Observed { path: p.clone(), exists: *e }),
                )
            }
            ResolveAction::CheckTerminal => {
                asked.push("terminal");
                ResolveEvent::TerminalChecked(w.terminal)
            }
            ResolveAction::PromptPath(name) => {
                assert_eq!(name, d.name);
                asked.push("prompt path");
                ResolveEvent::LineRead(w.line.clone())
            }
            ResolveAction::PromptChoice { name, .. } => {
                assert_eq!(name, d.name);
                asked.push("prompt choice");
                ResolveEvent::LineRead(w.line.clone())
            }
            ResolveAction::Complete(c) => return (asked, c),
        };
        assert!(expects(&state, &event));
        let (s, a) = step(d, state, event);
        state = s;
        action = a;
    }
}

fn ok_path(c: &Completion) -> (&str, &ResolutionMethod) {
    match &c.outcome {
        Ok((p, m)) => (p.as_str(), m),
        Err(e) => panic!("expected a path, got {:?}", e),
    }
}

#[test]
fn env_var_takes_precedence() {
    let mut w = World::empty();
    w.env = Some(("/env/vol".to_string(), true));
    w.volumes = Some("/cfg/vol".to_string());
    w.configured_exists = true;
    w.listed = vec![("/auto/vol".to_string(), true)];
    let (asked, c) = drive(&volumes_desc(), &w);
    assert_eq!(asked, vec!["cache", "env"]);
    assert_eq!(ok_path(&c), ("/env/vol", &ResolutionMethod::EnvVar("CPC_VOLUMES_PATH".to_string())));
    assert!(!c.persist);
    let stored = c.store.expect("env path is cached");
    assert_eq!(stored.path, "/env/vol");
    assert_eq!(stored.method, ResolutionMethod::EnvVar("CPC_VOLUMES_PATH".to_string()));
}

#[test]
fn env_var_to_missing_path_is_skipped() {
    let mut w = World::empty();
    w.env = Some(("/env/missing".to_string(), false));
    w.volumes = Some("/cfg/vol".to_string());
    w.configured_exists = true;
    let (asked, c) = drive(&volumes_desc(), &w);
    assert_eq!(asked, vec!["cache", "env", "config", "exists"]);
    assert_eq!(ok_path(&c), ("/cfg/vol", &ResolutionMethod::ConfigFile));
}

#[test]
fn config_file_used_when_no_env() {
    let mut w = World::empty();
    w.volumes = Some("/cfg/vol".to_string());
    w.configured_exists = true;
    let (asked, c) = drive(&volumes_desc(), &w);
    assert_eq!(asked, vec!["cache", "env", "config", "exists"]);
    assert_eq!(ok_path(&c), ("/cfg/vol", &ResolutionMethod::ConfigFile));
    assert!(!c.persist);
    assert_eq!(c.store.expect("cached").path, "/cfg/vol");
}

#[test]
fn config_entry_of_another_key_is_ignored() {
    let mut w = World::empty();
    w.volumes = Some("/cfg/vol".to_string());
    w.configured_exists = true;
    w.listed = vec![("/opt/cpc/servers".to_string(), true)];
    let (asked, c) = drive(&install_desc(), &w);
    assert_eq!(asked, vec!["cache", "env", "config", "candidates"]);
    assert_eq!(ok_path(&c), ("/opt/cpc/servers", &ResolutionMethod::AutoDetect));
}

#[test]
fn configured_path_that_does_not_exist_falls_through() {
    let mut w = World::empty();
    w.backups = Some("/gone".to_string());
    w.configured_exists = false;
    w.listed = vec![("/a".to_string(), false), ("/b".to_string(), true)];
    let (asked, c) = drive(&backups_desc(), &w);
    assert_eq!(asked, vec!["cache", "env", "config", "exists", "beside install", "candidates"]);
    assert_eq!(ok_path(&c), ("/b", &ResolutionMethod::AutoDetect));
    assert!(c.persist);
    let stored = c.store.expect("auto-detected path is cached");
    assert_eq!(stored.path, "/b");
    assert_eq!(stored.method, ResolutionMethod::AutoDetect);
}

#[test]
fn cache_hit_answers_at_once() {
    let mut w = World::empty();
    w.cache = Some(("/cached".to_string(), ResolutionMethod::EnvVar("CPC_VOLUMES_PATH".to_string())));
    w.env = Some(("/env/vol".to_string(), true));
    let (asked, c) = drive(&volumes_desc(), &w);
    assert_eq!(asked, vec!["cache"]);
    assert_eq!(ok_path(&c), ("/cached", &ResolutionMethod::Cache));
    assert!(c.store.is_none());
    assert!(!c.persist);
}

#[test]
fn cache_returns_same_value() {
    let d = volumes_desc();
    let mut cache = PathCache::new();
    let mut w = World::empty();
    w.env = Some(("/env/first".to_string(), true));
    let (_, first) = drive(&d, &w);
    let stored = first.store.expect("stored");
    store_cache(&mut cache, d.config_key, stored.path, stored.method);

    // The environment changes, but the cached answer stands.
    let mut w2 = World::empty();
    w2.env = Some(("/env/second".to_string(), true));
    let hit = cache.cached(d.config_key).expect("cached entry");
    w2.cache = Some((hit.path, hit.method));
    let (_, second) = drive(&d, &w2);
    assert_eq!(ok_path(&second), ("/env/first", &ResolutionMethod::Cache));
}

#[test]
fn invalidate_cache_forces_reresolve() {
    let d = volumes_desc();
    let mut cache = PathCache::new();
    store_cache(&mut cache, d.config_key, "/env/first".to_string(), ResolutionMethod::AutoDetect);
    store_cache(&mut cache, ConfigKey::InstallPath, "/i".to_string(), ResolutionMethod::ConfigFile);
    invalidate(&mut cache);
    assert!(cache.cached(ConfigKey::VolumesPath).is_none());
    assert!(cache.cached(ConfigKey::InstallPath).is_none());
    assert!(cache.cached(ConfigKey::BackupsPath).is_none());

    let mut w = World::empty();
    w.env = Some(("/env/second".to_string(), true));
    w.cache = cache.cached(d.config_key).map(|e| (e.path, e.method));
    let (_, c) = drive(&d, &w);
    assert_eq!(
        ok_path(&c),
        ("/env/second", &ResolutionMethod::EnvVar("CPC_VOLUMES_PATH".to_string()))
    );
}

#[test]
fn store_keeps_other_keys() {
    let mut cache = PathCache::new();
    store_cache(&mut cache, ConfigKey::VolumesPath, "/v".to_string(), ResolutionMethod::AutoDetect);
    store_cache(&mut cache, ConfigKey::BackupsPath, "/b".to_string(), ResolutionMethod::ConfigFile);
    let v = cache.cached(ConfigKey::VolumesPath).expect("volumes");
    assert_eq!(v.path, "/v");
    assert_eq!(v.method, ResolutionMethod::AutoDetect);
    let b = cache.cached(ConfigKey::BackupsPath).expect("backups");
    assert_eq!(b.path, "/b");
    assert!(cache.cached(ConfigKey::InstallPath).is_none());
}

#[test]
fn non_interactive_returns_error_on_no_candidates() {
    let w = World::empty();
    let (asked, c) = drive(&volumes_desc(), &w);
    assert_eq!(asked, vec!["cache", "env", "config", "candidates", "terminal"]);
    assert!(c.store.is_none());
    assert!(!c.persist);
    match c.outcome {
        Err(Error::NotFound { path_type, env_var, config_file }) => {
            assert_eq!(path_type, "Volumes");
            assert_eq!(env_var, "CPC_VOLUMES_PATH");
            assert_eq!(config_file, "/cfg/.cpc-config.toml");
        }
        other => panic!("expected NotFound, got {:?}", other),
    }
}

#[test]
fn non_interactive_install_no_candidates() {
    let mut w = World::empty();
    w.listed = vec![("/x".to_string(), false)];
    let (_, c) = drive(&install_desc(), &w);
    match c.outcome {
        Err(Error::NotFound { path_type, env_var, .. }) => {
            assert_eq!(path_type, "Install");
            assert_eq!(env_var, "CPC_INSTALL_PATH");
        }
        other => panic!("expected NotFound, got {:?}", other),
    }
}

#[test]
fn non_interactive_ambiguous_lists_existing_candidates() {
    let mut w = World::empty();
    w.listed = vec![("/a".to_string(), true), ("/b".to_string(), false), ("/c".to_string(), true)];
    let (asked, c) = drive(&backups_desc(), &w);
    assert!(!asked.contains(&"prompt choice"));
    assert!(c.store.is_none());
    match c.outcome {
        Err(Error::Ambiguous { path_type, candidates, env_var, config_file }) => {
            assert_eq!(path_type, "Backups");
            assert_eq!(candidates, vec!["/a".to_string(), "/c".to_string()]);
            assert_eq!(env_var, "CPC_BACKUPS_PATH");
            assert_eq!(config_file, "/cfg/.cpc-config.toml");
        }
        other => panic!("expected Ambiguous, got {:?}", other),
    }
}

#[test]
fn single_candidate_needs_no_terminal() {
    let mut w = World::empty();
    w.listed = vec![("/only".to_string(), true)];
    let (asked, c) = drive(&volumes_desc(), &w);
    assert!(!asked.contains(&"terminal"));
    assert_eq!(ok_path(&c), ("/only", &ResolutionMethod::AutoDetect));
    assert!(c.persist);
}

#[test]
fn typed_path_is_trimmed_and_kept() {
    let mut w = World::empty();
    w.terminal = true;
    w.line = "  /typed/path \n".to_string();
    let (asked, c) = drive(&volumes_desc(), &w);
    assert_eq!(asked, vec!["cache", "env", "config", "candidates", "terminal", "prompt path"]);
    assert_eq!(ok_path(&c), ("/typed/path", &ResolutionMethod::AutoDetect));
    assert!(c.persist);
    assert_eq!(c.store.expect("cached").path, "/typed/path");
}

fn pick(line: &str) -> String {
    let mut w = World::empty();
    w.terminal = true;
    w.line = line.to_string();
    w.listed = vec![("/a".to_string(), true), ("/b".to_string(), true), ("/c".to_string(), true)];
    let (asked, c) = drive(&volumes_desc(), &w);
    assert_eq!(asked.last(), Some(&"prompt choice"));
    let (p, m) = ok_path(&c);
    assert_eq!(m, &ResolutionMethod::AutoDetect);
    p.to_string()
}

#[test]
fn choice_picks_the_numbered_candidate() {
    assert_eq!(pick("2\n"), "/b");
    assert_eq!(pick(" 3 "), "/c");
    assert_eq!(pick("+1"), "/a");
}

#[test]
fn choice_falls_back_to_the_first_candidate() {
    assert_eq!(pick("abc\n"), "/a");
    assert_eq!(pick("\n"), "/a");
    assert_eq!(pick("0"), "/a");
    assert_eq!(pick("4"), "/a");
    assert_eq!(pick("-2"), "/a");
    assert_eq!(pick("99999999999999999999999"), "/a");
}

#[test]
fn prompt_choice_shows_existing_candidates() {
    let d = volumes_desc();
    let mut w = World::empty();
    w.terminal = true;
    w.listed = vec![("/a".to_string(), true), ("/b".to_string(), false), ("/c".to_string(), true)];
    let (mut state, mut action) = start(&d);
    loop {
        let event = match action {
            ResolveAction::LookupCache(_) => ResolveEvent::CacheLooked(None),
            ResolveAction::ReadEnv(_) => ResolveEvent::EnvRead(None),
            ResolveAction::ReadConfig => ResolveEvent::ConfigRead {
                config_file: w.config_file.clone(),
                config: w.config(),
            },
            ResolveAction::ListCandidates(_) => ResolveEvent::CandidatesListed(
                w.listed.iter().map(|(p, e)| Observed { path: p.clone(), exists: *e }).collect(),
            ),
            ResolveAction::CheckTerminal => ResolveEvent::TerminalChecked(true),
            ResolveAction::PromptChoice { name, candidates } => {
                assert_eq!(name, "Volumes");
                assert_eq!(candidates, vec!["/a".to_string(), "/c".to_string()]);
                return;
            }
            other => panic!("unexpected action {:?}", other),
        };
        let (s, a) = step(&d, state, event);
        state = s;
        action = a;
    }
}

#[test]
fn finished_machine_expects_nothing() {
    let d = volumes_desc();
    let (state, _) = start(&d);
    assert!(!expects(&state, &ResolveEvent::TerminalChecked(true)));
    assert!(expects(&state, &ResolveEvent::CacheLooked(None)));
    let (state, _) = step(
        &d,
        state,
        ResolveEvent::CacheLooked(Some(CacheEntry {
            path: "/p".to_string(),
            method: ResolutionMethod::AutoDetect,
        })),
    );
    assert!(!expects(&state, &ResolveEvent::CacheLooked(None)));
    assert!(!expects(&state, &ResolveEvent::LineRead(String::new())));
}

#[test]
fn try_resolve_reports_failure_as_unresolved() {
    let (p, m) = try_resolve(Ok(("/p".to_string(), ResolutionMethod::ConfigFile)));
    assert_eq!(p, Some("/p".to_string()));
    assert_eq!(m, ResolutionMethod::ConfigFile);
    let (p, m) = try_resolve(Err(Error::NotFound {
        path_type: "Volumes".to_string(),
        env_var: "CPC_VOLUMES_PATH".to_string(),
        config_file: "/c".to_string(),
    }));
    assert_eq!(p, None);
    assert_eq!(m, ResolutionMethod::Unresolved);
}

#[test]
fn descriptors_name_their_variables() {
    let v = volumes_desc();
    assert_eq!((v.name, v.env_var, v.config_key), ("Volumes", "CPC_VOLUMES_PATH", ConfigKey::VolumesPath));
    let i = install_desc();
    assert_eq!((i.name, i.env_var, i.config_key), ("Install", "CPC_INSTALL_PATH", ConfigKey::InstallPath));
    let b = backups_desc();
    assert_eq!((b.name, b.env_var, b.config_key), ("Backups", "CPC_BACKUPS_PATH", ConfigKey::BackupsPath));
}

#[test]
fn backups_derived_from_install() {
    let mut w = World::empty();
    w.listed = vec![
        ("C:\\Users\\a\\AppData\\Local\\CPC\\backups".to_string(), true),
        ("C:\\CPC\\backups".to_string(), true),
    ];
    w.beside = Some(("/cpc/servers/../backups".to_string(), true));
    let (asked, c) = drive(&backups_desc(), &w);
    assert_eq!(asked, vec!["cache", "env", "config", "beside install"]);
    assert_eq!(ok_path(&c), ("/cpc/servers/../backups", &ResolutionMethod::PlatformDefault));
    assert!(!c.persist);
    let stored = c.store.expect("cached");
    assert_eq!(stored.method, ResolutionMethod::PlatformDefault);
}

#[test]
fn missing_backups_beside_install_falls_through() {
    let mut w = World::empty();
    w.beside = Some(("/cpc/servers/../backups".to_string(), false));
    w.listed = vec![("/b".to_string(), true)];
    let (asked, c) = drive(&backups_desc(), &w);
    assert_eq!(asked, vec!["cache", "env", "config", "beside install", "candidates"]);
    assert_eq!(ok_path(&c), ("/b", &ResolutionMethod::AutoDetect));
}

#[test]
fn only_backups_look_beside_install() {
    let mut w = World::empty();
    w.beside = Some(("/x/../backups".to_string(), true));
    let (asked, _) = drive(&volumes_desc(), &w);
    assert!(!asked.contains(&"beside install"));
    let (asked, _) = drive(&install_desc(), &w);
    assert!(!asked.contains(&"beside install"));
}

#[test]
fn backups_beside_joins_up_and_backups() {
    assert_eq!(backups_beside("/opt/cpc/servers"), "/opt/cpc/servers/../backups");
    assert_eq!(backups_beside("/opt/cpc/servers/"), "/opt/cpc/servers/../backups");
    assert_eq!(backups_beside(""), "../backups");
    assert_eq!(backups_beside("/srv/what?/servers"), "/srv/what?/servers/../backups");
}

#[test]
fn error_messages_name_the_remedy() {
    let e = Error::NotFound {
        path_type: "Volumes".to_string(),
        env_var: "CPC_VOLUMES_PATH".to_string(),
        config_file: "/tmp/cfg/.cpc-config.toml".to_string(),
    };
    assert_eq!(
        e.message(),
        "Volumes not found. Set CPC_VOLUMES_PATH or create /tmp/cfg/.cpc-config.toml"
    );
    let e = Error::Ambiguous {
        path_type: "Backups".to_string(),
        candidates: vec!["/a".to_string(), "/b \"q\"".to_string()],
        env_var: "CPC_BACKUPS_PATH".to_string(),
        config_file: "/tmp/cfg/.cpc-config.toml".to_string(),
    };
    assert_eq!(
        e.message(),
        "Multiple candidates for Backups (non-interactive): [\"/a\", \"/b \\\"q\\\"\"]. Set CPC_BACKUPS_PATH or create /tmp/cfg/.cpc-config.toml"
    );
    assert_eq!(Error::ConfigIo("disk".to_string()).message(), "Config file I/O error: disk");
    assert_eq!(Error::ConfigParse("bad".to_string()).message(), "Config file parse error: bad");
    assert_eq!(Error::ConfigWrite("no".to_string()).message(), "Config file write error: no");
}

#[test]
fn not_found_from_the_machine_has_the_message() {
    let (_, c) = drive(&install_desc(), &World::empty());
    let e = c.outcome.expect_err("no path");
    assert_eq!(
        e.message(),
        "Install not found. Set CPC_INSTALL_PATH or create /cfg/.cpc-config.toml"
    );
    assert!(e.message().contains("not found"));
}
