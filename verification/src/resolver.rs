//! Resolution of the three core paths.
//!
//! The precedence is: in-process cache, environment variable, `.cpc-config.toml`,
//! (for the backups path) the `backups` directory beside the install path,
//! auto-detection among known candidates, an interactive prompt (only where a
//! terminal is attached), error. Every look at the outside world (the cache, the
//! environment, the disk, the terminal) is asked for by a `ResolveAction` and
//! answered by a `ResolveEvent`; `step` makes the decisions in between.
use crate::config::{configured_path, CpcConfig};
use crate::error::{strings_view, Error, ErrorView};
use crate::text::{parse_usize, parsed_usize, trim, trim_drops_line_endings, trimmed};
use crate::{is_verbatim, join_path, joins, needs_separator, separated};
use crate::{ConfigKey, MethodView, ResolutionMethod};
use vstd::prelude::*;

verus! {

// ---------------------------------------------------------------------------
// The in-process cache
// ---------------------------------------------------------------------------

/// In-process cache entry: resolved path + how it was resolved.
#[derive(Debug)]
pub struct CacheEntry {
    pub path: String,
    pub method: ResolutionMethod,
}

/// The mathematical value of a `CacheEntry`.
pub struct EntryView {
    pub path: Seq<char>,
    pub method: MethodView,
}

impl View for CacheEntry {
    type V = EntryView;

    open spec fn view(&self) -> EntryView {
        EntryView { path: self.path@, method: self.method@ }
    }
}

impl Clone for CacheEntry {
    fn clone(&self) -> (res: Self)
        ensures
            res@ == self@,
    {
        CacheEntry { path: self.path.clone(), method: self.method.clone() }
    }
}

/// The view of an optional cache entry.
pub open spec fn entry_view(e: Option<CacheEntry>) -> Option<EntryView> {
    match e {
        Some(e) => Some(e@),
        None => None,
    }
}

/// The in-process cache for the three main paths.
#[derive(Debug)]
pub struct PathCache {
    pub volumes: Option<CacheEntry>,
    pub install: Option<CacheEntry>,
    pub backups: Option<CacheEntry>,
}

impl PathCache {
    /// The entry that the cache holds for `key`.
    pub open spec fn entry(&self, key: ConfigKey) -> Option<EntryView> {
        match key {
            ConfigKey::VolumesPath => entry_view(self.volumes),
            ConfigKey::InstallPath => entry_view(self.install),
            ConfigKey::BackupsPath => entry_view(self.backups),
        }
    }

    /// An empty cache.
    pub fn new() -> (cache: PathCache)
        ensures
            forall|k: ConfigKey| cache.entry(k) is None,
    {
        PathCache { volumes: None, install: None, backups: None }
    }

    /// A copy of the entry held for `key`, if any.
    pub fn cached(&self, key: ConfigKey) -> (res: Option<CacheEntry>)
        ensures
            entry_view(res) == self.entry(key),
    {
        let slot = match key {
            ConfigKey::VolumesPath => &self.volumes,
            ConfigKey::InstallPath => &self.install,
            ConfigKey::BackupsPath => &self.backups,
        };
        match slot {
            Some(e) => Some(e.clone()),
            None => None,
        }
    }
}

/// Forgets every cached path, so that the next resolution of each looks again.
pub fn invalidate(cache: &mut PathCache)
    ensures
        forall|k: ConfigKey| final(cache).entry(k) is None,
{
    cache.volumes = None;
    cache.install = None;
    cache.backups = None;
}

/// Remembers `path`, resolved by `method`, for `key`; the other keys keep their entries.
pub fn store_cache(cache: &mut PathCache, key: ConfigKey, path: String, method: ResolutionMethod)
    ensures
        final(cache).entry(key) == Some(EntryView { path: path@, method: method@ }),
        forall|k: ConfigKey| k != key ==> final(cache).entry(k) == old(cache).entry(k),
{
    let entry = CacheEntry { path, method };
    match key {
        ConfigKey::VolumesPath => cache.volumes = Some(entry),
        ConfigKey::InstallPath => cache.install = Some(entry),
        ConfigKey::BackupsPath => cache.backups = Some(entry),
    }
}

// ---------------------------------------------------------------------------
// Descriptors
// ---------------------------------------------------------------------------

/// Descriptor for a path type: its name, its environment variable and its
/// configuration key (which also selects its auto-detect candidates).
#[derive(Debug, Clone, Copy)]
pub struct PathDescriptor {
    pub name: &'static str,
    pub env_var: &'static str,
    pub config_key: ConfigKey,
}

/// The mathematical value of a `PathDescriptor`.
pub struct DescView {
    pub name: Seq<char>,
    pub env_var: Seq<char>,
    pub key: ConfigKey,
}

impl View for PathDescriptor {
    type V = DescView;

    open spec fn view(&self) -> DescView {
        DescView { name: self.name@, env_var: self.env_var@, key: self.config_key }
    }
}

/// The descriptor of the Volumes path (the CPC knowledge base root).
pub fn volumes_desc() -> (d: PathDescriptor)
    ensures
        d.name@ == "Volumes"@,
        d.env_var@ == "CPC_VOLUMES_PATH"@,
        d.config_key == ConfigKey::VolumesPath,
{
    PathDescriptor { name: "Volumes", env_var: "CPC_VOLUMES_PATH", config_key: ConfigKey::VolumesPath }
}

/// The descriptor of the install path (where server binaries live).
pub fn install_desc() -> (d: PathDescriptor)
    ensures
        d.name@ == "Install"@,
        d.env_var@ == "CPC_INSTALL_PATH"@,
        d.config_key == ConfigKey::InstallPath,
{
    PathDescriptor { name: "Install", env_var: "CPC_INSTALL_PATH", config_key: ConfigKey::InstallPath }
}

/// The descriptor of the backups path.
pub fn backups_desc() -> (d: PathDescriptor)
    ensures
        d.name@ == "Backups"@,
        d.env_var@ == "CPC_BACKUPS_PATH"@,
        d.config_key == ConfigKey::BackupsPath,
{
    PathDescriptor { name: "Backups", env_var: "CPC_BACKUPS_PATH", config_key: ConfigKey::BackupsPath }
}

// ---------------------------------------------------------------------------
// What the outside world answers
// ---------------------------------------------------------------------------

/// A path that was looked at on disk, and whether it exists there.
#[derive(Debug)]
pub struct Observed {
    pub path: String,
    pub exists: bool,
}

/// The view of a path looked at on disk: the path and whether it exists.
pub open spec fn observed_view(o: Observed) -> (Seq<char>, bool) {
    (o.path@, o.exists)
}

/// The views of a list of observed paths.
pub open spec fn observed_list(l: Seq<Observed>) -> Seq<(Seq<char>, bool)> {
    l.map_values(|o: Observed| observed_view(o))
}

/// The paths of a configuration's `[paths]` table, as sequences of chars.
pub struct PathsView {
    pub volumes: Option<Seq<char>>,
    pub install: Option<Seq<char>>,
    pub backups: Option<Seq<char>>,
}

/// The view of an optional string.
pub open spec fn opt_str(s: Option<String>) -> Option<Seq<char>> {
    match s {
        Some(s) => Some(s@),
        None => None,
    }
}

/// The paths that a configuration record holds.
pub open spec fn paths_view(cfg: CpcConfig) -> PathsView {
    PathsView {
        volumes: opt_str(cfg.paths.volumes),
        install: opt_str(cfg.paths.install),
        backups: opt_str(cfg.paths.backups),
    }
}

/// The path that the `[paths]` table holds for `key`.
pub open spec fn path_for(p: PathsView, key: ConfigKey) -> Option<Seq<char>> {
    match key {
        ConfigKey::VolumesPath => p.volumes,
        ConfigKey::InstallPath => p.install,
        ConfigKey::BackupsPath => p.backups,
    }
}

/// The answer to the last `ResolveAction`.
#[derive(Debug)]
pub enum ResolveEvent {
    /// The cache's entry for the key, if any.
    CacheLooked(Option<CacheEntry>),
    /// The environment variable's value, if it is set, and whether that path exists.
    EnvRead(Option<Observed>),
    /// The configuration file's location, and its contents (empty where it is
    /// missing or unreadable).
    ConfigRead { config_file: String, config: CpcConfig },
    /// Whether the path to check exists.
    PathChecked(bool),
    /// The auto-detect candidates for the key, each with whether it exists.
    CandidatesListed(Vec<Observed>),
    /// Where the install path resolves: the backups directory beside it
    /// (`backups_beside` of that path) and whether it exists; nothing where the
    /// install path does not resolve.
    InstallBeside(Option<Observed>),
    /// Whether standard input is a terminal.
    TerminalChecked(bool),
    /// The line typed in answer to a prompt.
    LineRead(String),
}

/// The mathematical value of a `ResolveEvent`.
pub enum EventView {
    CacheLooked(Option<EntryView>),
    EnvRead(Option<(Seq<char>, bool)>),
    ConfigRead { config_file: Seq<char>, paths: PathsView },
    PathChecked(bool),
    CandidatesListed(Seq<(Seq<char>, bool)>),
    InstallBeside(Option<(Seq<char>, bool)>),
    TerminalChecked(bool),
    LineRead(Seq<char>),
}

impl View for ResolveEvent {
    type V = EventView;

    open spec fn view(&self) -> EventView {
        match self {
            ResolveEvent::CacheLooked(e) => EventView::CacheLooked(entry_view(*e)),
            ResolveEvent::EnvRead(o) => EventView::EnvRead(
                match o {
                    Some(o) => Some(observed_view(*o)),
                    None => None,
                },
            ),
            ResolveEvent::ConfigRead { config_file, config } => EventView::ConfigRead {
                config_file: config_file@,
                paths: paths_view(*config),
            },
            ResolveEvent::PathChecked(b) => EventView::PathChecked(*b),
            ResolveEvent::CandidatesListed(l) => EventView::CandidatesListed(observed_list(l@)),
            ResolveEvent::InstallBeside(o) => EventView::InstallBeside(
                match o {
                    Some(o) => Some(observed_view(*o)),
                    None => None,
                },
            ),
            ResolveEvent::TerminalChecked(b) => EventView::TerminalChecked(*b),
            ResolveEvent::LineRead(line) => EventView::LineRead(line@),
        }
    }
}

// ---------------------------------------------------------------------------
// What the machine asks for, and how it ends
// ---------------------------------------------------------------------------

/// How a resolution ends: the result, whether the resolved path is to be written
/// to the configuration file (a failure to write is ignored), and what is to be
/// stored in the cache.
#[derive(Debug)]
pub struct Completion {
    pub persist: bool,
    pub store: Option<CacheEntry>,
    pub outcome: Result<(String, ResolutionMethod), Error>,
}

/// The mathematical value of a `Completion`.
pub struct CompletionView {
    pub persist: bool,
    pub store: Option<EntryView>,
    pub outcome: Result<(Seq<char>, MethodView), ErrorView>,
}

impl View for Completion {
    type V = CompletionView;

    open spec fn view(&self) -> CompletionView {
        CompletionView {
            persist: self.persist,
            store: entry_view(self.store),
            outcome: match self.outcome {
                Ok((p, m)) => Ok((p@, m@)),
                Err(e) => Err(e@),
            },
        }
    }
}

/// What the machine needs next.
#[derive(Debug)]
pub enum ResolveAction {
    /// Look up the key in the in-process cache.
    LookupCache(ConfigKey),
    /// Read the environment variable and check whether its path exists.
    ReadEnv(&'static str),
    /// Locate and read the configuration file.
    ReadConfig,
    /// Check whether the path exists.
    CheckExists(String),
    /// List the auto-detect candidates for the key, each with whether it exists.
    ListCandidates(ConfigKey),
    /// Resolve the install path; where it resolves, look whether the backups
    /// directory beside it (`backups_beside`) exists.
    CheckBesideInstall,
    /// Check whether standard input is a terminal.
    CheckTerminal,
    /// Ask on the terminal for the path of the named type, and read one line.
    PromptPath(&'static str),
    /// List the candidates of the named type on the terminal, ask for a number, and read one line.
    PromptChoice { name: &'static str, candidates: Vec<String> },
    /// The resolution is over.
    Complete(Completion),
}

/// The mathematical value of a `ResolveAction`.
pub enum ActionView {
    LookupCache(ConfigKey),
    ReadEnv(Seq<char>),
    ReadConfig,
    CheckExists(Seq<char>),
    ListCandidates(ConfigKey),
    CheckBesideInstall,
    CheckTerminal,
    PromptPath(Seq<char>),
    PromptChoice { name: Seq<char>, candidates: Seq<Seq<char>> },
    Complete(CompletionView),
}

impl View for ResolveAction {
    type V = ActionView;

    open spec fn view(&self) -> ActionView {
        match self {
            ResolveAction::LookupCache(k) => ActionView::LookupCache(*k),
            ResolveAction::ReadEnv(v) => ActionView::ReadEnv(v@),
            ResolveAction::ReadConfig => ActionView::ReadConfig,
            ResolveAction::CheckExists(p) => ActionView::CheckExists(p@),
            ResolveAction::ListCandidates(k) => ActionView::ListCandidates(*k),
            ResolveAction::CheckBesideInstall => ActionView::CheckBesideInstall,
            ResolveAction::CheckTerminal => ActionView::CheckTerminal,
            ResolveAction::PromptPath(n) => ActionView::PromptPath(n@),
            ResolveAction::PromptChoice { name, candidates } => ActionView::PromptChoice {
                name: name@,
                candidates: strings_view(candidates@),
            },
            ResolveAction::Complete(c) => ActionView::Complete(c@),
        }
    }
}

// ---------------------------------------------------------------------------
// The machine's states
// ---------------------------------------------------------------------------

/// Where a resolution stands: which answer it waits for, and what it has kept.
#[derive(Debug)]
pub enum ResolveState {
    AwaitCache,
    AwaitEnv,
    AwaitConfig,
    AwaitConfigExists { config_file: String, path: String },
    AwaitBeside { config_file: String },
    AwaitCandidates { config_file: String },
    AwaitTerminal { config_file: String, candidates: Vec<String> },
    AwaitTypedPath,
    AwaitChoice { candidates: Vec<String> },
    Finished,
}

/// The mathematical value of a `ResolveState`.
pub enum StateView {
    AwaitCache,
    AwaitEnv,
    AwaitConfig,
    AwaitConfigExists { config_file: Seq<char>, path: Seq<char> },
    AwaitBeside { config_file: Seq<char> },
    AwaitCandidates { config_file: Seq<char> },
    AwaitTerminal { config_file: Seq<char>, candidates: Seq<Seq<char>> },
    AwaitTypedPath,
    AwaitChoice { candidates: Seq<Seq<char>> },
    Finished,
}

impl View for ResolveState {
    type V = StateView;

    open spec fn view(&self) -> StateView {
        match self {
            ResolveState::AwaitCache => StateView::AwaitCache,
            ResolveState::AwaitEnv => StateView::AwaitEnv,
            ResolveState::AwaitConfig => StateView::AwaitConfig,
            ResolveState::AwaitConfigExists { config_file, path } => StateView::AwaitConfigExists {
                config_file: config_file@,
                path: path@,
            },
            ResolveState::AwaitBeside { config_file } => StateView::AwaitBeside {
                config_file: config_file@,
            },
            ResolveState::AwaitCandidates { config_file } => StateView::AwaitCandidates {
                config_file: config_file@,
            },
            ResolveState::AwaitTerminal { config_file, candidates } => StateView::AwaitTerminal {
                config_file: config_file@,
                candidates: strings_view(candidates@),
            },
            ResolveState::AwaitTypedPath => StateView::AwaitTypedPath,
            ResolveState::AwaitChoice { candidates } => StateView::AwaitChoice {
                candidates: strings_view(candidates@),
            },
            ResolveState::Finished => StateView::Finished,
        }
    }
}

// ---------------------------------------------------------------------------
// The decisions
// ---------------------------------------------------------------------------

/// The candidates that exist, in the order listed.
pub open spec fn existing(listed: Seq<(Seq<char>, bool)>) -> Seq<Seq<char>>
    decreases listed.len(),
{
    if listed.len() == 0 {
        Seq::empty()
    } else {
        let rest = existing(listed.drop_last());
        if listed.last().1 {
            rest.push(listed.last().0)
        } else {
            rest
        }
    }
}

/// The index of the candidate picked by the number typed on `line`, among `n`
/// candidates: the number counts from 1; a line that is not a number picks the
/// first, and so does a number past the end.
pub open spec fn chosen_index(line: Seq<char>, n: int) -> int {
    let number: int = match parsed_usize(trimmed(line)) {
        Some(k) => k as int,
        None => 1,
    };
    let index = if number >= 1 {
        number - 1
    } else {
        0
    };
    if index < n {
        index
    } else {
        0
    }
}

/// A path found by the environment or the configuration file: used and cached,
/// not written back.
pub open spec fn found(path: Seq<char>, method: MethodView) -> CompletionView {
    CompletionView {
        persist: false,
        store: Some(EntryView { path, method }),
        outcome: Ok((path, method)),
    }
}

/// An auto-detected or typed path: used, cached, and written to the configuration file.
pub open spec fn auto_detected(path: Seq<char>) -> CompletionView {
    CompletionView {
        persist: true,
        store: Some(EntryView { path, method: MethodView::AutoDetect }),
        outcome: Ok((path, MethodView::AutoDetect)),
    }
}

/// A failed resolution: nothing is cached or written.
pub open spec fn failed(e: ErrorView) -> CompletionView {
    CompletionView { persist: false, store: None, outcome: Err(e) }
}

/// The answer from the cache.
pub open spec fn cache_hit(entry: EntryView) -> CompletionView {
    CompletionView { persist: false, store: None, outcome: Ok((entry.path, MethodView::Cache)) }
}

/// Where a resolution goes once the configuration file has given nothing usable:
/// for the backups path, to the directory beside the install path; for the
/// others, to the auto-detect candidates.
pub open spec fn after_config(d: DescView, config_file: Seq<char>) -> (StateView, ActionView) {
    if d.key is BackupsPath {
        (StateView::AwaitBeside { config_file }, ActionView::CheckBesideInstall)
    } else {
        (StateView::AwaitCandidates { config_file }, ActionView::ListCandidates(d.key))
    }
}

/// Whether `e` answers the question that `s` waits on (a choice waits only
/// among some candidates).
pub open spec fn accepts(s: StateView, e: EventView) -> bool {
    match s {
        StateView::AwaitCache => e is CacheLooked,
        StateView::AwaitEnv => e is EnvRead,
        StateView::AwaitConfig => e is ConfigRead,
        StateView::AwaitConfigExists { .. } => e is PathChecked,
        StateView::AwaitBeside { .. } => e is InstallBeside,
        StateView::AwaitCandidates { .. } => e is CandidatesListed,
        StateView::AwaitTerminal { .. } => e is TerminalChecked,
        StateView::AwaitTypedPath => e is LineRead,
        StateView::AwaitChoice { candidates } => e is LineRead && candidates.len() > 0,
        StateView::Finished => false,
    }
}

/// The transition of the resolution machine for the path that `d` describes.
pub open spec fn next(d: DescView, s: StateView, e: EventView) -> (StateView, ActionView) {
    match (s, e) {
        (StateView::AwaitCache, EventView::CacheLooked(Some(entry))) => (
            StateView::Finished,
            ActionView::Complete(cache_hit(entry)),
        ),
        (StateView::AwaitCache, EventView::CacheLooked(None)) => (
            StateView::AwaitEnv,
            ActionView::ReadEnv(d.env_var),
        ),
        (StateView::AwaitEnv, EventView::EnvRead(env)) => match env {
            Some((path, true)) => (
                StateView::Finished,
                ActionView::Complete(found(path, MethodView::EnvVar(d.env_var))),
            ),
            _ => (StateView::AwaitConfig, ActionView::ReadConfig),
        },
        (StateView::AwaitConfig, EventView::ConfigRead { config_file, paths }) => match path_for(
            paths,
            d.key,
        ) {
            Some(path) => (
                StateView::AwaitConfigExists { config_file, path },
                ActionView::CheckExists(path),
            ),
            None => after_config(d, config_file),
        },
        (StateView::AwaitConfigExists { config_file, path }, EventView::PathChecked(exists)) => {
            if exists {
                (StateView::Finished, ActionView::Complete(found(path, MethodView::ConfigFile)))
            } else {
                after_config(d, config_file)
            }
        },
        (StateView::AwaitBeside { config_file }, EventView::InstallBeside(beside)) => match beside {
            Some((path, true)) => (
                StateView::Finished,
                ActionView::Complete(found(path, MethodView::PlatformDefault)),
            ),
            _ => (StateView::AwaitCandidates { config_file }, ActionView::ListCandidates(d.key)),
        },
        (StateView::AwaitCandidates { config_file }, EventView::CandidatesListed(listed)) => {
            let candidates = existing(listed);
            if candidates.len() == 1 {
                (StateView::Finished, ActionView::Complete(auto_detected(candidates[0])))
            } else {
                (StateView::AwaitTerminal { config_file, candidates }, ActionView::CheckTerminal)
            }
        },
        (
            StateView::AwaitTerminal { config_file, candidates },
            EventView::TerminalChecked(terminal),
        ) => {
            if candidates.len() == 0 {
                if terminal {
                    (StateView::AwaitTypedPath, ActionView::PromptPath(d.name))
                } else {
                    (
                        StateView::Finished,
                        ActionView::Complete(
                            failed(
                                ErrorView::NotFound {
                                    path_type: d.name,
                                    env_var: d.env_var,
                                    config_file,
                                },
                            ),
                        ),
                    )
                }
            } else if terminal {
                (
                    StateView::AwaitChoice { candidates },
                    ActionView::PromptChoice { name: d.name, candidates },
                )
            } else {
                (
                    StateView::Finished,
                    ActionView::Complete(
                        failed(
                            ErrorView::Ambiguous {
                                path_type: d.name,
                                candidates,
                                env_var: d.env_var,
                                config_file,
                            },
                        ),
                    ),
                )
            }
        },
        (StateView::AwaitTypedPath, EventView::LineRead(line)) => (
            StateView::Finished,
            ActionView::Complete(auto_detected(trimmed(line))),
        ),
        (StateView::AwaitChoice { candidates }, EventView::LineRead(line)) => (
            StateView::Finished,
            ActionView::Complete(
                auto_detected(candidates[chosen_index(line, candidates.len() as int)]),
            ),
        ),
        // Not reached: `step` takes only events that `accepts` admits.
        _ => (s, ActionView::CheckTerminal),
    }
}

/// The first question of a resolution: the cache's entry for the key.
pub fn start(d: &PathDescriptor) -> (res: (ResolveState, ResolveAction))
    ensures
        res.0@ == StateView::AwaitCache,
        res.1@ == ActionView::LookupCache(d.config_key),
{
    (ResolveState::AwaitCache, ResolveAction::LookupCache(d.config_key))
}

/// Whether `event` answers the question that `state` waits on.
pub fn expects(state: &ResolveState, event: &ResolveEvent) -> (res: bool)
    ensures
        res == accepts(state@, event@),
{
    match (state, event) {
        (ResolveState::AwaitCache, ResolveEvent::CacheLooked(_)) => true,
        (ResolveState::AwaitEnv, ResolveEvent::EnvRead(_)) => true,
        (ResolveState::AwaitConfig, ResolveEvent::ConfigRead { .. }) => true,
        (ResolveState::AwaitConfigExists { .. }, ResolveEvent::PathChecked(_)) => true,
        (ResolveState::AwaitBeside { .. }, ResolveEvent::InstallBeside(_)) => true,
        (ResolveState::AwaitCandidates { .. }, ResolveEvent::CandidatesListed(_)) => true,
        (ResolveState::AwaitTerminal { .. }, ResolveEvent::TerminalChecked(_)) => true,
        (ResolveState::AwaitTypedPath, ResolveEvent::LineRead(_)) => true,
        (ResolveState::AwaitChoice { candidates }, ResolveEvent::LineRead(_)) => candidates.len()
            > 0,
        _ => false,
    }
}

fn clone_strings(v: &Vec<String>) -> (res: Vec<String>)
    ensures
        res@ == v@,
{
    let mut res: Vec<String> = Vec::new();
    let mut i: usize = 0;
    while i < v.len()
        invariant
            i <= v.len(),
            res@ == v@.take(i as int),
        decreases v.len() - i,
    {
        res.push(v[i].clone());
        assert(v@.take(i + 1) =~= v@.take(i as int).push(v@[i as int]));
        i = i + 1;
    }
    assert(v@.take(v.len() as int) =~= v@);
    res
}

/// The paths of the listed candidates that exist, in the order listed.
fn existing_paths(listed: &Vec<Observed>) -> (res: Vec<String>)
    ensures
        strings_view(res@) == existing(observed_list(listed@)),
{
    let mut res: Vec<String> = Vec::new();
    let mut i: usize = 0;
    while i < listed.len()
        invariant
            i <= listed.len(),
            strings_view(res@) == existing(observed_list(listed@.take(i as int))),
        decreases listed.len() - i,
    {
        let ghost before = res@;
        let o = &listed[i];
        if o.exists {
            res.push(o.path.clone());
        }
        proof {
            let l = observed_list(listed@.take(i + 1));
            assert(l.drop_last() =~= observed_list(listed@.take(i as int)));
            assert(l.last() == observed_view(listed@[i as int]));
            if o.exists {
                assert(strings_view(res@) =~= strings_view(before).push(o.path@));
            }
        }
        i = i + 1;
    }
    assert(listed@.take(listed.len() as int) =~= listed@);
    res
}

fn method_env(d: &PathDescriptor) -> (m: ResolutionMethod)
    ensures
        m@ == MethodView::EnvVar(d.env_var@),
{
    ResolutionMethod::EnvVar(String::from_str(d.env_var))
}

fn found_exec(path: String, method: ResolutionMethod) -> (c: Completion)
    ensures
        c@ == found(path@, method@),
{
    let entry = CacheEntry { path: path.clone(), method: method.clone() };
    Completion { persist: false, store: Some(entry), outcome: Ok((path, method)) }
}

fn auto_detected_exec(path: String) -> (c: Completion)
    ensures
        c@ == auto_detected(path@),
{
    let entry = CacheEntry { path: path.clone(), method: ResolutionMethod::AutoDetect };
    Completion { persist: true, store: Some(entry), outcome: Ok((path, ResolutionMethod::AutoDetect)) }
}

fn failed_exec(e: Error) -> (c: Completion)
    ensures
        c@ == failed(e@),
{
    Completion { persist: false, store: None, outcome: Err(e) }
}

fn after_config_exec(d: &PathDescriptor, config_file: String) -> (res: (ResolveState, ResolveAction))
    ensures
        (res.0@, res.1@) == after_config(d@, config_file@),
{
    match d.config_key {
        ConfigKey::BackupsPath => (
            ResolveState::AwaitBeside { config_file },
            ResolveAction::CheckBesideInstall,
        ),
        _ => (
            ResolveState::AwaitCandidates { config_file },
            ResolveAction::ListCandidates(d.config_key),
        ),
    }
}

/// Whether `p` is, or begins, a verbatim prefix `\\?\`: then `Path::join` may
/// normalise what is joined onto it.
pub open spec fn may_be_verbatim(p: Seq<char>) -> bool {
    is_verbatim(p + seq!['\\'])
}

/// The backups directory beside the install path: `{install}/../backups`, as
/// `Path::join` builds it (`..` joined onto the install path as `joins` says,
/// then `backups` after a separator).
pub fn backups_beside(install: &str) -> (path: String)
    ensures
        !may_be_verbatim(install@) ==> exists|up: Seq<char>|
            joins(install@, ".."@, up) && #[trigger] separated(up, "backups"@, path@),
{
    proof {
        reveal_strlit("..");
        reveal_strlit("backups");
    }
    let up = join_path(install, "..");
    let path = join_path(up.as_str(), "backups");
    proof {
        if !may_be_verbatim(install@) {
            let i = install@;
            let u = up@;
            let dots = ".."@;
            assert(dots =~= seq!['.', '.']);
            assert(!is_verbatim(i)) by {
                if is_verbatim(i) {
                    assert((i + seq!['\\']).subrange(0, 4) =~= i.subrange(0, 4));
                }
            }
            // `up` is `install` extended by `..`: it ends in `.` and is no verbatim path.
            assert(u.len() >= 2 && u[u.len() - 1] == '.' && u[u.len() - 2] == '.');
            assert(u.last() == '.');
            assert(!(u.len() == 2 && u[1] == ':'));
            assert(!is_verbatim(u)) by {
                if is_verbatim(u) {
                    if i.len() >= 4 {
                        assert(u.subrange(0, 4) =~= i.subrange(0, 4));
                    } else {
                        // A short install path: either `up` begins as `install` followed
                        // by `\` (excluded above), or a `.` or `/` stands among its first four.
                        assert(u.subrange(0, 4) =~= (i + seq!['\\']).subrange(0, 4) || u[3] == '.'
                            || u[2] == '.' || u[2] == '/' || u[3] == '/');
                    }
                }
            }
            assert(needs_separator(u));
            assert(separated(u, "backups"@, path@));
        }
    }
    path
}

/// The index of the candidate picked by the number typed on `line`, among `n > 0` candidates.
fn choose_candidate(line: &str, n: usize) -> (i: usize)
    requires
        n > 0,
    ensures
        i == chosen_index(line@, n as int),
        i < n,
{
    let t = trim(line);
    let number = match parse_usize(t.as_str()) {
        Some(k) => k,
        None => 1,
    };
    let index = number.saturating_sub(1);
    if index < n {
        index
    } else {
        0
    }
}

/// Takes the answer to the pending question and returns the next state and what
/// is needed next (the end of the resolution, with its result, when it is over).
///
/// The precedence: a cached entry answers at once; an environment variable whose
/// path exists comes next; then a configured path that exists; then, for the
/// backups path, an existing `backups` directory beside the install path; then
/// the only existing auto-detect candidate. Where none or several candidates exist, a
/// terminal is asked (for a path, or for a number among the candidates), and
/// without a terminal the resolution fails without prompting.
pub fn step(d: &PathDescriptor, state: ResolveState, event: ResolveEvent) -> (res: (
    ResolveState,
    ResolveAction,
))
    requires
        accepts(state@, event@),
    ensures
        (res.0@, res.1@) == next(d@, state@, event@),
{
    match (state, event) {
        (ResolveState::AwaitCache, ResolveEvent::CacheLooked(Some(entry))) => {
            let c = Completion {
                persist: false,
                store: None,
                outcome: Ok((entry.path, ResolutionMethod::Cache)),
            };
            (ResolveState::Finished, ResolveAction::Complete(c))
        },
        (ResolveState::AwaitCache, ResolveEvent::CacheLooked(None)) => {
            (ResolveState::AwaitEnv, ResolveAction::ReadEnv(d.env_var))
        },
        (ResolveState::AwaitEnv, ResolveEvent::EnvRead(env)) => match env {
            Some(o) if o.exists => {
                let c = found_exec(o.path, method_env(d));
                (ResolveState::Finished, ResolveAction::Complete(c))
            },
            _ => (ResolveState::AwaitConfig, ResolveAction::ReadConfig),
        },
        (ResolveState::AwaitConfig, ResolveEvent::ConfigRead { config_file, config }) => {
            match configured_path(&config, d.config_key) {
                Some(path) => {
                    let shown = path.clone();
                    (
                        ResolveState::AwaitConfigExists { config_file, path },
                        ResolveAction::CheckExists(shown),
                    )
                },
                None => after_config_exec(d, config_file),
            }
        },
        (
            ResolveState::AwaitConfigExists { config_file, path },
            ResolveEvent::PathChecked(exists),
        ) => {
            if exists {
                let c = found_exec(path, ResolutionMethod::ConfigFile);
                (ResolveState::Finished, ResolveAction::Complete(c))
            } else {
                after_config_exec(d, config_file)
            }
        },
        (ResolveState::AwaitBeside { config_file }, ResolveEvent::InstallBeside(beside)) => {
            match beside {
                Some(o) if o.exists => {
                    let c = found_exec(o.path, ResolutionMethod::PlatformDefault);
                    (ResolveState::Finished, ResolveAction::Complete(c))
                },
                _ => (
                    ResolveState::AwaitCandidates { config_file },
                    ResolveAction::ListCandidates(d.config_key),
                ),
            }
        },
        (ResolveState::AwaitCandidates { config_file }, ResolveEvent::CandidatesListed(listed)) => {
            let candidates = existing_paths(&listed);
            if candidates.len() == 1 {
                let c = auto_detected_exec(candidates[0].clone());
                (ResolveState::Finished, ResolveAction::Complete(c))
            } else {
                (
                    ResolveState::AwaitTerminal { config_file, candidates },
                    ResolveAction::CheckTerminal,
                )
            }
        },
        (
            ResolveState::AwaitTerminal { config_file, candidates },
            ResolveEvent::TerminalChecked(terminal),
        ) => {
            if candidates.len() == 0 {
                if terminal {
                    (ResolveState::AwaitTypedPath, ResolveAction::PromptPath(d.name))
                } else {
                    let e = Error::NotFound {
                        path_type: String::from_str(d.name),
                        env_var: String::from_str(d.env_var),
                        config_file,
                    };
                    (ResolveState::Finished, ResolveAction::Complete(failed_exec(e)))
                }
            } else if terminal {
                let shown = clone_strings(&candidates);
                (
                    ResolveState::AwaitChoice { candidates },
                    ResolveAction::PromptChoice { name: d.name, candidates: shown },
                )
            } else {
                let e = Error::Ambiguous {
                    path_type: String::from_str(d.name),
                    candidates,
                    env_var: String::from_str(d.env_var),
                    config_file,
                };
                (ResolveState::Finished, ResolveAction::Complete(failed_exec(e)))
            }
        },
        (ResolveState::AwaitTypedPath, ResolveEvent::LineRead(line)) => {
            let p = trim(line.as_str());
            (ResolveState::Finished, ResolveAction::Complete(auto_detected_exec(p)))
        },
        (ResolveState::AwaitChoice { candidates }, ResolveEvent::LineRead(line)) => {
            let i = choose_candidate(line.as_str(), candidates.len());
            let p = candidates[i].clone();
            (ResolveState::Finished, ResolveAction::Complete(auto_detected_exec(p)))
        },
        (state, _) => (state, ResolveAction::CheckTerminal),
    }
}

/// The path and method of a resolution, or no path and `Unresolved` where it failed.
pub fn try_resolve(outcome: Result<(String, ResolutionMethod), Error>) -> (res: (
    Option<String>,
    ResolutionMethod,
))
    ensures
        outcome matches Ok((p, m)) ==> res.0 == Some(p) && res.1 == m,
        outcome is Err ==> res.0 is None && res.1 is Unresolved,
{
    match outcome {
        Ok((p, m)) => (Some(p), m),
        Err(_) => (None, ResolutionMethod::Unresolved),
    }
}

// ---------------------------------------------------------------------------
// The precedence, stated whole
// ---------------------------------------------------------------------------

/// Everything the outside world answers during one resolution: the cache entry,
/// the environment variable (its value and whether that path exists), the
/// configuration file's location and paths, whether the configured path exists,
/// the backups directory beside the resolved install path (and whether it
/// exists; nothing where the install path does not resolve), the listed
/// candidates, whether a terminal is attached, and the typed line.
pub struct Observations {
    pub cache: Option<EntryView>,
    pub env: Option<(Seq<char>, bool)>,
    pub config_file: Seq<char>,
    pub paths: PathsView,
    pub configured_exists: bool,
    pub beside: Option<(Seq<char>, bool)>,
    pub listed: Seq<(Seq<char>, bool)>,
    pub terminal: bool,
    pub line: Seq<char>,
}

/// Whether a path was observed, and exists.
pub open spec fn usable(env: Option<(Seq<char>, bool)>) -> bool {
    match env {
        Some((_, exists)) => exists,
        None => false,
    }
}

/// The path observed.
pub open spec fn observed_path(env: Option<(Seq<char>, bool)>) -> Seq<char> {
    match env {
        Some((path, _)) => path,
        None => Seq::empty(),
    }
}

/// The result of resolving the path that `d` describes against the observations
/// `o`: cache, then environment variable, then configuration file, then (for
/// the backups path only) the existing directory beside the install path, then
/// the only existing candidate, then (with a terminal) the typed path or the chosen
/// candidate; without a terminal, `NotFound` or `Ambiguous`.
pub open spec fn resolution(d: DescView, o: Observations) -> CompletionView {
    if o.cache is Some {
        cache_hit(o.cache->0)
    } else if usable(o.env) {
        found(observed_path(o.env), MethodView::EnvVar(d.env_var))
    } else if path_for(o.paths, d.key) is Some && o.configured_exists {
        found(path_for(o.paths, d.key)->0, MethodView::ConfigFile)
    } else if d.key is BackupsPath && usable(o.beside) {
        found(observed_path(o.beside), MethodView::PlatformDefault)
    } else {
        let c = existing(o.listed);
        if c.len() == 1 {
            auto_detected(c[0])
        } else if !o.terminal {
            if c.len() == 0 {
                failed(
                    ErrorView::NotFound {
                        path_type: d.name,
                        env_var: d.env_var,
                        config_file: o.config_file,
                    },
                )
            } else {
                failed(
                    ErrorView::Ambiguous {
                        path_type: d.name,
                        candidates: c,
                        env_var: d.env_var,
                        config_file: o.config_file,
                    },
                )
            }
        } else if c.len() == 0 {
            auto_detected(trimmed(o.line))
        } else {
            auto_detected(c[chosen_index(o.line, c.len() as int)])
        }
    }
}

/// What the outside world described by `o` answers to the question `a`.
pub open spec fn answer(a: ActionView, o: Observations) -> EventView {
    match a {
        ActionView::LookupCache(_) => EventView::CacheLooked(o.cache),
        ActionView::ReadEnv(_) => EventView::EnvRead(o.env),
        ActionView::ReadConfig => EventView::ConfigRead { config_file: o.config_file, paths: o.paths },
        ActionView::CheckExists(_) => EventView::PathChecked(o.configured_exists),
        ActionView::ListCandidates(_) => EventView::CandidatesListed(o.listed),
        ActionView::CheckBesideInstall => EventView::InstallBeside(o.beside),
        ActionView::CheckTerminal => EventView::TerminalChecked(o.terminal),
        ActionView::PromptPath(_) => EventView::LineRead(o.line),
        ActionView::PromptChoice { .. } => EventView::LineRead(o.line),
        ActionView::Complete(_) => EventView::CacheLooked(o.cache),
    }
}

/// Runs the machine from state `s` with pending question `a`, answering from `o`,
/// for at most `fuel` answers; stops at the end of the resolution, or where an
/// answer would not be accepted.
pub open spec fn run(d: DescView, s: StateView, a: ActionView, o: Observations, fuel: nat) -> ActionView
    decreases fuel,
{
    if fuel == 0 || a is Complete || !accepts(s, answer(a, o)) {
        a
    } else {
        let (s2, a2) = next(d, s, answer(a, o));
        run(d, s2, a2, o, (fuel - 1) as nat)
    }
}

/// The machine implements the precedence: started as `start` starts it and
/// answered from any observations, it accepts every answer and ends, within
/// eight answers, with exactly the `resolution` of those observations.
pub proof fn machine_follows_precedence(d: DescView, o: Observations)
    ensures
        run(d, StateView::AwaitCache, ActionView::LookupCache(d.key), o, 8) == ActionView::Complete(
            resolution(d, o),
        ),
{
    reveal_with_fuel(run, 9);
    let c = existing(o.listed);
    if o.cache is None && !usable(o.env) {
        if path_for(o.paths, d.key) is Some {
            let s3 = StateView::AwaitConfigExists {
                config_file: o.config_file,
                path: path_for(o.paths, d.key)->0,
            };
            assert(next(d, StateView::AwaitConfig, answer(ActionView::ReadConfig, o)) == (
                s3,
                ActionView::CheckExists(path_for(o.paths, d.key)->0),
            ));
        }
        if c.len() != 1 {
            let s5 = StateView::AwaitTerminal { config_file: o.config_file, candidates: c };
            if o.terminal && c.len() > 0 {
                assert(next(d, s5, EventView::TerminalChecked(true)).0 == StateView::AwaitChoice {
                    candidates: c,
                });
            }
        }
    }
}

/// The non-interactive guarantee: a prompt is issued only right after the
/// answer that a terminal is attached.
pub proof fn prompts_only_on_a_terminal(d: DescView, s: StateView, e: EventView)
    requires
        accepts(s, e),
    ensures
        (next(d, s, e).1 is PromptPath || next(d, s, e).1 is PromptChoice) ==> e
            == EventView::TerminalChecked(true),
{
}

/// No negative cache: a failed resolution stores nothing in the cache and writes
/// nothing to the configuration file.
pub proof fn failures_are_not_kept(d: DescView, s: StateView, e: EventView)
    requires
        accepts(s, e),
    ensures
        next(d, s, e).1 matches ActionView::Complete(c) ==> (c.outcome is Err ==> c.store is None
            && !c.persist),
{
}

/// Only auto-detected (or typed) paths are written to the configuration file.
pub proof fn only_auto_detected_paths_are_written(d: DescView, s: StateView, e: EventView)
    requires
        accepts(s, e),
    ensures
        next(d, s, e).1 matches ActionView::Complete(c) ==> (c.persist ==> c.outcome
            == Ok::<(Seq<char>, MethodView), ErrorView>(
            (c.outcome->Ok_0.0, MethodView::AutoDetect),
        )),
{
}

/// What a resolution stores in the cache is the path and method that it returns.
pub proof fn stored_entry_is_the_result(d: DescView, s: StateView, e: EventView)
    requires
        accepts(s, e),
    ensures
        next(d, s, e).1 matches ActionView::Complete(c) ==> (c.store matches Some(entry)
            ==> c.outcome == Ok::<(Seq<char>, MethodView), ErrorView>((entry.path, entry.method))),
{
}

/// The cache returns the same value: once a resolution has stored its path,
/// a later resolution that finds that entry in the cache returns the same path,
/// as resolved from the cache, whatever the environment and the disk say by then.
pub proof fn cache_returns_same_value(
    d: DescView,
    first: Observations,
    cache: PathCache,
    later: Observations,
)
    requires
        resolution(d, first).store is Some,
        cache.entry(d.key) == resolution(d, first).store,
        later.cache == cache.entry(d.key),
    ensures
        resolution(d, first).outcome is Ok,
        resolution(d, later).outcome == Ok::<(Seq<char>, MethodView), ErrorView>(
            (resolution(d, first).outcome->Ok_0.0, MethodView::Cache),
        ),
{
}

/// After the cache is invalidated, the next resolution is not answered from the
/// cache: it is what the environment, the configuration and the disk give.
pub proof fn invalidate_forces_reresolve(d: DescView, cache: PathCache, o: Observations)
    requires
        forall|k: ConfigKey| cache.entry(k) is None,
        o.cache == cache.entry(d.key),
    ensures
        !(resolution(d, o).outcome matches Ok((_, MethodView::Cache))),
{
}

/// Without a cached entry, an environment variable whose path exists takes
/// precedence over the configuration file and auto-detection.
pub proof fn env_var_takes_precedence(d: DescView, o: Observations, path: Seq<char>)
    requires
        o.cache is None,
        o.env == Some((path, true)),
    ensures
        resolution(d, o) == found(path, MethodView::EnvVar(d.env_var)),
{
}

/// Without a cached entry or an existing environment path, a configured path
/// that exists is used before auto-detection.
pub proof fn config_file_used_when_no_env(d: DescView, o: Observations, path: Seq<char>)
    requires
        o.cache is None,
        !usable(o.env),
        path_for(o.paths, d.key) == Some(path),
        o.configured_exists,
    ensures
        resolution(d, o) == found(path, MethodView::ConfigFile),
{
}

/// For the backups path, once the environment and the configuration file give
/// nothing usable, an existing `backups` directory beside the resolved install
/// path is used, as the platform default, before any auto-detection: however
/// many candidates exist, and with or without a terminal, there is no prompt
/// and no `Ambiguous`.
pub proof fn backups_beside_install_before_auto_detect(d: DescView, o: Observations, path: Seq<char>)
    requires
        d.key is BackupsPath,
        o.cache is None,
        !usable(o.env),
        !(path_for(o.paths, d.key) is Some && o.configured_exists),
        o.beside == Some((path, true)),
    ensures
        resolution(d, o) == found(path, MethodView::PlatformDefault),
{
}

/// The other paths never look beside the install path: their resolution does
/// not depend on it.
pub proof fn only_backups_look_beside_install(d: DescView, o: Observations, beside: Option<(Seq<char>, bool)>)
    requires
        !(d.key is BackupsPath),
    ensures
        resolution(d, o) == resolution(d, Observations { beside, ..o }),
{
}

/// A single existing candidate is used, cached and written to the configuration
/// file, with or without a terminal.
pub proof fn single_candidate_is_auto_detected(d: DescView, o: Observations, path: Seq<char>)
    requires
        o.cache is None,
        !usable(o.env),
        !(path_for(o.paths, d.key) is Some && o.configured_exists),
        !(d.key is BackupsPath && usable(o.beside)),
        existing(o.listed) == seq![path],
    ensures
        resolution(d, o) == auto_detected(path),
{
}

/// Without a terminal and without a single existing candidate, resolution fails:
/// with `NotFound` naming the environment variable and the configuration file
/// where no candidate exists, with `Ambiguous` listing them where several do.
pub proof fn non_interactive_returns_error(d: DescView, o: Observations)
    requires
        o.cache is None,
        !usable(o.env),
        !(path_for(o.paths, d.key) is Some && o.configured_exists),
        !(d.key is BackupsPath && usable(o.beside)),
        existing(o.listed).len() != 1,
        !o.terminal,
    ensures
        existing(o.listed).len() == 0 ==> resolution(d, o).outcome == Err::<
            (Seq<char>, MethodView),
            ErrorView,
        >(ErrorView::NotFound { path_type: d.name, env_var: d.env_var, config_file: o.config_file }),
        existing(o.listed).len() > 1 ==> resolution(d, o).outcome == Err::<
            (Seq<char>, MethodView),
            ErrorView,
        >(
            ErrorView::Ambiguous {
                path_type: d.name,
                candidates: existing(o.listed),
                env_var: d.env_var,
                config_file: o.config_file,
            },
        ),
        resolution(d, o).store is None,
        !resolution(d, o).persist,
{
}

/// An answer typed at a prompt means the same with or without its line ending
/// (`\r\n` on a Windows console, `\n` elsewhere): it picks the same candidate,
/// and a typed path resolves to the same path, with no carriage return or line
/// feed left in it.
pub proof fn prompt_answers_ignore_line_endings(d: DescView, o: Observations, n: int)
    ensures
        chosen_index(o.line + seq!['\r', '\n'], n) == chosen_index(o.line, n),
        chosen_index(o.line + seq!['\n'], n) == chosen_index(o.line, n),
        resolution(d, Observations { line: o.line + seq!['\r', '\n'], ..o }) == resolution(d, o),
        resolution(d, Observations { line: o.line + seq!['\n'], ..o }) == resolution(d, o),
{
    trim_drops_line_endings(o.line);
}

/// The machine asks only about the path it resolves: the cache slot and the
/// candidates of that path's key, that path's environment variable, and prompts
/// under that path's name.
pub proof fn machine_asks_about_its_own_path(d: DescView, s: StateView, e: EventView)
    requires
        accepts(s, e),
    ensures
        next(d, s, e).1 matches ActionView::LookupCache(k) ==> k == d.key,
        next(d, s, e).1 matches ActionView::ListCandidates(k) ==> k == d.key,
        next(d, s, e).1 matches ActionView::ReadEnv(v) ==> v == d.env_var,
        next(d, s, e).1 matches ActionView::PromptPath(n) ==> n == d.name,
        next(d, s, e).1 matches ActionView::PromptChoice { name, .. } ==> name == d.name,
        next(d, s, e).1 is CheckBesideInstall ==> d.key is BackupsPath,
{
}

} // verus!
