//! The platform a process runs on, and where each core path is looked for on it.
use crate::ConfigKey;
use vstd::prelude::*;

verus! {

/// The platforms this crate knows how to search.
#[derive(Debug, Clone, Copy, PartialEq, Eq, Structural)]
pub enum Platform {
    Windows,
    MacOs,
    Linux,
}

/// The platform named by an operating-system name such as `std::env::consts::OS`:
/// "windows" and "macos" name themselves; every other system counts as Linux.
pub open spec fn platform_of(os: Seq<char>) -> Platform {
    if os == "windows"@ {
        Platform::Windows
    } else if os == "macos"@ {
        Platform::MacOs
    } else {
        Platform::Linux
    }
}

/// The name of a platform.
pub open spec fn name_of(p: Platform) -> Seq<char> {
    match p {
        Platform::Windows => "windows"@,
        Platform::MacOs => "macos"@,
        Platform::Linux => "linux"@,
    }
}

impl Platform {
    /// The platform of the operating system `os`.
    pub fn of(os: &str) -> (p: Platform)
        ensures
            p == platform_of(os@),
    {
        let os = os.to_owned();
        if os == String::from_str("windows") {
            Platform::Windows
        } else if os == String::from_str("macos") {
            Platform::MacOs
        } else {
            Platform::Linux
        }
    }

    /// The platform's name: "windows" | "macos" | "linux".
    pub fn name(&self) -> (n: &'static str)
        ensures
            n@ == name_of(*self),
    {
        match self {
            Platform::Windows => "windows",
            Platform::MacOs => "macos",
            Platform::Linux => "linux",
        }
    }
}

/// The platform string ("windows" | "macos" | "linux") for the operating system `os`.
pub fn platform_name(os: &str) -> (name: &'static str)
    ensures
        name@ == name_of(platform_of(os@)),
{
    Platform::of(os).name()
}

/// The environment that the auto-detect candidates are drawn from: the values of
/// `CPC_TEST_NO_CANDIDATES`, `HOME`, `USERPROFILE`, `LOCALAPPDATA` and
/// `PROGRAMFILES`, each where it is set.
#[derive(Debug)]
pub struct CandidateEnv {
    pub no_candidates: Option<String>,
    pub home: Option<String>,
    pub user_profile: Option<String>,
    pub local_app_data: Option<String>,
    pub program_files: Option<String>,
}

/// A candidate path: a root, then the components to join onto it in order.
#[derive(Debug)]
pub struct Candidate {
    pub root: String,
    pub parts: Vec<&'static str>,
}

/// The view of a candidate: its root and its components.
pub open spec fn candidate_view(c: Candidate) -> (Seq<char>, Seq<Seq<char>>) {
    (c.root@, c.parts@.map_values(|p: &str| p@))
}

/// The views of a list of candidates.
pub open spec fn candidates_view(v: Seq<Candidate>) -> Seq<(Seq<char>, Seq<Seq<char>>)> {
    v.map_values(|c: Candidate| candidate_view(c))
}

/// The testing seam: setting `CPC_TEST_NO_CANDIDATES` to `1` turns auto-detection off.
pub open spec fn disabled(env: CandidateEnv) -> bool {
    env.no_candidates matches Some(v) && v@ == "1"@
}

/// A candidate at a fixed path.
pub open spec fn fixed(path: Seq<char>) -> Seq<(Seq<char>, Seq<Seq<char>>)> {
    seq![(path, Seq::<Seq<char>>::empty())]
}

/// A candidate under a root taken from the environment, where that root is set.
pub open spec fn under(root: Option<String>, parts: Seq<Seq<char>>) -> Seq<
    (Seq<char>, Seq<Seq<char>>),
> {
    match root {
        Some(r) => seq![(r@, parts)],
        None => Seq::empty(),
    }
}

/// Where the Volumes path is looked for on each platform, in order.
pub open spec fn volumes_candidate_list(p: Platform, env: CandidateEnv) -> Seq<
    (Seq<char>, Seq<Seq<char>>),
> {
    if disabled(env) {
        Seq::empty()
    } else {
        match p {
            Platform::Windows => fixed("C:\\My Drive\\Volumes"@) + fixed("D:\\My Drive\\Volumes"@)
                + under(env.user_profile, seq!["Google Drive"@, "Volumes"@]),
            Platform::MacOs => under(
                env.home,
                seq!["Library"@, "Mobile Documents"@, "com~apple~CloudDocs"@, "Volumes"@],
            ) + under(env.home, seq!["Google Drive"@, "Volumes"@]) + under(
                env.home,
                seq!["Google Drive"@, "My Drive"@, "Volumes"@],
            ),
            Platform::Linux => under(env.home, seq!["Google Drive"@, "Volumes"@]) + under(
                env.home,
                seq!["gdrive"@, "Volumes"@],
            ) + under(env.home, seq![".cpc"@, "volumes"@]),
        }
    }
}

/// Where the install path is looked for on each platform, in order.
pub open spec fn install_candidate_list(p: Platform, env: CandidateEnv) -> Seq<
    (Seq<char>, Seq<Seq<char>>),
> {
    if disabled(env) {
        Seq::empty()
    } else {
        match p {
            Platform::Windows => fixed("C:\\CPC\\servers"@) + under(
                env.local_app_data,
                seq!["CPC"@, "servers"@],
            ) + under(env.program_files, seq!["CPC"@, "servers"@]),
            Platform::MacOs => under(env.home, seq![".cpc"@, "servers"@]) + fixed(
                "/usr/local/lib/cpc/servers"@,
            ),
            Platform::Linux => under(env.home, seq![".cpc"@, "servers"@]) + fixed(
                "/usr/local/lib/cpc/servers"@,
            ) + fixed("/opt/cpc/servers"@),
        }
    }
}

/// Where the backups path is looked for on each platform, in order.
pub open spec fn backups_candidate_list(p: Platform, env: CandidateEnv) -> Seq<
    (Seq<char>, Seq<Seq<char>>),
> {
    if disabled(env) {
        Seq::empty()
    } else {
        match p {
            Platform::Windows => under(env.local_app_data, seq!["CPC"@, "backups"@]) + fixed(
                "C:\\CPC\\backups"@,
            ),
            Platform::MacOs => under(env.home, seq![".cpc"@, "backups"@]) + under(
                env.home,
                seq!["Library"@, "Application Support"@, "CPC"@, "backups"@],
            ),
            Platform::Linux => under(env.home, seq![".cpc"@, "backups"@]),
        }
    }
}

/// Where the path for `key` is looked for.
pub open spec fn candidate_list(key: ConfigKey, p: Platform, env: CandidateEnv) -> Seq<
    (Seq<char>, Seq<Seq<char>>),
> {
    match key {
        ConfigKey::VolumesPath => volumes_candidate_list(p, env),
        ConfigKey::InstallPath => install_candidate_list(p, env),
        ConfigKey::BackupsPath => backups_candidate_list(p, env),
    }
}

/// Whether auto-detection is turned off by `CPC_TEST_NO_CANDIDATES=1`.
pub fn candidates_disabled(env: &CandidateEnv) -> (b: bool)
    ensures
        b == disabled(*env),
{
    match &env.no_candidates {
        Some(v) => *v == String::from_str("1"),
        None => false,
    }
}

fn push_fixed(v: &mut Vec<Candidate>, path: &'static str)
    ensures
        candidates_view(final(v)@) == candidates_view(old(v)@) + fixed(path@),
{
    let ghost before = v@;
    v.push(Candidate { root: String::from_str(path), parts: Vec::new() });
    proof {
        let c = v@[v@.len() - 1];
        assert(c.parts@.map_values(|p: &str| p@) =~= Seq::<Seq<char>>::empty());
        assert(candidates_view(v@) =~= candidates_view(before) + fixed(path@));
    }
}

fn push_under(v: &mut Vec<Candidate>, root: &Option<String>, parts: Vec<&'static str>)
    ensures
        candidates_view(final(v)@) == candidates_view(old(v)@) + under(
            *root,
            parts@.map_values(|p: &str| p@),
        ),
{
    let ghost before = v@;
    match root {
        Some(r) => {
            v.push(Candidate { root: r.clone(), parts });
            assert(candidates_view(v@) =~= candidates_view(before) + under(
                *root,
                parts@.map_values(|p: &str| p@),
            ));
        },
        None => {
            assert(candidates_view(v@) =~= candidates_view(before) + under(
                *root,
                parts@.map_values(|p: &str| p@),
            ));
        },
    }
}

fn parts(a: &'static str, b: &'static str) -> (v: Vec<&'static str>)
    ensures
        v@ == seq![a, b],
        v@.map_values(|p: &str| p@) == seq![a@, b@],
{
    let mut v = Vec::new();
    v.push(a);
    v.push(b);
    assert(v@ =~= seq![a, b]);
    assert(v@.map_values(|p: &str| p@) =~= seq![a@, b@]);
    v
}

fn parts3(a: &'static str, b: &'static str, c: &'static str) -> (v: Vec<&'static str>)
    ensures
        v@ == seq![a, b, c],
        v@.map_values(|p: &str| p@) == seq![a@, b@, c@],
{
    let mut v = parts(a, b);
    v.push(c);
    assert(v@ =~= seq![a, b, c]);
    assert(v@.map_values(|p: &str| p@) =~= seq![a@, b@, c@]);
    v
}

fn parts4(a: &'static str, b: &'static str, c: &'static str, d: &'static str) -> (v: Vec<
    &'static str,
>)
    ensures
        v@.map_values(|p: &str| p@) == seq![a@, b@, c@, d@],
{
    let mut v = parts3(a, b, c);
    v.push(d);
    assert(v@ =~= seq![a, b, c, d]);
    assert(v@.map_values(|p: &str| p@) =~= seq![a@, b@, c@, d@]);
    v
}

/// Auto-detect candidates for the Volumes path.
pub fn volumes_candidates(p: Platform, env: &CandidateEnv) -> (res: Vec<Candidate>)
    ensures
        candidates_view(res@) == volumes_candidate_list(p, *env),
{
    let mut v: Vec<Candidate> = Vec::new();
    if candidates_disabled(env) {
        assert(candidates_view(v@) =~= Seq::empty());
        return v;
    }
    assert(candidates_view(v@) =~= Seq::empty());
    match p {
        Platform::Windows => {
            push_fixed(&mut v, "C:\\My Drive\\Volumes");
            push_fixed(&mut v, "D:\\My Drive\\Volumes");
            push_under(&mut v, &env.user_profile, parts("Google Drive", "Volumes"));
        },
        Platform::MacOs => {
            push_under(
                &mut v,
                &env.home,
                parts4("Library", "Mobile Documents", "com~apple~CloudDocs", "Volumes"),
            );
            push_under(&mut v, &env.home, parts("Google Drive", "Volumes"));
            push_under(&mut v, &env.home, parts3("Google Drive", "My Drive", "Volumes"));
        },
        Platform::Linux => {
            push_under(&mut v, &env.home, parts("Google Drive", "Volumes"));
            push_under(&mut v, &env.home, parts("gdrive", "Volumes"));
            push_under(&mut v, &env.home, parts(".cpc", "volumes"));
        },
    }
    v
}

/// Auto-detect candidates for the install path (where server binaries live).
pub fn install_candidates(p: Platform, env: &CandidateEnv) -> (res: Vec<Candidate>)
    ensures
        candidates_view(res@) == install_candidate_list(p, *env),
{
    let mut v: Vec<Candidate> = Vec::new();
    if candidates_disabled(env) {
        assert(candidates_view(v@) =~= Seq::empty());
        return v;
    }
    assert(candidates_view(v@) =~= Seq::empty());
    match p {
        Platform::Windows => {
            push_fixed(&mut v, "C:\\CPC\\servers");
            push_under(&mut v, &env.local_app_data, parts("CPC", "servers"));
            push_under(&mut v, &env.program_files, parts("CPC", "servers"));
        },
        Platform::MacOs => {
            push_under(&mut v, &env.home, parts(".cpc", "servers"));
            push_fixed(&mut v, "/usr/local/lib/cpc/servers");
        },
        Platform::Linux => {
            push_under(&mut v, &env.home, parts(".cpc", "servers"));
            push_fixed(&mut v, "/usr/local/lib/cpc/servers");
            push_fixed(&mut v, "/opt/cpc/servers");
        },
    }
    v
}

/// Auto-detect candidates for the backups path.
pub fn backups_candidates(p: Platform, env: &CandidateEnv) -> (res: Vec<Candidate>)
    ensures
        candidates_view(res@) == backups_candidate_list(p, *env),
{
    let mut v: Vec<Candidate> = Vec::new();
    if candidates_disabled(env) {
        assert(candidates_view(v@) =~= Seq::empty());
        return v;
    }
    assert(candidates_view(v@) =~= Seq::empty());
    match p {
        Platform::Windows => {
            push_under(&mut v, &env.local_app_data, parts("CPC", "backups"));
            push_fixed(&mut v, "C:\\CPC\\backups");
        },
        Platform::MacOs => {
            push_under(&mut v, &env.home, parts(".cpc", "backups"));
            push_under(
                &mut v,
                &env.home,
                parts4("Library", "Application Support", "CPC", "backups"),
            );
        },
        Platform::Linux => {
            push_under(&mut v, &env.home, parts(".cpc", "backups"));
        },
    }
    v
}

/// Auto-detect candidates for the path stored under `key`.
pub fn candidates_for(key: ConfigKey, p: Platform, env: &CandidateEnv) -> (res: Vec<Candidate>)
    ensures
        candidates_view(res@) == candidate_list(key, p, *env),
{
    match key {
        ConfigKey::VolumesPath => volumes_candidates(p, env),
        ConfigKey::InstallPath => install_candidates(p, env),
        ConfigKey::BackupsPath => backups_candidates(p, env),
    }
}

/// The platform string is always one of "windows", "macos" and "linux".
pub proof fn platform_name_is_known(os: Seq<char>)
    ensures
        name_of(platform_of(os)) == "windows"@ || name_of(platform_of(os)) == "macos"@
            || name_of(platform_of(os)) == "linux"@,
{
}

/// With `CPC_TEST_NO_CANDIDATES=1`, every candidate list is empty, on every platform.
pub proof fn no_candidates_when_disabled(key: ConfigKey, p: Platform, env: CandidateEnv)
    requires
        disabled(env),
    ensures
        candidate_list(key, p, env).len() == 0,
{
}

/// The empty list of components.
pub open spec fn no_parts() -> Seq<Seq<char>> {
    Seq::empty()
}

/// On Linux the Volumes path is looked for under the home directory only: in
/// `Google Drive/Volumes`, `gdrive/Volumes` and `.cpc/volumes`, in that order.
pub proof fn linux_volumes_candidates(env: CandidateEnv)
    requires
        !disabled(env),
    ensures
        candidate_list(ConfigKey::VolumesPath, Platform::Linux, env) == match env.home {
            Some(h) => seq![
                (h@, seq!["Google Drive"@, "Volumes"@]),
                (h@, seq!["gdrive"@, "Volumes"@]),
                (h@, seq![".cpc"@, "volumes"@]),
            ],
            None => Seq::empty(),
        },
{
}

/// On macOS the Volumes path is looked for under the home directory only: in
/// iCloud Drive's `Volumes`, then `Google Drive/Volumes`, then `Google Drive/My Drive/Volumes`.
pub proof fn macos_volumes_candidates(env: CandidateEnv)
    requires
        !disabled(env),
    ensures
        candidate_list(ConfigKey::VolumesPath, Platform::MacOs, env) == match env.home {
            Some(h) => seq![
                (h@, seq!["Library"@, "Mobile Documents"@, "com~apple~CloudDocs"@, "Volumes"@]),
                (h@, seq!["Google Drive"@, "Volumes"@]),
                (h@, seq!["Google Drive"@, "My Drive"@, "Volumes"@]),
            ],
            None => Seq::empty(),
        },
{
}

/// On Windows the Volumes path is looked for in `C:\My Drive\Volumes`, then
/// `D:\My Drive\Volumes`, then (where `USERPROFILE` is set) `Google Drive\Volumes` under it.
pub proof fn windows_volumes_candidates(env: CandidateEnv)
    requires
        !disabled(env),
    ensures
        candidate_list(ConfigKey::VolumesPath, Platform::Windows, env) == match env.user_profile {
            Some(u) => seq![
                ("C:\\My Drive\\Volumes"@, no_parts()),
                ("D:\\My Drive\\Volumes"@, no_parts()),
                (u@, seq!["Google Drive"@, "Volumes"@]),
            ],
            None => seq![("C:\\My Drive\\Volumes"@, no_parts()), ("D:\\My Drive\\Volumes"@, no_parts())],
        },
{
    assert(fixed("C:\\My Drive\\Volumes"@) + fixed("D:\\My Drive\\Volumes"@) =~= seq![
        ("C:\\My Drive\\Volumes"@, no_parts()),
        ("D:\\My Drive\\Volumes"@, no_parts()),
    ]);
}

/// On Linux the install path is looked for in `.cpc/servers` under the home
/// directory (where `HOME` is set), then `/usr/local/lib/cpc/servers`, then `/opt/cpc/servers`.
pub proof fn linux_install_candidates(env: CandidateEnv)
    requires
        !disabled(env),
    ensures
        candidate_list(ConfigKey::InstallPath, Platform::Linux, env) == match env.home {
            Some(h) => seq![
                (h@, seq![".cpc"@, "servers"@]),
                ("/usr/local/lib/cpc/servers"@, no_parts()),
                ("/opt/cpc/servers"@, no_parts()),
            ],
            None => seq![
                ("/usr/local/lib/cpc/servers"@, no_parts()),
                ("/opt/cpc/servers"@, no_parts()),
            ],
        },
{
    assert(Seq::<(Seq<char>, Seq<Seq<char>>)>::empty() + fixed("/usr/local/lib/cpc/servers"@)
        + fixed("/opt/cpc/servers"@) =~= seq![
        ("/usr/local/lib/cpc/servers"@, no_parts()),
        ("/opt/cpc/servers"@, no_parts()),
    ]);
}

/// On macOS the install path is looked for in `.cpc/servers` under the home
/// directory (where `HOME` is set), then always in `/usr/local/lib/cpc/servers`.
pub proof fn macos_install_candidates(env: CandidateEnv)
    requires
        !disabled(env),
    ensures
        candidate_list(ConfigKey::InstallPath, Platform::MacOs, env) == match env.home {
            Some(h) => seq![
                (h@, seq![".cpc"@, "servers"@]),
                ("/usr/local/lib/cpc/servers"@, no_parts()),
            ],
            None => seq![("/usr/local/lib/cpc/servers"@, no_parts())],
        },
{
    assert(Seq::<(Seq<char>, Seq<Seq<char>>)>::empty() + fixed("/usr/local/lib/cpc/servers"@)
        =~= seq![("/usr/local/lib/cpc/servers"@, no_parts())]);
}

/// On Windows the install path is looked for in `C:\CPC\servers`, then
/// `CPC\servers` under `LOCALAPPDATA`, then `CPC\servers` under `PROGRAMFILES`
/// (each where that variable is set).
pub proof fn windows_install_candidates(env: CandidateEnv)
    requires
        !disabled(env),
    ensures
        candidate_list(ConfigKey::InstallPath, Platform::Windows, env) == match (
            env.local_app_data,
            env.program_files,
        ) {
            (Some(l), Some(r)) => seq![
                ("C:\\CPC\\servers"@, no_parts()),
                (l@, seq!["CPC"@, "servers"@]),
                (r@, seq!["CPC"@, "servers"@]),
            ],
            (Some(l), None) => seq![
                ("C:\\CPC\\servers"@, no_parts()),
                (l@, seq!["CPC"@, "servers"@]),
            ],
            (None, Some(r)) => seq![
                ("C:\\CPC\\servers"@, no_parts()),
                (r@, seq!["CPC"@, "servers"@]),
            ],
            (None, None) => seq![("C:\\CPC\\servers"@, no_parts())],
        },
{
    assert(fixed("C:\\CPC\\servers"@) + Seq::<(Seq<char>, Seq<Seq<char>>)>::empty()
        =~= fixed("C:\\CPC\\servers"@));
    assert(fixed("C:\\CPC\\servers"@) + Seq::<(Seq<char>, Seq<Seq<char>>)>::empty()
        + Seq::<(Seq<char>, Seq<Seq<char>>)>::empty() =~= fixed("C:\\CPC\\servers"@));
}

/// On Linux the backups path is looked for in `.cpc/backups` under the home directory only.
pub proof fn linux_backups_candidates(env: CandidateEnv)
    requires
        !disabled(env),
    ensures
        candidate_list(ConfigKey::BackupsPath, Platform::Linux, env) == match env.home {
            Some(h) => seq![(h@, seq![".cpc"@, "backups"@])],
            None => Seq::empty(),
        },
{
}

/// On macOS the backups path is looked for under the home directory only: in
/// `.cpc/backups`, then `Library/Application Support/CPC/backups`.
pub proof fn macos_backups_candidates(env: CandidateEnv)
    requires
        !disabled(env),
    ensures
        candidate_list(ConfigKey::BackupsPath, Platform::MacOs, env) == match env.home {
            Some(h) => seq![
                (h@, seq![".cpc"@, "backups"@]),
                (h@, seq!["Library"@, "Application Support"@, "CPC"@, "backups"@]),
            ],
            None => Seq::empty(),
        },
{
}

/// On Windows the backups path is looked for in `CPC\backups` under `LOCALAPPDATA`
/// (where it is set), then always in `C:\CPC\backups`.
pub proof fn windows_backups_candidates(env: CandidateEnv)
    requires
        !disabled(env),
    ensures
        candidate_list(ConfigKey::BackupsPath, Platform::Windows, env) == match env.local_app_data {
            Some(l) => seq![(l@, seq!["CPC"@, "backups"@]), ("C:\\CPC\\backups"@, no_parts())],
            None => seq![("C:\\CPC\\backups"@, no_parts())],
        },
{
    assert(Seq::<(Seq<char>, Seq<Seq<char>>)>::empty() + fixed("C:\\CPC\\backups"@)
        =~= seq![("C:\\CPC\\backups"@, no_parts())]);
}

/// Whether `s` ends with `suffix`.
pub open spec fn ends_with(s: Seq<char>, suffix: Seq<char>) -> bool {
    s.len() >= suffix.len() && s.subrange(s.len() - suffix.len(), s.len() as int) == suffix
}

/// Whether the candidate `c` leads to a directory called `name`: its last
/// component is `name`, or, for a fixed path, the path ends with `name`.
pub open spec fn leads_to(c: (Seq<char>, Seq<Seq<char>>), name: Seq<char>) -> bool {
    if c.1.len() > 0 {
        c.1.last() == name
    } else {
        ends_with(c.0, name)
    }
}

/// Whether the candidate `c` is a place for the path stored under `key`: a
/// `Volumes` (or `volumes`) directory, a `servers` directory, or a `backups` directory.
pub open spec fn is_place_for(key: ConfigKey, c: (Seq<char>, Seq<Seq<char>>)) -> bool {
    match key {
        ConfigKey::VolumesPath => leads_to(c, "Volumes"@) || leads_to(c, "volumes"@),
        ConfigKey::InstallPath => leads_to(c, "servers"@),
        ConfigKey::BackupsPath => leads_to(c, "backups"@),
    }
}

proof fn lemma_fixed_roots_end_right()
    ensures
        ends_with("C:\\My Drive\\Volumes"@, "Volumes"@),
        ends_with("D:\\My Drive\\Volumes"@, "Volumes"@),
        ends_with("C:\\CPC\\servers"@, "servers"@),
        ends_with("/usr/local/lib/cpc/servers"@, "servers"@),
        ends_with("/opt/cpc/servers"@, "servers"@),
        ends_with("C:\\CPC\\backups"@, "backups"@),
{
    reveal_strlit("C:\\My Drive\\Volumes");
    reveal_strlit("D:\\My Drive\\Volumes");
    reveal_strlit("Volumes");
    reveal_strlit("C:\\CPC\\servers");
    reveal_strlit("/usr/local/lib/cpc/servers");
    reveal_strlit("/opt/cpc/servers");
    reveal_strlit("servers");
    reveal_strlit("C:\\CPC\\backups");
    reveal_strlit("backups");
    assert("C:\\My Drive\\Volumes"@.subrange(12, 19) =~= "Volumes"@);
    assert("D:\\My Drive\\Volumes"@.subrange(12, 19) =~= "Volumes"@);
    assert("C:\\CPC\\servers"@.subrange(7, 14) =~= "servers"@);
    assert("/usr/local/lib/cpc/servers"@.subrange(19, 26) =~= "servers"@);
    assert("/opt/cpc/servers"@.subrange(9, 16) =~= "servers"@);
    assert("C:\\CPC\\backups"@.subrange(7, 14) =~= "backups"@);
}

/// Every auto-detect candidate for a key, on every platform and in every
/// environment, is a place for that key's path: Volumes candidates lead to a
/// `Volumes` directory, install candidates to a `servers` directory, backups
/// candidates to a `backups` directory. No key searches another key's places.
pub proof fn candidates_are_places_for_their_key(key: ConfigKey, p: Platform, env: CandidateEnv)
    ensures
        forall|i: int|
            0 <= i < candidate_list(key, p, env).len() ==> is_place_for(
                key,
                #[trigger] candidate_list(key, p, env)[i],
            ),
{
    lemma_fixed_roots_end_right();
    if !disabled(env) {
        match key {
            ConfigKey::VolumesPath => {
                linux_volumes_candidates(env);
                macos_volumes_candidates(env);
                windows_volumes_candidates(env);
            },
            ConfigKey::InstallPath => {
                linux_install_candidates(env);
                macos_install_candidates(env);
                windows_install_candidates(env);
            },
            ConfigKey::BackupsPath => {
                linux_backups_candidates(env);
                macos_backups_candidates(env);
                windows_backups_candidates(env);
            },
        }
    }
}

} // verus!
