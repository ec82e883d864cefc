use vstd::prelude::*;

verus! {

/// The ways in which resolving or persisting a path can fail.
///
/// Paths are held as strings; the I/O and TOML errors are held by their message.
#[derive(Debug)]
pub enum Error {
    /// No path was found and no terminal was available to ask for one.
    NotFound { path_type: String, env_var: String, config_file: String },
    /// More than one auto-detect candidate exists and no terminal was available to
    /// choose; the variable and the file that would settle it are named.
    Ambiguous {
        path_type: String,
        candidates: Vec<String>,
        env_var: String,
        config_file: String,
    },
    /// Reading or writing the configuration file failed.
    ConfigIo(String),
    /// The configuration file is not valid TOML for the expected layout.
    ConfigParse(String),
    /// The configuration could not be rendered as TOML.
    ConfigWrite(String),
}

/// The mathematical value of an `Error`.
pub enum ErrorView {
    NotFound { path_type: Seq<char>, env_var: Seq<char>, config_file: Seq<char> },
    Ambiguous {
        path_type: Seq<char>,
        candidates: Seq<Seq<char>>,
        env_var: Seq<char>,
        config_file: Seq<char>,
    },
    ConfigIo(Seq<char>),
    ConfigParse(Seq<char>),
    ConfigWrite(Seq<char>),
}

/// The views of a vector of strings.
pub open spec fn strings_view(v: Seq<String>) -> Seq<Seq<char>> {
    v.map_values(|s: String| s@)
}

impl View for Error {
    type V = ErrorView;

    open spec fn view(&self) -> ErrorView {
        match self {
            Error::NotFound { path_type, env_var, config_file } => ErrorView::NotFound {
                path_type: path_type@,
                env_var: env_var@,
                config_file: config_file@,
            },
            Error::Ambiguous { path_type, candidates, env_var, config_file } =>
                ErrorView::Ambiguous {
                path_type: path_type@,
                candidates: strings_view(candidates@),
                env_var: env_var@,
                config_file: config_file@,
            },
            Error::ConfigIo(m) => ErrorView::ConfigIo(m@),
            Error::ConfigParse(m) => ErrorView::ConfigParse(m@),
            Error::ConfigWrite(m) => ErrorView::ConfigWrite(m@),
        }
    }
}

/// The hint that closes a resolution failure: which variable to set, or which file to create.
pub open spec fn hint(env_var: Seq<char>, config_file: Seq<char>) -> Seq<char> {
    "Set "@ + env_var + " or create "@ + config_file
}

/// `{path_type} not found. Set {env_var} or create {config_file}`.
pub open spec fn not_found_text(path_type: Seq<char>, env_var: Seq<char>, config_file: Seq<char>) -> Seq<
    char,
> {
    path_type + " not found. "@ + hint(env_var, config_file)
}

/// `Multiple candidates for {path_type} (non-interactive): {listing}. Set {env_var} or create {config_file}`.
pub open spec fn ambiguous_text(
    path_type: Seq<char>,
    listing: Seq<char>,
    env_var: Seq<char>,
    config_file: Seq<char>,
) -> Seq<char> {
    "Multiple candidates for "@ + path_type + " (non-interactive): "@ + listing + ". "@ + hint(
        env_var,
        config_file,
    )
}

/// What `format!("{:?}", ..)` renders for a list of strings.
pub uninterp spec fn debug_text(items: Seq<Seq<char>>) -> Seq<char>;

/// The `Debug` rendering of a list of strings (`format!("{:?}", items)`, as std's
/// `Debug` for `Vec<String>` writes it): a function of the strings alone, named here.
#[verifier::external_body]
fn debug_list(items: &Vec<String>) -> (text: String)
    ensures
        text@ == debug_text(items.deep_view()),
{
    format!("{:?}", items)
}

/// The message of an error.
pub open spec fn message_of(e: ErrorView) -> Seq<char> {
    match e {
        ErrorView::NotFound { path_type, env_var, config_file } => not_found_text(
            path_type,
            env_var,
            config_file,
        ),
        ErrorView::Ambiguous { path_type, candidates, env_var, config_file } => ambiguous_text(
            path_type,
            debug_text(candidates),
            env_var,
            config_file,
        ),
        ErrorView::ConfigIo(m) => "Config file I/O error: "@ + m,
        ErrorView::ConfigParse(m) => "Config file parse error: "@ + m,
        ErrorView::ConfigWrite(m) => "Config file write error: "@ + m,
    }
}

/// The message for a path that was not found.
pub fn not_found_message(path_type: &str, env_var: &str, config_file: &str) -> (text: String)
    ensures
        text@ == not_found_text(path_type@, env_var@, config_file@),
{
    let mut text = String::from_str(path_type);
    text.append(" not found. Set ");
    text.append(env_var);
    text.append(" or create ");
    text.append(config_file);
    proof {
        reveal_strlit(" not found. Set ");
        reveal_strlit(" not found. ");
        reveal_strlit("Set ");
        assert(" not found. Set "@ =~= " not found. "@ + "Set "@);
        assert(text@ =~= not_found_text(path_type@, env_var@, config_file@));
    }
    text
}

/// The message for several candidates, `listing` being their rendering.
pub fn ambiguous_message(path_type: &str, listing: &str, env_var: &str, config_file: &str) -> (text:
    String)
    ensures
        text@ == ambiguous_text(path_type@, listing@, env_var@, config_file@),
{
    let mut text = String::from_str("Multiple candidates for ");
    text.append(path_type);
    text.append(" (non-interactive): ");
    text.append(listing);
    text.append(". Set ");
    text.append(env_var);
    text.append(" or create ");
    text.append(config_file);
    proof {
        reveal_strlit(". Set ");
        reveal_strlit(". ");
        reveal_strlit("Set ");
        assert(". Set "@ =~= ". "@ + "Set "@);
        assert(text@ =~= ambiguous_text(path_type@, listing@, env_var@, config_file@));
    }
    text
}

fn prefixed(prefix: &str, m: &String) -> (text: String)
    ensures
        text@ == prefix@ + m@,
{
    let mut text = String::from_str(prefix);
    text.append(m.as_str());
    text
}

impl Error {
    /// The error's message: what went wrong, and for a failed resolution, the
    /// variable to set or the file to create.
    pub fn message(&self) -> (text: String)
        ensures
            text@ == message_of(self@),
    {
        match self {
            Error::NotFound { path_type, env_var, config_file } => not_found_message(
                path_type.as_str(),
                env_var.as_str(),
                config_file.as_str(),
            ),
            Error::Ambiguous { path_type, candidates, env_var, config_file } => {
                let listing = debug_list(candidates);
                assert(candidates.deep_view() =~= strings_view(candidates@));
                ambiguous_message(
                    path_type.as_str(),
                    listing.as_str(),
                    env_var.as_str(),
                    config_file.as_str(),
                )
            },
            Error::ConfigIo(m) => prefixed("Config file I/O error: ", m),
            Error::ConfigParse(m) => prefixed("Config file parse error: ", m),
            Error::ConfigWrite(m) => prefixed("Config file write error: ", m),
        }
    }
}

} // verus!
