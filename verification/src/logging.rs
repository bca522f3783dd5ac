//! Where the log goes and at which level.
//!
//! The level comes from `--log-level`, else `$ASR_LOG`, else `$RUST_LOG`,
//! else `info`. The log file is `--log-file` or `$ASR_LOG_FILE` as given;
//! else the first writable of the system log folder, the user state folder
//! and the temporary folder; `--no-log-file` disables it.
use vstd::prelude::*;

use crate::config::{level_text, LogLevel};
use crate::model::string_option_view;
use crate::paths::{final_component, join, joined_path, parent, parent_path};
use crate::text::{owned, trim, trimmed, white_space};

use tracing_subscriber::filter::ParseError;
use tracing_subscriber::EnvFilter;

verus! {

/// The file name used when only a directory is known.
pub const DEFAULT_LOG_FILENAME: &'static str = "asr-server.log";

#[verifier::external_type_specification]
#[verifier::external_body]
pub struct ExEnvFilter(EnvFilter);

#[verifier::external_type_specification]
#[verifier::external_body]
pub struct ExParseError(ParseError);

/// Whether `EnvFilter::try_new` accepts a filter directive.
pub uninterp spec fn directive_accepted(directive: Seq<char>) -> bool;

/// The directive text that a filter was parsed from.
pub uninterp spec fn filter_directive(filter: EnvFilter) -> Seq<char>;

/// A single word of lower-case ASCII letters, such as a level name.
pub open spec fn lower_word(s: Seq<char>) -> bool {
    s.len() > 0 && forall|i: int| 0 <= i < s.len() ==> ('a' <= #[trigger] s[i] && s[i] <= 'z')
}

/// Where the comma-separated piece of `d` that holds position `j` begins.
pub open spec fn piece_start(d: Seq<char>, j: int) -> int
    decreases j,
{
    if j <= 0 {
        0
    } else if d[j - 1] == ',' {
        j
    } else {
        piece_start(d, j - 1)
    }
}

/// Whether `EnvFilter::try_new` can read a directive without panicking.
///
/// It walks each comma-separated piece with its leading white space trimmed
/// off, but cuts the untrimmed piece at the positions it found; so a piece
/// that begins with white space is only safe when it is all ASCII.
pub open spec fn directive_parse_safe(d: Seq<char>) -> bool {
    forall|j: int|
        0 <= j < d.len() && d[j] > '\u{7f}' ==> !white_space(d[#[trigger] piece_start(d, j)])
}

/// Calls `EnvFilter::try_new`, which parses a comma-separated list of filter
/// directives and reads no environment. As its source shows, it accepts the
/// empty text and a single word of lower-case letters (a level or a target),
/// and the filter it returns is made from the given directive.
#[verifier::external_body]
pub(crate) fn parse_filter(directive: &str) -> (r: Result<EnvFilter, ParseError>)
    requires
        directive_parse_safe(directive@),
    ensures
        r is Ok == directive_accepted(directive@),
        r matches Ok(f) ==> filter_directive(f) == directive@,
        directive@.len() == 0 ==> r is Ok,
        lower_word(directive@) ==> r is Ok,
{
    EnvFilter::try_new(directive)
}

/// Whether a character has the Unicode property `White_Space`.
pub fn is_white_space(c: char) -> (r: bool)
    ensures
        r == white_space(c),
{
    let u = c as u32;
    (0x9 <= u && u <= 0xd) || u == 0x20 || u == 0x85 || u == 0xa0 || u == 0x1680 || (0x2000 <= u
        && u <= 0x200a) || u == 0x2028 || u == 0x2029 || u == 0x202f || u == 0x205f || u == 0x3000
}

/// Whether `EnvFilter::try_new` can read the directive without panicking:
/// every piece that begins with white space is ASCII.
pub fn parse_safe(d: &str) -> (r: bool)
    ensures
        r == directive_parse_safe(d@),
{
    let n = d.unicode_len();
    let mut i: usize = 0;
    let mut start: usize = 0;
    let mut prev_comma = false;
    let mut ws_piece = false;
    while i < n
        invariant
            n == d@.len(),
            i <= n,
            start <= i,
            prev_comma == (i > 0 && d@[i - 1] == ','),
            i > 0 ==> start == piece_start(d@, i as int - 1),
            i > 0 ==> ws_piece == white_space(d@[start as int]),
            forall|j: int|
                0 <= j < i && d@[j] > '\u{7f}' ==> !white_space(d@[#[trigger] piece_start(d@, j)]),
        decreases n - i,
    {
        let c = d.get_char(i);
        if i == 0 || prev_comma {
            start = i;
            ws_piece = is_white_space(c);
        }
        assert(start == piece_start(d@, i as int));
        assert(ws_piece == white_space(d@[start as int]));
        if (c as u32) > 0x7f && ws_piece {
            assert(d@[i as int] > '\u{7f}');
            assert(white_space(d@[piece_start(d@, i as int)]));
            return false;
        }
        prev_comma = c == ',';
        i = i + 1;
    }
    true
}

/// The trimmed value of an environment variable, when it is set and not blank.
pub open spec fn setting_value(raw: Option<Seq<char>>) -> Option<Seq<char>> {
    match raw {
        Some(v) if trimmed(v).len() > 0 => Some(trimmed(v)),
        _ => None,
    }
}

/// Why no log filter could be made.
pub enum LogFilterError {
    /// The directive does not parse.
    Rejected(ParseError),
    /// A piece of the directive begins with white space and holds non-ASCII
    /// text, which the directive parser cannot read.
    Unsupported,
}

/// The log filter for the chosen directive (see [`resolve_level`]): made
/// from that directive when it can be read and parses, an error otherwise.
/// A level given on the command line always gives a filter.
pub fn log_filter(cli: Option<LogLevel>, asr_log: Option<String>, rust_log: Option<String>) -> (r: Result<EnvFilter, LogFilterError>)
    ensures
        ({
            let d = chosen_level(cli, string_option_view(asr_log), string_option_view(rust_log));
            &&& r is Ok <==> (directive_parse_safe(d) && directive_accepted(d))
            &&& r matches Ok(f) ==> filter_directive(f) == d
            &&& (r matches Err(LogFilterError::Unsupported)) == !directive_parse_safe(d)
        }),
        cli is Some ==> r is Ok,
{
    let directive = resolve_level(cli, asr_log, rust_log);
    proof {
        reveal_strlit("trace");
        reveal_strlit("debug");
        reveal_strlit("info");
        reveal_strlit("warn");
        reveal_strlit("error");
        if let Some(level) = cli {
            assert(lower_word(level_text(level)));
            assert(directive_parse_safe(level_text(level)));
        }
    }
    if !parse_safe(directive.as_str()) {
        return Err(LogFilterError::Unsupported);
    }
    match parse_filter(directive.as_str()) {
        Ok(f) => Ok(f),
        Err(e) => Err(LogFilterError::Rejected(e)),
    }
}

/// The log filter directive: the command-line level, else `$ASR_LOG`, else
/// `$RUST_LOG` (trimmed, when not blank), else `info`.
pub open spec fn chosen_level(
    cli: Option<LogLevel>,
    asr_log: Option<Seq<char>>,
    rust_log: Option<Seq<char>>,
) -> Seq<char> {
    match cli {
        Some(level) => level_text(level),
        None => match setting_value(asr_log) {
            Some(v) => v,
            None => match setting_value(rust_log) {
                Some(v) => v,
                None => "info"@,
            },
        },
    }
}

fn setting(raw: &Option<String>) -> (r: Option<String>)
    ensures
        string_option_view(r) == setting_value(string_option_view(*raw)),
{
    match raw {
        Some(v) => {
            let t = trim(v.as_str());
            if t.unicode_len() > 0 {
                Some(owned(t))
            } else {
                None
            }
        },
        None => None,
    }
}

/// Resolves the log filter directive; `asr_log` and `rust_log` are the values
/// of `$ASR_LOG` and `$RUST_LOG`, when set and valid Unicode.
pub fn resolve_level(cli: Option<LogLevel>, asr_log: Option<String>, rust_log: Option<String>) -> (r: String)
    ensures
        r@ == chosen_level(cli, string_option_view(asr_log), string_option_view(rust_log)),
{
    if let Some(level) = cli {
        return owned(level.as_str());
    }
    if let Some(v) = setting(&asr_log) {
        return v;
    }
    if let Some(v) = setting(&rust_log) {
        return v;
    }
    owned("info")
}

/// The log file named by `$ASR_LOG_FILE` (its value, when set and valid
/// Unicode): the trimmed value, unless blank.
pub fn env_log_file(raw: Option<String>) -> (r: Option<String>)
    ensures
        string_option_view(r) == setting_value(string_option_view(raw)),
{
    setting(&raw)
}

/// The default places for the log file, most preferred first: the system
/// log folder, the user state folder (when there is one), the temporary folder.
pub open spec fn candidate_files(state_dir: Option<Seq<char>>, temp_dir: Seq<char>) -> Seq<Seq<char>> {
    let system = seq![joined_path("/var/log/asr-server"@, DEFAULT_LOG_FILENAME@)];
    let user = match state_dir {
        Some(s) => seq![joined_path(joined_path(s, "asr-server"@), DEFAULT_LOG_FILENAME@)],
        None => Seq::empty(),
    };
    let temp = seq![joined_path(joined_path(temp_dir, "asr-server"@), DEFAULT_LOG_FILENAME@)];
    system + user + temp
}

pub open spec fn strings_seq_view(v: Seq<String>) -> Seq<Seq<char>> {
    v.map_values(|s: String| s@)
}

/// The default places for the log file; `state_dir` is the user state
/// folder, if there is one, and `temp_dir` the temporary folder.
pub fn default_candidates(state_dir: Option<String>, temp_dir: &str) -> (r: Vec<String>)
    ensures
        strings_seq_view(r@) == candidate_files(string_option_view(state_dir), temp_dir@),
{
    let mut v: Vec<String> = Vec::new();
    v.push(join("/var/log/asr-server", DEFAULT_LOG_FILENAME));
    if let Some(state) = &state_dir {
        let d = join(state.as_str(), "asr-server");
        v.push(join(d.as_str(), DEFAULT_LOG_FILENAME));
    }
    let t = join(temp_dir, "asr-server");
    v.push(join(t.as_str(), DEFAULT_LOG_FILENAME));
    assert(strings_seq_view(v@) =~= candidate_files(string_option_view(state_dir), temp_dir@));
    v
}

/// Where to log to.
pub enum LogFile {
    /// Not to a file.
    Disabled,
    /// To this file, as given.
    Given(String),
    /// To the first of these files whose folder can be created and written to,
    /// or not to a file when there is none.
    Search(Vec<String>),
}

pub enum LogFileView {
    Disabled,
    Given(Seq<char>),
    Search(Seq<Seq<char>>),
}

impl View for LogFile {
    type V = LogFileView;

    open spec fn view(&self) -> LogFileView {
        match self {
            LogFile::Disabled => LogFileView::Disabled,
            LogFile::Given(p) => LogFileView::Given(p@),
            LogFile::Search(c) => LogFileView::Search(strings_seq_view(c@)),
        }
    }
}

/// Where to log: nowhere when file logging is disabled; else the file given on
/// the command line or in `$ASR_LOG_FILE`; else a search of the default places.
pub open spec fn log_file_choice(
    cli_file: Option<Seq<char>>,
    disable_file: bool,
    env_file: Option<Seq<char>>,
    state_dir: Option<Seq<char>>,
    temp_dir: Seq<char>,
) -> LogFileView {
    if disable_file {
        LogFileView::Disabled
    } else {
        match cli_file {
            Some(p) => LogFileView::Given(p),
            None => match setting_value(env_file) {
                Some(p) => LogFileView::Given(p),
                None => LogFileView::Search(candidate_files(state_dir, temp_dir)),
            },
        }
    }
}

/// Decides where to log. `env_file` is `$ASR_LOG_FILE`, `state_dir` the user
/// state folder and `temp_dir` the temporary folder.
pub fn resolve_log_file(
    cli_file: Option<String>,
    disable_file: bool,
    env_file: Option<String>,
    state_dir: Option<String>,
    temp_dir: &str,
) -> (r: LogFile)
    ensures
        r@ == log_file_choice(
            string_option_view(cli_file),
            disable_file,
            string_option_view(env_file),
            string_option_view(state_dir),
            temp_dir@,
        ),
{
    if disable_file {
        return LogFile::Disabled;
    }
    if let Some(p) = cli_file {
        return LogFile::Given(p);
    }
    if let Some(p) = env_log_file(env_file) {
        return LogFile::Given(p);
    }
    LogFile::Search(default_candidates(state_dir, temp_dir))
}

/// The file name of a path, or the default log file name when it has none.
pub open spec fn file_name_or_default(path: Seq<char>) -> Seq<char> {
    match final_component(path) {
        Some(n) => n,
        None => DEFAULT_LOG_FILENAME@,
    }
}

/// The file name for a path whose final component is `name` (as
/// `Path::file_name` gives it): that name, or the default log file name when
/// there is none.
pub fn name_or_default(name: Option<String>) -> (r: String)
    ensures
        r@ == (match string_option_view(name) {
            Some(n) => n,
            None => DEFAULT_LOG_FILENAME@,
        }),
{
    match name {
        Some(n) => n,
        None => owned(DEFAULT_LOG_FILENAME),
    }
}

/// The file name of a path, or the default log file name when it has none.
pub fn file_name_of(path: &str) -> (r: String)
    ensures
        r@ == file_name_or_default(path@),
{
    name_or_default(crate::paths::file_name(path))
}

/// The folder and file name that a log target names: a directory with the
/// default file name; else the parent and file name of the path, the parent
/// being `.` for a bare file name.
pub open spec fn file_target(path: Seq<char>, is_dir: bool) -> (Seq<char>, Seq<char>) {
    target_of_parts(path, is_dir, parent_path(path), final_component(path))
}

/// The folder and file name of a log target, given the path, whether it is
/// an existing directory, and its parent and final component.
pub open spec fn target_of_parts(
    path: Seq<char>,
    is_dir: bool,
    parent: Option<Seq<char>>,
    name: Option<Seq<char>>,
) -> (Seq<char>, Seq<char>) {
    let file = match name {
        Some(n) => n,
        None => DEFAULT_LOG_FILENAME@,
    };
    if is_dir {
        (path, DEFAULT_LOG_FILENAME@)
    } else {
        match parent {
            Some(p) if p.len() > 0 => (p, file),
            _ => ("."@, file),
        }
    }
}

/// The folder and file name of a log target, given the path, whether it is
/// an existing directory, and the parent and final component that
/// `Path::parent` and `Path::file_name` give for it.
pub fn target_from_parts(path: &str, is_dir: bool, parent: Option<String>, name: Option<String>) -> (r: (
    String,
    String,
))
    ensures
        (r.0@, r.1@) == target_of_parts(path@, is_dir, string_option_view(parent), string_option_view(name)),
{
    if is_dir {
        return (owned(path), owned(DEFAULT_LOG_FILENAME));
    }
    let file = name_or_default(name);
    match parent {
        Some(p) => {
            if p.as_str().unicode_len() > 0 {
                (p, file)
            } else {
                (owned("."), file)
            }
        },
        None => (owned("."), file),
    }
}

/// Splits a log target into its folder and file name; `is_dir` says whether
/// the path is an existing directory.
pub fn split_file_target(path: &str, is_dir: bool) -> (r: (String, String))
    ensures
        (r.0@, r.1@) == file_target(path@, is_dir),
{
    target_from_parts(path, is_dir, parent(path), crate::paths::file_name(path))
}

/// An explicitly named log file always wins over the default places, and
/// disabling file logging wins over everything.
pub proof fn lemma_log_file_precedence(
    cli_file: Option<Seq<char>>,
    env_file: Option<Seq<char>>,
    state_dir: Option<Seq<char>>,
    temp_dir: Seq<char>,
)
    ensures
        log_file_choice(cli_file, true, env_file, state_dir, temp_dir) == LogFileView::Disabled,
        cli_file matches Some(p) ==> log_file_choice(cli_file, false, env_file, state_dir, temp_dir)
            == LogFileView::Given(p),
        (cli_file is None && setting_value(env_file) is Some) ==> log_file_choice(
            cli_file,
            false,
            env_file,
            state_dir,
            temp_dir,
        ) == LogFileView::Given(setting_value(env_file)->0),
{
}

/// The command-line level wins over the environment, `$ASR_LOG` over
/// `$RUST_LOG`, and `info` is the fallback.
pub proof fn lemma_level_precedence(
    cli: Option<LogLevel>,
    asr_log: Option<Seq<char>>,
    rust_log: Option<Seq<char>>,
)
    ensures
        cli matches Some(l) ==> chosen_level(cli, asr_log, rust_log) == level_text(l),
        (cli is None && setting_value(asr_log) is Some) ==> chosen_level(cli, asr_log, rust_log)
            == setting_value(asr_log)->0,
        (cli is None && setting_value(asr_log) is None && setting_value(rust_log) is None)
            ==> chosen_level(cli, asr_log, rust_log) == "info"@,
{
}

/// The filter directive follows the documented order over all inputs: a
/// command-line level gives its own name; else a non-blank `$ASR_LOG`, trimmed;
/// else, when `$ASR_LOG` is unset or blank, a non-blank `$RUST_LOG`, trimmed;
/// else `info`.
pub proof fn lemma_level_sources(
    level: LogLevel,
    asr_log: Option<Seq<char>>,
    rust_log: Option<Seq<char>>,
)
    ensures
        chosen_level(Some(level), asr_log, rust_log) == (match level {
            LogLevel::Trace => "trace"@,
            LogLevel::Debug => "debug"@,
            LogLevel::Info => "info"@,
            LogLevel::Warn => "warn"@,
            LogLevel::Error => "error"@,
        }),
        (asr_log matches Some(a) && trimmed(a).len() > 0) ==> chosen_level(None, asr_log, rust_log)
            == trimmed(asr_log->0),
        ((asr_log is None || trimmed(asr_log->0).len() == 0) && (rust_log matches Some(r)
            && trimmed(r).len() > 0)) ==> chosen_level(None, asr_log, rust_log) == trimmed(rust_log->0),
        ((asr_log is None || trimmed(asr_log->0).len() == 0) && (rust_log is None || trimmed(
            rust_log->0,
        ).len() == 0)) ==> chosen_level(None, asr_log, rust_log) == "info"@,
{
}

/// With file logging on and no file named on the command line or (non-blank)
/// in `$ASR_LOG_FILE`, every default place is searched, in order: the system
/// log folder, the user state folder when there is one, the temporary folder.
pub proof fn lemma_log_search_covers_defaults(
    env_file: Option<Seq<char>>,
    state_dir: Option<Seq<char>>,
    temp_dir: Seq<char>,
)
    requires
        env_file is None || trimmed(env_file->0).len() == 0,
    ensures
        log_file_choice(None, false, env_file, state_dir, temp_dir) == LogFileView::Search(
            match state_dir {
                Some(d) => seq![
                    joined_path("/var/log/asr-server"@, "asr-server.log"@),
                    joined_path(joined_path(d, "asr-server"@), "asr-server.log"@),
                    joined_path(joined_path(temp_dir, "asr-server"@), "asr-server.log"@),
                ],
                None => seq![
                    joined_path("/var/log/asr-server"@, "asr-server.log"@),
                    joined_path(joined_path(temp_dir, "asr-server"@), "asr-server.log"@),
                ],
            },
        ),
{
    assert(DEFAULT_LOG_FILENAME@ == "asr-server.log"@);
    let c = candidate_files(state_dir, temp_dir);
    match state_dir {
        Some(d) => {
            assert(c =~= seq![
                joined_path("/var/log/asr-server"@, "asr-server.log"@),
                joined_path(joined_path(d, "asr-server"@), "asr-server.log"@),
                joined_path(joined_path(temp_dir, "asr-server"@), "asr-server.log"@),
            ]);
        },
        None => {
            assert(c =~= seq![
                joined_path("/var/log/asr-server"@, "asr-server.log"@),
                joined_path(joined_path(temp_dir, "asr-server"@), "asr-server.log"@),
            ]);
        },
    }
}

} // verus!
