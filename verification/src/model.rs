//! Where the recognition model comes from, and whether it is complete.
use vstd::prelude::*;

use crate::paths::{absolute, is_absolute, join, joined_path};
use crate::text::{owned, same_text, starts_with, strip_prefix};

verus! {

/// The model archive fetched when no other source is named.
pub const DEFAULT_MODEL_URL: &'static str = "https://github.com/k2-fsa/sherpa-onnx/releases/download/asr-models/sherpa-onnx-streaming-zipformer-zh-xlarge-int8-2025-06-30.tar.bz2";

/// The environment variable that may name the model archive.
pub const ENV_MODEL_URL: &'static str = "ASR_MODEL_URL";

/// The files that make up a model, in the order that [`verify`] checks them.
pub open spec fn model_file_names() -> Seq<Seq<char>> {
    seq!["encoder.int8.onnx"@, "decoder.onnx"@, "joiner.int8.onnx"@, "tokens.txt"@]
}

pub open spec fn strs_view(v: Seq<&'static str>) -> Seq<Seq<char>> {
    v.map_values(|s: &'static str| s@)
}

/// The names of the model files.
pub fn model_files() -> (r: Vec<&'static str>)
    ensures
        strs_view(r@) == model_file_names(),
{
    let r = vec!["encoder.int8.onnx", "decoder.onnx", "joiner.int8.onnx", "tokens.txt"];
    assert(strs_view(r@) =~= model_file_names());
    r
}

/// Whether a file name is one of the model files.
pub fn is_model_file(name: &str) -> (r: bool)
    ensures
        r == model_file_names().contains(name@),
{
    let files = model_files();
    let mut i: usize = 0;
    while i < files.len()
        invariant
            strs_view(files@) == model_file_names(),
            i <= files@.len(),
            forall|k: int| 0 <= k < i ==> model_file_names()[k] != name@,
        decreases files@.len() - i,
    {
        if same_text(files[i], name) {
            assert(model_file_names()[i as int] == name@);
            return true;
        }
        i = i + 1;
    }
    assert(!model_file_names().contains(name@));
    false
}

pub open spec fn str_option_view(o: Option<&str>) -> Option<Seq<char>> {
    match o {
        Some(s) => Some(s@),
        None => None,
    }
}

pub open spec fn string_option_view(o: Option<String>) -> Option<Seq<char>> {
    match o {
        Some(s) => Some(s@),
        None => None,
    }
}

/// The model archive to use: the one given on the command line, else a
/// non-empty value of `$ASR_MODEL_URL`, else the default.
pub open spec fn chosen_model_url(cli_url: Option<Seq<char>>, env_url: Option<Seq<char>>) -> Seq<char> {
    match cli_url {
        Some(u) => u,
        None => match env_url {
            Some(e) if e.len() > 0 => e,
            _ => DEFAULT_MODEL_URL@,
        },
    }
}

/// Chooses the model archive; `env_url` is the value of `$ASR_MODEL_URL`,
/// when it is set and valid Unicode.
pub fn resolve_model_url(cli_url: Option<&str>, env_url: Option<String>) -> (r: String)
    ensures
        r@ == chosen_model_url(str_option_view(cli_url), string_option_view(env_url)),
{
    if let Some(url) = cli_url {
        return owned(url);
    }
    if let Some(env_url) = env_url {
        if env_url.as_str().unicode_len() > 0 {
            return env_url;
        }
    }
    owned(DEFAULT_MODEL_URL)
}

/// The absolute form of a path: the path itself when absolute, else the
/// path under the working directory; `None` when it is relative and the
/// working directory is unknown.
pub open spec fn canonical_path(path: Seq<char>, cwd: Option<Seq<char>>) -> Option<Seq<char>> {
    if absolute(path) {
        Some(path)
    } else {
        match cwd {
            Some(c) => Some(joined_path(c, path)),
            None => None,
        }
    }
}

/// Makes a path absolute; `cwd` is the working directory, when it could be
/// read. Under an absolute working directory it always succeeds, with an
/// absolute path, which a second pass keeps as it is.
pub fn canonicalize(path: &str, cwd: Option<String>) -> (r: Option<String>)
    ensures
        string_option_view(r) == canonical_path(path@, string_option_view(cwd)),
        (cwd matches Some(c) && absolute(c@)) ==> (r matches Some(q) && absolute(q@)),
        r matches Some(q) ==> (absolute(q@) ==> forall|later: Option<Seq<char>>|
            canonical_path(q@, later) == Some(q@)),
{
    if is_absolute(path) {
        Some(owned(path))
    } else {
        match cwd {
            Some(c) => {
                let q = join(c.as_str(), path);
                proof {
                    if absolute(c@) {
                        lemma_extension_of_absolute(c@, q@);
                    }
                }
                Some(q)
            },
            None => None,
        }
    }
}

/// Whether every model file is present and non-empty, given the size of
/// each file in the order of [`model_files`] (`None` for a missing file).
pub open spec fn model_complete(sizes: Seq<Option<u64>>) -> bool {
    forall|i: int| 0 <= i < sizes.len() ==> (#[trigger] sizes[i] matches Some(n) && n > 0)
}

/// Whether the model is complete, given the size of each model file in the
/// order of [`model_files`] (`None` for a file that does not exist).
pub fn verify(sizes: &[Option<u64>]) -> (r: bool)
    ensures
        r == model_complete(sizes@),
{
    let mut i: usize = 0;
    while i < sizes.len()
        invariant
            i <= sizes@.len(),
            forall|k: int| 0 <= k < i ==> (#[trigger] sizes@[k] matches Some(n) && n > 0),
        decreases sizes@.len() - i,
    {
        match sizes[i] {
            Some(n) => {
                if n == 0 {
                    return false;
                }
            },
            None => {
                return false;
            },
        }
        i = i + 1;
    }
    true
}

/// Where the model archive comes from.
pub enum ModelSource {
    /// A local archive at this path (from a `file://` URL).
    LocalArchive(String),
    /// An archive to download from this URL.
    Download(String),
}

/// Tells a local archive (`file://` URL) from one to download.
pub fn model_source(url: &str) -> (r: ModelSource)
    ensures
        match r {
            ModelSource::LocalArchive(p) => starts_with(url@, "file://"@) && p@ == url@.subrange(
                7,
                url@.len() as int,
            ),
            ModelSource::Download(u) => !starts_with(url@, "file://"@) && u@ == url@,
        },
{
    proof {
        reveal_strlit("file://");
    }
    match strip_prefix(url, "file://") {
        Some(path) => ModelSource::LocalArchive(owned(path)),
        None => ModelSource::Download(owned(url)),
    }
}

/// The environment variables that may name a download proxy, most preferred first.
pub open spec fn proxy_variable_names() -> Seq<Seq<char>> {
    seq!["HTTPS_PROXY"@, "https_proxy"@, "HTTP_PROXY"@, "http_proxy"@, "ALL_PROXY"@, "all_proxy"@]
}

/// The names of the proxy variables, most preferred first.
pub fn proxy_variables() -> (r: Vec<&'static str>)
    ensures
        strs_view(r@) == proxy_variable_names(),
{
    let r = vec!["HTTPS_PROXY", "https_proxy", "HTTP_PROXY", "http_proxy", "ALL_PROXY", "all_proxy"];
    assert(strs_view(r@) =~= proxy_variable_names());
    r
}

/// The first non-empty value, in order.
pub open spec fn first_non_empty(values: Seq<Option<Seq<char>>>) -> Option<Seq<char>>
    decreases values.len(),
{
    if values.len() == 0 {
        None
    } else {
        match values[0] {
            Some(v) if v.len() > 0 => Some(v),
            _ => first_non_empty(values.subrange(1, values.len() as int)),
        }
    }
}

pub open spec fn string_options_view(values: Seq<Option<String>>) -> Seq<Option<Seq<char>>> {
    values.map_values(|o: Option<String>| string_option_view(o))
}

/// The download proxy: the first non-empty value among the proxy variables,
/// given their values in the order of [`proxy_variables`].
pub fn detect_proxy(values: &[Option<String>]) -> (r: Option<String>)
    ensures
        string_option_view(r) == first_non_empty(string_options_view(values@)),
{
    let mut i: usize = 0;
    assert(string_options_view(values@).subrange(0, values@.len() as int) =~= string_options_view(
        values@,
    ));
    while i < values.len()
        invariant
            i <= values@.len(),
            first_non_empty(string_options_view(values@)) == first_non_empty(
                string_options_view(values@).subrange(i as int, values@.len() as int),
            ),
        decreases values@.len() - i,
    {
        let ghost rest = string_options_view(values@).subrange(i as int, values@.len() as int);
        assert(rest[0] == string_option_view(values@[i as int]));
        assert(rest.subrange(1, rest.len() as int) =~= string_options_view(values@).subrange(
            i + 1,
            values@.len() as int,
        ));
        if let Some(v) = &values[i] {
            if v.as_str().unicode_len() > 0 {
                return Some(v.clone());
            }
        }
        i = i + 1;
    }
    assert(string_options_view(values@).subrange(i as int, values@.len() as int).len() == 0);
    None
}

/// The command-line model URL wins over `$ASR_MODEL_URL`, which wins over the
/// default unless it is empty.
pub proof fn lemma_model_url_precedence(cli_url: Option<Seq<char>>, env_url: Option<Seq<char>>)
    ensures
        cli_url matches Some(u) ==> chosen_model_url(cli_url, env_url) == u,
        (cli_url is None && (env_url matches Some(e) && e.len() > 0)) ==> chosen_model_url(
            cli_url,
            env_url,
        ) == env_url->0,
        (cli_url is None && !(env_url matches Some(e) && e.len() > 0)) ==> chosen_model_url(
            cli_url,
            env_url,
        ) == DEFAULT_MODEL_URL@,
{
}

/// An absolute path is kept as it is, whatever the working directory.
pub proof fn lemma_absolute_paths_kept(path: Seq<char>, cwd: Option<Seq<char>>)
    requires
        absolute(path),
    ensures
        canonical_path(path, cwd) == Some(path),
{
}

/// A model with a missing or empty file is never taken as complete.
pub proof fn lemma_incomplete_model_rejected(sizes: Seq<Option<u64>>, i: int)
    requires
        0 <= i < sizes.len(),
        sizes[i] is None || sizes[i] == Some(0u64),
    ensures
        !model_complete(sizes),
{
}

/// A path under an absolute directory is absolute: a relative path joined
/// to it begins with it.
pub(crate) proof fn lemma_extension_of_absolute(base: Seq<char>, r: Seq<char>)
    requires
        absolute(base),
        starts_with(r, base),
    ensures
        absolute(r),
{
    reveal_strlit("/");
    assert(r[0] == base[0]);
    assert(r.subrange(0, 1) =~= "/"@);
}

/// A model is complete exactly when every file is present and non-empty.
pub proof fn lemma_complete_model_accepted(sizes: Seq<Option<u64>>)
    ensures
        model_complete(sizes) <==> (forall|i: int|
            0 <= i < sizes.len() ==> (#[trigger] sizes[i] is Some && sizes[i]->0 > 0)),
{
}

/// The proxy is the first variable, in order, that holds a non-empty value:
/// a non-empty first value wins, blank or missing ones are skipped, and with
/// none non-empty there is no proxy.
pub proof fn lemma_proxy_order(first: Option<Seq<char>>, rest: Seq<Option<Seq<char>>>)
    ensures
        (first matches Some(v) && v.len() > 0) ==> first_non_empty(seq![first] + rest) == first,
        !(first matches Some(v) && v.len() > 0) ==> first_non_empty(seq![first] + rest)
            == first_non_empty(rest),
        first_non_empty(Seq::<Option<Seq<char>>>::empty()) is None,
{
    assert((seq![first] + rest).subrange(1, (seq![first] + rest).len() as int) =~= rest);
}

} // verus!
