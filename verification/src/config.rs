use vstd::prelude::*;

use crate::model::{
    canonical_path, canonicalize as canonical, chosen_model_url, resolve_model_url, string_option_view,
};
use crate::model::lemma_extension_of_absolute;
use crate::paths::{absolute, join, joined_path};

verus! {

/// Log verbosity, mapped to a `tracing` level. The default is `info`.
#[derive(Copy, Clone, Debug, PartialEq, Eq, Structural)]
pub enum LogLevel {
    Trace,
    Debug,
    Info,
    Warn,
    Error,
}

/// The directive text that names a log level.
pub open spec fn level_text(level: LogLevel) -> Seq<char> {
    match level {
        LogLevel::Trace => "trace"@,
        LogLevel::Debug => "debug"@,
        LogLevel::Info => "info"@,
        LogLevel::Warn => "warn"@,
        LogLevel::Error => "error"@,
    }
}

impl LogLevel {
    /// The lower-case name of the level, as `tracing` directives spell it.
    pub fn as_str(self) -> (r: &'static str)
        ensures
            r@ == level_text(self),
    {
        match self {
            LogLevel::Trace => "trace",
            LogLevel::Debug => "debug",
            LogLevel::Info => "info",
            LogLevel::Warn => "warn",
            LogLevel::Error => "error",
        }
    }
}


/// The server's settings, as given on the command line and completed by
/// [`Config::canonicalize`].
///
/// Paths are held as text. The floating-point settings are held as their
/// IEEE-754 bit patterns: `endpoint_silence` and `endpoint_max_utterance`
/// (seconds, `f32`) and `idle_timeout` (seconds, `f64`).
pub struct Config {
    /// The socket address to listen on, as text.
    pub bind: String,
    pub tls_cert: Option<String>,
    pub tls_key: Option<String>,
    pub model: Option<String>,
    pub model_url: Option<String>,
    pub auth_token: Option<String>,
    pub max_sessions: usize,
    pub num_threads: Option<i32>,
    pub decoding_method: String,
    pub max_active_paths: i32,
    pub endpoint_silence: u32,
    pub endpoint_max_utterance: u32,
    pub sample_rate: i32,
    pub idle_timeout: u64,
    pub log_level: Option<LogLevel>,
    pub log_file: Option<String>,
    pub no_log_file: bool,
    pub resolved_model_url: String,
    pub model_dir: String,
}

/// Why the settings could not be completed.
#[derive(Copy, Clone, Debug, PartialEq, Eq, Structural)]
pub enum ConfigError {
    /// No model directory was given and `$HOME` is not set.
    NoHome,
    /// A relative path was given and the working directory is unknown.
    NoWorkingDir,
}

/// The model directory: the given one made absolute, else
/// `$HOME/.cache/asr-server/models`.
pub open spec fn chosen_model_dir(
    model: Option<Seq<char>>,
    home: Option<Seq<char>>,
    cwd: Option<Seq<char>>,
) -> Option<Seq<char>> {
    match model {
        Some(p) => canonical_path(p, cwd),
        None => match home {
            Some(h) => Some(joined_path(h, ".cache/asr-server/models"@)),
            None => None,
        },
    }
}

/// A path option made absolute; `None` inside when that failed.
pub open spec fn canonical_option(p: Option<Seq<char>>, cwd: Option<Seq<char>>) -> Option<Option<Seq<char>>> {
    match p {
        Some(p) => match canonical_path(p, cwd) {
            Some(c) => Some(Some(c)),
            None => None,
        },
        None => Some(None),
    }
}

/// Whether a path is given and absolute.
pub open spec fn absolute_option(p: Option<Seq<char>>) -> bool {
    p matches Some(q) && absolute(q)
}

/// Whether two settings agree on every field that completing them leaves alone.
pub open spec fn same_given_settings(a: &Config, b: &Config) -> bool {
    &&& a.bind@ == b.bind@
    &&& a.model_url == b.model_url
    &&& a.auth_token == b.auth_token
    &&& a.max_sessions == b.max_sessions
    &&& a.num_threads == b.num_threads
    &&& a.decoding_method@ == b.decoding_method@
    &&& a.max_active_paths == b.max_active_paths
    &&& a.endpoint_silence == b.endpoint_silence
    &&& a.endpoint_max_utterance == b.endpoint_max_utterance
    &&& a.sample_rate == b.sample_rate
    &&& a.idle_timeout == b.idle_timeout
    &&& a.log_level == b.log_level
    &&& a.log_file == b.log_file
    &&& a.no_log_file == b.no_log_file
}

impl Config {
    /// Whether the TLS certificate and key are given together, or neither is.
    pub fn tls_pair_complete(&self) -> (r: bool)
        ensures
            r == (self.tls_cert is Some == self.tls_key is Some),
    {
        self.tls_cert.is_some() == self.tls_key.is_some()
    }

    /// Completes the settings: chooses the model archive, fixes the model
    /// directory and makes the TLS paths absolute, in that order, stopping
    /// at the first failure. `env_model_url`, `home` and `cwd` are
    /// `$ASR_MODEL_URL`, `$HOME` and the working directory, where they could
    /// be read. The `model` field is consumed.
    pub fn canonicalize(
        &mut self,
        env_model_url: Option<String>,
        home: Option<String>,
        cwd: Option<String>,
    ) -> (r: Result<(), ConfigError>)
        ensures
            same_given_settings(final(self), old(self)),
            final(self).model is None,
            (r is Ok && absolute_option(string_option_view(cwd)) && (old(self).model is Some
                || absolute_option(string_option_view(home)))) ==> absolute(final(self).model_dir@),
            (r is Ok && absolute_option(string_option_view(cwd))) ==> (final(self).tls_cert is None
                || absolute_option(string_option_view(final(self).tls_cert))),
            (r is Ok && absolute_option(string_option_view(cwd))) ==> (final(self).tls_key is None
                || absolute_option(string_option_view(final(self).tls_key))),
            final(self).resolved_model_url@ == chosen_model_url(
                string_option_view(old(self).model_url),
                string_option_view(env_model_url),
            ),
            ({
                let cwd = string_option_view(cwd);
                let dir = chosen_model_dir(string_option_view(old(self).model), string_option_view(home), cwd);
                let cert = canonical_option(string_option_view(old(self).tls_cert), cwd);
                let key = canonical_option(string_option_view(old(self).tls_key), cwd);
                &&& r is Ok <==> (dir is Some && cert is Some && key is Some)
                &&& r == Err::<(), ConfigError>(ConfigError::NoHome) <==> (old(self).model is None && home is None)
                &&& match dir {
                    Some(d) => final(self).model_dir@ == d,
                    None => final(self).model_dir == old(self).model_dir,
                }
                &&& string_option_view(final(self).tls_cert) == (match (dir, cert) {
                    (Some(_), Some(c)) => c,
                    _ => string_option_view(old(self).tls_cert),
                })
                &&& string_option_view(final(self).tls_key) == (match (dir, cert, key) {
                    (Some(_), Some(_), Some(k)) => k,
                    _ => string_option_view(old(self).tls_key),
                })
            }),
    {
        self.resolved_model_url = resolve_model_url(
            match &self.model_url {
                Some(u) => Some(u.as_str()),
                None => None,
            },
            env_model_url,
        );
        let model = self.model.take();
        self.model_dir = match model {
            Some(p) => match canonical(p.as_str(), cwd.clone()) {
                Some(d) => d,
                None => return Err(ConfigError::NoWorkingDir),
            },
            None => match home {
                Some(h) => {
                    let d = join(h.as_str(), ".cache/asr-server/models");
                    proof {
                        reveal_strlit(".cache/asr-server/models");
                        reveal_strlit("/");
                        assert(!absolute(".cache/asr-server/models"@)) by {
                            assert(".cache/asr-server/models"@.subrange(0, 1)[0] != "/"@[0]);
                        }
                        if absolute(h@) {
                            lemma_extension_of_absolute(h@, d@);
                        }
                    }
                    d
                },
                None => return Err(ConfigError::NoHome),
            },
        };
        if let Some(cert) = &self.tls_cert {
            match canonical(cert.as_str(), cwd.clone()) {
                Some(c) => {
                    self.tls_cert = Some(c);
                },
                None => return Err(ConfigError::NoWorkingDir),
            }
        }
        if let Some(key) = &self.tls_key {
            match canonical(key.as_str(), cwd.clone()) {
                Some(k) => {
                    self.tls_key = Some(k);
                },
                None => return Err(ConfigError::NoWorkingDir),
            }
        }
        Ok(())
    }
}

} // verus!
