use streaming_asr_server::asr::{model_path, recognizer_settings};
use streaming_asr_server::config::{Config, ConfigError, LogLevel};
use streaming_asr_server::logging::{
    default_candidates, env_log_file, file_name_of, is_white_space, log_filter, name_or_default,
    parse_safe, resolve_level, target_from_parts, LogFilterError, resolve_log_file, split_file_target,
    LogFile, DEFAULT_LOG_FILENAME,
};
use streaming_asr_server::model::{
    canonicalize, detect_proxy, is_model_file, model_files, model_source, proxy_variables,
    resolve_model_url, verify, ModelSource, DEFAULT_MODEL_URL,
};

fn s(x: &str) -> String {
    x.to_string()
}

fn config() -> Config {
    Config {
        bind: s("0.0.0.0:6008"),
        tls_cert: None,
        tls_key: None,
        model: None,
        model_url: None,
        auth_token: None,
        max_sessions: 2,
        num_threads: None,
        decoding_method: s("greedy_search"),
        max_active_paths: 4,
        endpoint_silence: 1.2f32.to_bits(),
        endpoint_max_utterance: 20.0f32.to_bits(),
        sample_rate: 16000,
        idle_timeout: 60.0f64.to_bits(),
        log_level: None,
        log_file: None,
        no_log_file: false,
        resolved_model_url: String::new(),
        model_dir: String::new(),
    }
}

#[test]
fn log_level_names() {
    assert_eq!(LogLevel::Trace.as_str(), "trace");
    assert_eq!(LogLevel::Debug.as_str(), "debug");
    assert_eq!(LogLevel::Info.as_str(), "info");
    assert_eq!(LogLevel::Warn.as_str(), "warn");
    assert_eq!(LogLevel::Error.as_str(), "error");
}

#[test]
fn canonicalize_defaults_to_home_cache() {
    let mut c = config();
    assert_eq!(c.canonicalize(None, Some(s("/home/u")), Some(s("/work"))), Ok(()));
    assert_eq!(c.model_dir, "/home/u/.cache/asr-server/models");
    assert_eq!(c.resolved_model_url, DEFAULT_MODEL_URL);
}

#[test]
fn canonicalize_relative_paths_under_cwd() {
    let mut c = config();
    c.model = Some(s("models"));
    c.tls_cert = Some(s("cert.pem"));
    c.tls_key = Some(s("/etc/key.pem"));
    c.model_url = Some(s("file:///tmp/m.tar.bz2"));
    assert_eq!(c.canonicalize(Some(s("https://env")), None, Some(s("/work"))), Ok(()));
    assert_eq!(c.model_dir, "/work/models");
    assert!(c.model.is_none());
    assert_eq!(c.tls_cert.as_deref(), Some("/work/cert.pem"));
    assert_eq!(c.tls_key.as_deref(), Some("/etc/key.pem"));
    assert_eq!(c.resolved_model_url, "file:///tmp/m.tar.bz2");
}

#[test]
fn canonicalize_without_home_fails() {
    let mut c = config();
    assert_eq!(c.canonicalize(Some(s("https://env")), None, Some(s("/work"))), Err(ConfigError::NoHome));
    assert_eq!(c.resolved_model_url, "https://env");
}

#[test]
fn canonicalize_relative_without_cwd_fails() {
    let mut c = config();
    c.model = Some(s("/abs/models"));
    c.tls_cert = Some(s("cert.pem"));
    assert_eq!(c.canonicalize(None, None, None), Err(ConfigError::NoWorkingDir));
    assert_eq!(c.model_dir, "/abs/models");
    assert_eq!(c.tls_cert.as_deref(), Some("cert.pem"));
}

#[test]
fn model_url_precedence() {
    assert_eq!(resolve_model_url(Some("cli"), Some(s("env"))), "cli");
    assert_eq!(resolve_model_url(None, Some(s("env"))), "env");
    assert_eq!(resolve_model_url(None, Some(s(""))), DEFAULT_MODEL_URL);
    assert_eq!(resolve_model_url(None, None), DEFAULT_MODEL_URL);
}

#[test]
fn canonicalize_paths() {
    assert_eq!(canonicalize("/a/b", None).as_deref(), Some("/a/b"));
    assert_eq!(canonicalize("a/b", Some(s("/w"))).as_deref(), Some("/w/a/b"));
    assert_eq!(canonicalize("a", None), None);
}

#[test]
fn model_verification() {
    assert!(verify(&[Some(1), Some(2), Some(3), Some(4)]));
    assert!(!verify(&[Some(1), None, Some(3), Some(4)]));
    assert!(!verify(&[Some(1), Some(2), Some(3), Some(0)]));
}

#[test]
fn model_file_names() {
    assert_eq!(model_files(), vec!["encoder.int8.onnx", "decoder.onnx", "joiner.int8.onnx", "tokens.txt"]);
    assert!(is_model_file("tokens.txt"));
    assert!(is_model_file("joiner.int8.onnx"));
    assert!(!is_model_file("README.md"));
    assert!(!is_model_file("encoder.onnx"));
}

#[test]
fn model_sources() {
    match model_source("file:///data/model.tar.bz2") {
        ModelSource::LocalArchive(p) => assert_eq!(p, "/data/model.tar.bz2"),
        _ => panic!("expected a local archive"),
    }
    match model_source("https://example.org/m.tar.bz2") {
        ModelSource::Download(u) => assert_eq!(u, "https://example.org/m.tar.bz2"),
        _ => panic!("expected a download"),
    }
}

#[test]
fn proxy_detection_order() {
    assert_eq!(
        proxy_variables(),
        vec!["HTTPS_PROXY", "https_proxy", "HTTP_PROXY", "http_proxy", "ALL_PROXY", "all_proxy"]
    );
    let v = vec![None, Some(s("")), Some(s("http://p1")), None, Some(s("http://p2")), None];
    assert_eq!(detect_proxy(&v).as_deref(), Some("http://p1"));
    assert_eq!(detect_proxy(&[None, Some(s(""))]), None);
}

#[test]
fn recognizer_settings_from_config() {
    let mut c = config();
    c.model_dir = s("/m");
    c.num_threads = Some(3);
    let r = recognizer_settings(&c);
    assert_eq!(r.encoder, "/m/encoder.int8.onnx");
    assert_eq!(r.decoder, "/m/decoder.onnx");
    assert_eq!(r.joiner, "/m/joiner.int8.onnx");
    assert_eq!(r.tokens, "/m/tokens.txt");
    assert_eq!(r.decoding_method, "greedy_search");
    assert_eq!(r.max_active_paths, 4);
    assert!(r.enable_endpoint);
    assert_eq!(f32::from_bits(r.rule1_min_trailing_silence), 1.2);
    assert_eq!(f32::from_bits(r.rule3_min_utterance_length), 20.0);
    assert_eq!(r.num_threads, Some(3));
    assert_eq!(model_path("/m/", "x"), "/m/x");
    assert_eq!(model_path("/m", "/abs"), "/abs");
}

#[test]
fn log_level_precedence() {
    assert_eq!(resolve_level(Some(LogLevel::Warn), Some(s("debug")), None), "warn");
    assert_eq!(resolve_level(None, Some(s("  debug ")), Some(s("error"))), "debug");
    assert_eq!(resolve_level(None, Some(s("   ")), Some(s("error"))), "error");
    assert_eq!(
        resolve_level(None, Some(s("streaming_asr_server=debug,sherpa_onnx=info")), None),
        "streaming_asr_server=debug,sherpa_onnx=info"
    );
    assert_eq!(resolve_level(None, None, None), "info");
}

#[test]
fn env_log_file_trims() {
    assert_eq!(env_log_file(Some(s(" /tmp/a.log \n"))).as_deref(), Some("/tmp/a.log"));
    assert_eq!(env_log_file(Some(s("  "))), None);
    assert_eq!(env_log_file(None), None);
}

#[test]
fn log_candidates() {
    assert_eq!(
        default_candidates(Some(s("/home/u/.local/state")), "/tmp"),
        vec![
            s("/var/log/asr-server/asr-server.log"),
            s("/home/u/.local/state/asr-server/asr-server.log"),
            s("/tmp/asr-server/asr-server.log"),
        ]
    );
    assert_eq!(default_candidates(None, "/tmp").len(), 2);
}

#[test]
fn log_file_choice() {
    assert!(matches!(resolve_log_file(Some(s("/x.log")), true, None, None, "/tmp"), LogFile::Disabled));
    match resolve_log_file(Some(s("/x.log")), false, Some(s("/y.log")), None, "/tmp") {
        LogFile::Given(p) => assert_eq!(p, "/x.log"),
        _ => panic!("expected the given file"),
    }
    match resolve_log_file(None, false, Some(s(" /y.log ")), None, "/tmp") {
        LogFile::Given(p) => assert_eq!(p, "/y.log"),
        _ => panic!("expected the environment's file"),
    }
    match resolve_log_file(None, false, None, None, "/tmp") {
        LogFile::Search(c) => assert_eq!(c.len(), 2),
        _ => panic!("expected a search"),
    }
}

#[test]
fn split_log_targets() {
    assert_eq!(split_file_target("/var/log/x", true), (s("/var/log/x"), s(DEFAULT_LOG_FILENAME)));
    assert_eq!(split_file_target("/var/log/x.log", false), (s("/var/log"), s("x.log")));
    assert_eq!(split_file_target("x.log", false), (s("."), s("x.log")));
    assert_eq!(split_file_target("/", false), (s("."), s(DEFAULT_LOG_FILENAME)));
    assert_eq!(file_name_of("/a/.."), DEFAULT_LOG_FILENAME);
    assert_eq!(file_name_of("/a/b.log"), "b.log");
}

#[test]
fn tls_pair_rule() {
    let mut c = config();
    assert!(c.tls_pair_complete());
    c.tls_cert = Some(s("cert.pem"));
    assert!(!c.tls_pair_complete());
    c.tls_key = Some(s("key.pem"));
    assert!(c.tls_pair_complete());
    c.tls_cert = None;
    assert!(!c.tls_pair_complete());
}

#[test]
fn log_filter_parses_directives() {
    assert!(log_filter(Some(LogLevel::Trace), Some(s("[")), None).is_ok());
    assert!(log_filter(None, None, None).is_ok());
    assert!(log_filter(None, Some(s("streaming_asr_server=debug,sherpa_onnx=info")), None).is_ok());
    assert!(log_filter(None, Some(s("[")), None).is_err());
    assert!(log_filter(None, Some(s("  ")), Some(s("[")),).is_err());
}

#[test]
fn unicode_white_space_is_trimmed() {
    assert_eq!(resolve_level(None, Some(s("\u{3000}debug\u{a0}\t")), None), "debug");
    assert_eq!(env_log_file(Some(s("\u{2028}\u{85}"))), None);
}

#[test]
fn canonical_paths_are_absolute_and_stable() {
    let q = canonicalize("rel/dir", Some(s("/work"))).unwrap();
    assert!(q.starts_with('/'));
    assert_eq!(canonicalize(&q, Some(s("/elsewhere"))), Some(q.clone()));
    let mut c = config();
    c.tls_cert = Some(s("c.pem"));
    c.tls_key = Some(s("k.pem"));
    assert_eq!(c.canonicalize(None, Some(s("/home/u")), Some(s("/w"))), Ok(()));
    assert!(c.model_dir.starts_with('/'));
    assert_eq!(c.tls_cert.as_deref(), Some("/w/c.pem"));
    assert_eq!(c.tls_key.as_deref(), Some("/w/k.pem"));
}

#[test]
fn unreadable_directives_are_refused_not_parsed() {
    assert!(matches!(log_filter(None, Some(s("a, é=x")), None), Err(LogFilterError::Unsupported)));
    assert!(matches!(log_filter(None, Some(s("a,\u{3000}b=info")), None), Err(LogFilterError::Unsupported)));
    assert!(matches!(log_filter(None, Some(s("[")), None), Err(LogFilterError::Rejected(_))));
    assert!(log_filter(None, Some(s("é=info,b=warn")), None).is_ok());
}

#[test]
fn directive_safety() {
    assert!(parse_safe(""));
    assert!(parse_safe("info"));
    assert!(parse_safe("a, b=debug"));
    assert!(parse_safe("é=x,b"));
    assert!(!parse_safe(" é=x"));
    assert!(!parse_safe("a, é=x"));
    assert!(!parse_safe("\u{a0}a=x"));
    assert!(is_white_space(' ') && is_white_space('\u{3000}') && is_white_space('\t'));
    assert!(!is_white_space('a') && !is_white_space(','));
}

#[test]
fn log_target_from_parts() {
    assert_eq!(name_or_default(Some(s("app.log"))), "app.log");
    assert_eq!(name_or_default(None), DEFAULT_LOG_FILENAME);
    assert_eq!(target_from_parts("app.log", false, Some(s("")), Some(s("app.log"))), (s("."), s("app.log")));
    assert_eq!(target_from_parts("/v/app.log", false, Some(s("/v")), Some(s("app.log"))), (s("/v"), s("app.log")));
    assert_eq!(target_from_parts("/", false, None, None), (s("."), s(DEFAULT_LOG_FILENAME)));
    assert_eq!(target_from_parts("/v", true, Some(s("/")), Some(s("v"))), (s("/v"), s(DEFAULT_LOG_FILENAME)));
}

#[test]
fn verify_any_number_of_files() {
    assert!(verify(&[]));
    assert!(verify(&[Some(7)]));
    assert!(!verify(&[Some(7), Some(1), None, Some(3), Some(9)]));
}
