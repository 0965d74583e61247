use beam::config::{
    AudioConfig, AudioSection, BeamConfig, ConfigFile, ServerConfig, ServerSection, SessionConfig,
    SessionSection, VideoConfig, VideoSection,
};

fn text(t: &toml::Table, key: &str) -> Option<String> {
    t.get(key).map(|v| v.as_str().expect("a string").to_string())
}

fn number(t: &toml::Table, key: &str) -> Option<i64> {
    t.get(key).map(|v| v.as_integer().expect("an integer"))
}

fn flag(t: &toml::Table, key: &str) -> Option<bool> {
    t.get(key).map(|v| v.as_bool().expect("a boolean"))
}

fn section<'a>(t: &'a toml::Table, key: &str) -> Option<&'a toml::Table> {
    t.get(key).map(|v| v.as_table().expect("a table"))
}

/// What a configuration file of this text sets, filled with the defaults.
fn parse(source: &str) -> BeamConfig {
    let t: toml::Table = source.parse().expect("TOML");
    ConfigFile {
        server: section(&t, "server").map(|s| ServerSection {
            bind: text(s, "bind"),
            port: number(s, "port").map(|n| n as u16),
            hostname: text(s, "hostname"),
            tls_cert: text(s, "tls_cert"),
            tls_key: text(s, "tls_key"),
            jwt_secret: text(s, "jwt_secret"),
            web_root: text(s, "web_root"),
            metrics_require_auth: flag(s, "metrics_require_auth"),
            admin_users: s.get("admin_users").map(|v| {
                let list = v.as_array().expect("an array");
                list.iter().map(|u| u.as_str().expect("a string").to_string()).collect()
            }),
        }),
        video: section(&t, "video").map(|s| VideoSection {
            bitrate: number(s, "bitrate").map(|n| n as u32),
            min_bitrate: number(s, "min_bitrate").map(|n| n as u32),
            max_bitrate: number(s, "max_bitrate").map(|n| n as u32),
            framerate: number(s, "framerate").map(|n| n as u32),
            encoder: text(s, "encoder"),
            max_width: number(s, "max_width").map(|n| n as u32),
            max_height: number(s, "max_height").map(|n| n as u32),
        }),
        audio: section(&t, "audio").map(|s| AudioSection {
            enabled: flag(s, "enabled"),
            bitrate: number(s, "bitrate").map(|n| n as u32),
        }),
        session: section(&t, "session").map(|s| SessionSection {
            default_width: number(s, "default_width").map(|n| n as u32),
            default_height: number(s, "default_height").map(|n| n as u32),
            display_start: number(s, "display_start").map(|n| n as u32),
            max_sessions: number(s, "max_sessions").map(|n| n as u32),
            idle_timeout: number(s, "idle_timeout").map(|n| n as u64),
            gpu_driver: text(s, "gpu_driver"),
            backend: text(s, "backend"),
        }),
    }
    .filled()
}

#[test]
fn default_config_from_empty_string() {
    let config: BeamConfig =
        parse("");

    // Server defaults
    assert_eq!(config.server.bind, "0.0.0.0");
    assert_eq!(config.server.port, 8444);
    assert!(config.server.hostname.is_none());
    assert!(config.server.tls_cert.is_none());
    assert!(config.server.tls_key.is_none());
    assert!(config.server.jwt_secret.is_none());
    assert_eq!(config.server.web_root, "web/dist");
    assert!(config.server.metrics_require_auth);

    // Video defaults
    assert_eq!(config.video.bitrate, 50000);
    assert_eq!(config.video.min_bitrate, 2000);
    assert_eq!(config.video.max_bitrate, 100000);
    assert_eq!(config.video.framerate, 120);
    assert!(config.video.encoder.is_none());
    assert_eq!(config.video.max_width, 3840);
    assert_eq!(config.video.max_height, 2160);

    // Audio defaults
    assert!(config.audio.enabled);
    assert_eq!(config.audio.bitrate, 128);

    // Session defaults
    assert_eq!(config.session.default_width, 1920);
    assert_eq!(config.session.default_height, 1080);
    assert_eq!(config.session.display_start, 10);
    assert_eq!(config.session.max_sessions, 8);
    assert_eq!(config.session.idle_timeout, 3600);
    assert_eq!(config.session.gpu_driver, "auto");
    assert_eq!(config.session.backend, "auto");
}

#[test]
fn partial_config_only_video_section() {
    let toml_str = r#"
[video]
bitrate = 8000
framerate = 30
"#;
    let config: BeamConfig =
        parse(toml_str);

    // Video: overridden values
    assert_eq!(config.video.bitrate, 8000);
    assert_eq!(config.video.framerate, 30);
    // Video: remaining fields use defaults
    assert_eq!(config.video.min_bitrate, 2000);
    assert_eq!(config.video.max_bitrate, 100000);
    assert!(config.video.encoder.is_none());
    assert_eq!(config.video.max_width, 3840);
    assert_eq!(config.video.max_height, 2160);

    // Other sections use full defaults
    assert_eq!(config.server.bind, "0.0.0.0");
    assert_eq!(config.server.port, 8444);
    assert_eq!(config.server.web_root, "web/dist");
    assert!(config.audio.enabled);
    assert_eq!(config.audio.bitrate, 128);
    assert_eq!(config.session.default_width, 1920);
    assert_eq!(config.session.idle_timeout, 3600);
}

#[test]
fn idle_timeout_zero_works() {
    let toml_str = r#"
[session]
idle_timeout = 0
"#;
    let config: BeamConfig =
        parse(toml_str);
    assert_eq!(config.session.idle_timeout, 0);
    // Other session fields retain defaults
    assert_eq!(config.session.default_width, 1920);
    assert_eq!(config.session.default_height, 1080);
    assert_eq!(config.session.display_start, 10);
    assert_eq!(config.session.max_sessions, 8);
}

#[test]
fn max_width_and_max_height_zero_works() {
    let toml_str = r#"
[video]
max_width = 0
max_height = 0
"#;
    let config: BeamConfig =
        parse(toml_str);
    assert_eq!(config.video.max_width, 0);
    assert_eq!(config.video.max_height, 0);
    // Other video fields retain defaults
    assert_eq!(config.video.bitrate, 50000);
    assert_eq!(config.video.framerate, 120);
}

#[test]
fn custom_values_override_defaults() {
    let toml_str = r#"
[server]
bind = "127.0.0.1"
port = 9444
hostname = "beam.example.com"
tls_cert = "/etc/beam/cert.pem"
tls_key = "/etc/beam/key.pem"
jwt_secret = "supersecret"
web_root = "/usr/share/beam/web/dist"
metrics_require_auth = false

[video]
bitrate = 10000
min_bitrate = 1000
max_bitrate = 30000
framerate = 120
encoder = "nvh264enc"
max_width = 7680
max_height = 4320

[audio]
enabled = false
bitrate = 256

[session]
default_width = 2560
default_height = 1440
display_start = 20
max_sessions = 16
idle_timeout = 7200
"#;
    let config: BeamConfig =
        parse(toml_str);

    // Server
    assert_eq!(config.server.bind, "127.0.0.1");
    assert_eq!(config.server.port, 9444);
    assert_eq!(config.server.hostname.as_deref(), Some("beam.example.com"));
    assert_eq!(
        config.server.tls_cert.as_deref(),
        Some("/etc/beam/cert.pem")
    );
    assert_eq!(config.server.tls_key.as_deref(), Some("/etc/beam/key.pem"));
    assert_eq!(config.server.jwt_secret.as_deref(), Some("supersecret"));
    assert_eq!(config.server.web_root, "/usr/share/beam/web/dist");
    assert!(!config.server.metrics_require_auth);

    // Video
    assert_eq!(config.video.bitrate, 10000);
    assert_eq!(config.video.min_bitrate, 1000);
    assert_eq!(config.video.max_bitrate, 30000);
    assert_eq!(config.video.framerate, 120);
    assert_eq!(config.video.encoder.as_deref(), Some("nvh264enc"));
    assert_eq!(config.video.max_width, 7680);
    assert_eq!(config.video.max_height, 4320);

    // Audio
    assert!(!config.audio.enabled);
    assert_eq!(config.audio.bitrate, 256);

    // Session
    assert_eq!(config.session.default_width, 2560);
    assert_eq!(config.session.default_height, 1440);
    assert_eq!(config.session.display_start, 20);
    assert_eq!(config.session.max_sessions, 16);
    assert_eq!(config.session.idle_timeout, 7200);
}

#[test]
fn default_trait_produces_valid_configs() {
    let from_toml: BeamConfig =
        parse("");

    let server = ServerConfig::default();
    assert_eq!(server.bind, from_toml.server.bind);
    assert_eq!(server.port, from_toml.server.port);
    assert_eq!(server.hostname, from_toml.server.hostname);
    assert_eq!(server.tls_cert, from_toml.server.tls_cert);
    assert_eq!(server.tls_key, from_toml.server.tls_key);
    assert_eq!(server.jwt_secret, from_toml.server.jwt_secret);
    assert_eq!(server.web_root, from_toml.server.web_root);
    assert_eq!(
        server.metrics_require_auth,
        from_toml.server.metrics_require_auth
    );

    let video = VideoConfig::default();
    assert_eq!(video.bitrate, from_toml.video.bitrate);
    assert_eq!(video.min_bitrate, from_toml.video.min_bitrate);
    assert_eq!(video.max_bitrate, from_toml.video.max_bitrate);
    assert_eq!(video.framerate, from_toml.video.framerate);
    assert_eq!(video.encoder, from_toml.video.encoder);
    assert_eq!(video.max_width, from_toml.video.max_width);
    assert_eq!(video.max_height, from_toml.video.max_height);

    let audio = AudioConfig::default();
    assert_eq!(audio.enabled, from_toml.audio.enabled);
    assert_eq!(audio.bitrate, from_toml.audio.bitrate);

    let session = SessionConfig::default();
    assert_eq!(session.default_width, from_toml.session.default_width);
    assert_eq!(session.default_height, from_toml.session.default_height);
    assert_eq!(session.display_start, from_toml.session.display_start);
    assert_eq!(session.max_sessions, from_toml.session.max_sessions);
    assert_eq!(session.idle_timeout, from_toml.session.idle_timeout);
    assert_eq!(session.gpu_driver, from_toml.session.gpu_driver);
    assert_eq!(session.backend, from_toml.session.backend);
}

// --- Validation tests ---

/// Helper: create a default config that passes validation, then mutate it.
fn valid_config() -> BeamConfig {
    parse("")
}

/// Helper: collect issues from validation.
fn validate_issues(config: &BeamConfig) -> Vec<String> {
    match config.validate() {
        Ok(()) => vec![],
        Err(issues) => issues,
    }
}

/// Helper: check if issues contain an ERROR with the given substring.
fn has_error(issues: &[String], substring: &str) -> bool {
    issues
        .iter()
        .any(|i| i.starts_with("ERROR:") && i.contains(substring))
}

/// Helper: check if issues contain a WARNING with the given substring.
fn has_warning(issues: &[String], substring: &str) -> bool {
    issues
        .iter()
        .any(|i| i.starts_with("WARNING:") && i.contains(substring))
}

#[test]
fn validate_default_config_passes() {
    let config = valid_config();
    assert!(config.validate().is_ok(), "default config should validate");
}

#[test]
fn validate_port_zero_is_error() {
    let mut config = valid_config();
    config.server.port = 0;
    let issues = validate_issues(&config);
    assert!(has_error(&issues, "port"), "port=0 should produce error");
}

#[test]
fn validate_port_one_is_ok() {
    let mut config = valid_config();
    config.server.port = 1;
    assert!(config.validate().is_ok());
}

#[test]
fn validate_tls_cert_missing_file_is_error() {
    let mut config = valid_config();
    config.server.tls_cert = Some("/nonexistent/cert.pem".to_string());
    config.server.tls_key = Some("/nonexistent/key.pem".to_string());
    let issues = validate_issues(&config);
    assert!(
        has_error(&issues, "tls_cert"),
        "missing tls_cert file should produce error"
    );
    assert!(
        has_error(&issues, "tls_key"),
        "missing tls_key file should produce error"
    );
}

#[test]
fn validate_tls_cert_without_key_is_warning() {
    let mut config = valid_config();
    config.server.tls_cert = Some("/some/cert.pem".to_string());
    config.server.tls_key = None;
    let issues = validate_issues(&config);
    assert!(
        has_warning(&issues, "tls_cert is set but tls_key is not"),
        "cert without key should warn"
    );
}

#[test]
fn validate_tls_key_without_cert_is_warning() {
    let mut config = valid_config();
    config.server.tls_cert = None;
    config.server.tls_key = Some("/some/key.pem".to_string());
    let issues = validate_issues(&config);
    assert!(
        has_warning(&issues, "tls_key is set but tls_cert is not"),
        "key without cert should warn"
    );
}

#[test]
fn validate_bitrate_over_200k_is_warning() {
    let mut config = valid_config();
    config.video.bitrate = 200_001;
    let issues = validate_issues(&config);
    assert!(
        has_warning(&issues, "bitrate"),
        "bitrate > 200000 should warn"
    );
    assert!(
        !has_error(&issues, "bitrate"),
        "bitrate warning should not be an error"
    );
}

#[test]
fn validate_bitrate_200k_is_ok() {
    let mut config = valid_config();
    config.video.bitrate = 200_000;
    assert!(config.validate().is_ok());
}

#[test]
fn validate_framerate_zero_is_error() {
    let mut config = valid_config();
    config.video.framerate = 0;
    let issues = validate_issues(&config);
    assert!(
        has_error(&issues, "framerate"),
        "framerate=0 should produce error"
    );
}

#[test]
fn validate_framerate_241_is_error() {
    let mut config = valid_config();
    config.video.framerate = 241;
    let issues = validate_issues(&config);
    assert!(
        has_error(&issues, "framerate"),
        "framerate=241 should produce error"
    );
}

#[test]
fn validate_framerate_240_is_ok() {
    let mut config = valid_config();
    config.video.framerate = 240;
    assert!(config.validate().is_ok());
}

#[test]
fn validate_framerate_1_is_ok() {
    let mut config = valid_config();
    config.video.framerate = 1;
    assert!(config.validate().is_ok());
}

#[test]
fn validate_max_width_too_small_is_error() {
    let mut config = valid_config();
    config.video.max_width = 319;
    let issues = validate_issues(&config);
    assert!(
        has_error(&issues, "max_width"),
        "max_width=319 should produce error"
    );
}

#[test]
fn validate_max_width_zero_is_ok() {
    let mut config = valid_config();
    config.video.max_width = 0;
    assert!(config.validate().is_ok());
}

#[test]
fn validate_max_width_320_is_ok() {
    let mut config = valid_config();
    config.video.max_width = 320;
    assert!(config.validate().is_ok());
}

#[test]
fn validate_max_height_too_small_is_error() {
    let mut config = valid_config();
    config.video.max_height = 239;
    let issues = validate_issues(&config);
    assert!(
        has_error(&issues, "max_height"),
        "max_height=239 should produce error"
    );
}

#[test]
fn validate_max_height_zero_is_ok() {
    let mut config = valid_config();
    config.video.max_height = 0;
    assert!(config.validate().is_ok());
}

#[test]
fn validate_max_height_240_is_ok() {
    let mut config = valid_config();
    config.video.max_height = 240;
    assert!(config.validate().is_ok());
}

#[test]
fn validate_display_start_zero_is_error() {
    let mut config = valid_config();
    config.session.display_start = 0;
    let issues = validate_issues(&config);
    assert!(
        has_error(&issues, "display_start"),
        "display_start=0 should produce error"
    );
}

#[test]
fn validate_display_start_one_is_ok() {
    let mut config = valid_config();
    config.session.display_start = 1;
    assert!(config.validate().is_ok());
}

#[test]
fn validate_gpu_driver_invalid_warns() {
    let mut config = valid_config();
    config.session.gpu_driver = "invalid".to_string();
    let issues = validate_issues(&config);
    assert!(
        issues.iter().any(|i| i.contains("gpu_driver")),
        "invalid gpu_driver should produce warning"
    );
}

#[test]
fn validate_gpu_driver_valid_values() {
    for driver in &["auto", "nvidia", "dummy"] {
        let mut config = valid_config();
        config.session.gpu_driver = driver.to_string();
        assert!(
            config.validate().is_ok(),
            "gpu_driver={driver} should be valid"
        );
    }
}

#[test]
fn validate_backend_invalid_warns() {
    let mut config = valid_config();
    config.session.backend = "invalid".to_string();
    let issues = validate_issues(&config);
    assert!(
        issues.iter().any(|i| i.contains("backend")),
        "invalid backend should produce warning"
    );
}

#[test]
fn validate_backend_valid_values() {
    for backend in &["auto", "xorg", "wayland"] {
        let mut config = valid_config();
        config.session.backend = backend.to_string();
        assert!(
            config.validate().is_ok(),
            "backend={backend} should be valid"
        );
    }
}

#[test]
fn validate_max_sessions_zero_is_error() {
    let mut config = valid_config();
    config.session.max_sessions = 0;
    let issues = validate_issues(&config);
    assert!(
        has_error(&issues, "max_sessions"),
        "max_sessions=0 should produce error"
    );
}

#[test]
fn validate_max_sessions_one_is_ok() {
    let mut config = valid_config();
    config.session.max_sessions = 1;
    assert!(config.validate().is_ok());
}

#[test]
fn validate_idle_timeout_zero_is_ok() {
    let mut config = valid_config();
    config.session.idle_timeout = 0;
    assert!(config.validate().is_ok(), "idle_timeout=0 means disabled");
}

#[test]
fn validate_idle_timeout_59_is_error() {
    let mut config = valid_config();
    config.session.idle_timeout = 59;
    let issues = validate_issues(&config);
    assert!(
        has_error(&issues, "idle_timeout"),
        "idle_timeout=59 should produce error"
    );
}

#[test]
fn validate_idle_timeout_60_is_ok() {
    let mut config = valid_config();
    config.session.idle_timeout = 60;
    assert!(config.validate().is_ok());
}

#[test]
fn validate_multiple_errors_collected() {
    let mut config = valid_config();
    config.server.port = 0;
    config.video.framerate = 0;
    config.session.max_sessions = 0;
    let issues = validate_issues(&config);
    assert!(
        issues.len() >= 3,
        "expected at least 3 errors, got {}: {:?}",
        issues.len(),
        issues
    );
}

#[test]
fn validate_warnings_only_is_err_with_no_errors() {
    let mut config = valid_config();
    config.video.bitrate = 200_001; // warning only
    let issues = validate_issues(&config);
    assert!(!issues.is_empty(), "should have warning");
    assert!(
        !issues.iter().any(|i| i.starts_with("ERROR:")),
        "should only contain warnings, not errors"
    );
}

#[test]
fn validate_admin_users_whitespace_warning() {
    let mut config = valid_config();
    config.server.admin_users = vec!["admin ".to_string()];
    let issues = validate_issues(&config);
    assert!(
        issues.iter().any(|i| i.contains("whitespace")),
        "trailing whitespace should produce warning"
    );
}

#[test]
fn validate_admin_users_invalid_chars_warning() {
    let mut config = valid_config();
    config.server.admin_users = vec!["admin@host".to_string()];
    let issues = validate_issues(&config);
    assert!(
        issues.iter().any(|i| i.contains("not allowed")),
        "invalid chars should produce warning"
    );
}

#[test]
fn validate_admin_users_valid_names_ok() {
    let mut config = valid_config();
    config.server.admin_users = vec![
        "alice".to_string(),
        "bob-1".to_string(),
        "sys_admin.2".to_string(),
    ];
    let issues = validate_issues(&config);
    assert!(
        !issues.iter().any(|i| i.contains("admin_users")),
        "valid admin usernames should not produce warnings"
    );
}

#[test]
fn validate_admin_users_empty_string_warning() {
    let mut config = valid_config();
    config.server.admin_users = vec!["".to_string()];
    let issues = validate_issues(&config);
    assert!(
        issues.iter().any(|i| i.contains("empty string")),
        "empty admin username should produce warning"
    );
}

// --- The texts of the issues ---

fn only_issue(config: &BeamConfig) -> String {
    let issues = validate_issues(config);
    assert_eq!(issues.len(), 1, "{issues:?}");
    issues[0].clone()
}

#[test]
fn issue_texts_are_exact() {
    let mut c = valid_config();
    c.video.bitrate = 250_999;
    assert_eq!(
        only_issue(&c),
        "WARNING: video.bitrate is 250999 kbps (250 Mbps) — this is unusually high and may indicate a misconfiguration. Typical values: 20000-100000 kbps."
    );
    let mut c = valid_config();
    c.video.framerate = 241;
    assert_eq!(only_issue(&c), "ERROR: video.framerate must be between 1 and 240, got 241.");
    let mut c = valid_config();
    c.video.max_width = 319;
    assert_eq!(
        only_issue(&c),
        "ERROR: video.max_width must be 0 (unlimited) or at least 320, got 319."
    );
    let mut c = valid_config();
    c.video.max_height = 239;
    assert_eq!(
        only_issue(&c),
        "ERROR: video.max_height must be 0 (unlimited) or at least 240, got 239."
    );
    let mut c = valid_config();
    c.session.idle_timeout = 59;
    assert_eq!(
        only_issue(&c),
        "ERROR: session.idle_timeout must be 0 (disabled) or at least 60 seconds, got 59. Values under 60s will disconnect users too aggressively."
    );
    let mut c = valid_config();
    c.session.backend = "mir".to_string();
    assert_eq!(
        only_issue(&c),
        "WARNING: session.backend 'mir' is not recognized. Valid values: auto, xorg, wayland. Defaulting to auto."
    );
}

#[test]
fn issues_come_in_order() {
    let mut c = valid_config();
    c.server.tls_cert = Some("/some/cert.pem".to_string());
    c.server.port = 0;
    c.video.framerate = 0;
    c.session.display_start = 0;
    c.server.admin_users = vec![" x@y".to_string()];
    let issues = validate_issues(&c);
    let marks: Vec<&str> = issues.iter().map(|i| i.split(':').next().unwrap()).collect();
    assert_eq!(marks, ["WARNING", "ERROR", "ERROR", "ERROR", "WARNING", "WARNING"]);
    assert!(issues[4].contains("Did you mean 'x@y'?"));
    assert!(issues[5].contains("not allowed"));
}

#[test]
fn a_file_that_exists_is_no_issue() {
    let mut c = valid_config();
    c.server.tls_cert = Some("/proc/self/status".to_string());
    c.server.tls_key = Some("/nonexistent/key.pem".to_string());
    assert_eq!(c.tls_files(), Some(("/proc/self/status", "/nonexistent/key.pem")));
    let issue = only_issue(&c);
    assert!(issue.starts_with("ERROR: tls_key '/nonexistent/key.pem' does not exist."));
    assert!(c.validate_with(true, true).is_ok());
    assert_eq!(c.validate_with(false, false).unwrap_err().len(), 2);
    c.server.tls_key = None;
    assert_eq!(c.tls_files(), None);
}
