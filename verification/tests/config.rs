use prism_client::config::{ArgError, ClientConfig, LaunchMode, UserPrefs};

fn args(s: &str) -> Vec<String> {
    s.split_whitespace().map(String::from).collect()
}

fn home() -> Option<String> {
    Some("/home/viewer".to_string())
}

#[test]
fn default_prefs() {
    let prefs = UserPrefs::default();
    assert_eq!(prefs.default_profile, "Balanced");
    assert!(prefs.exclusive_keyboard);
    assert!(!prefs.relative_mouse);
}

#[test]
fn no_args_is_launcher_mode() {
    let cfg = ClientConfig::from_args(&[], &[], home()).unwrap();
    assert_eq!(cfg.launch_mode, LaunchMode::Launcher);
    assert!(cfg.server_addr.is_none());
}

#[test]
fn address_arg_is_direct_connect() {
    let cfg = ClientConfig::from_args(&args("192.168.1.100:7000"), &[true], home()).unwrap();
    assert_eq!(cfg.launch_mode, LaunchMode::DirectConnect);
    assert_eq!(cfg.server_addr, Some("192.168.1.100:7000".to_string()));
}

#[test]
fn noise_key_parsed() {
    let hex_key = "a".repeat(64);
    let input = format!("127.0.0.1:7000 --noise {hex_key}");
    let cfg = ClientConfig::from_args(&args(&input), &[true, false, false], home()).unwrap();
    assert!(cfg.noise_key.is_some());
    assert_eq!(cfg.noise_key, Some([0xaa; 32]));
}

#[test]
fn invalid_address_errors() {
    let result = ClientConfig::from_args(&args("not-an-address"), &[false], home());
    assert!(result.is_err());
    assert_eq!(result.err().unwrap(), "invalid address: 'not-an-address'");
}

#[test]
fn missing_noise_value_errors() {
    let result = ClientConfig::from_args(&args("--noise"), &[false], home());
    assert_eq!(result.err().unwrap(), "--noise requires a value");
}

#[test]
fn short_noise_key_reports_length() {
    let result = ClientConfig::from_args(&args("--noise abcd"), &[false, false], home());
    assert_eq!(result.err().unwrap(), "--noise value must be 64 hex chars, got 4");
}

#[test]
fn non_hex_noise_key_reports_decoder_error() {
    let key = "z".repeat(64);
    let result = ClientConfig::from_args(&args(&format!("--noise {key}")), &[false, false], home());
    let message = result.err().unwrap();
    assert!(message.starts_with("--noise hex decode error: "), "{message}");
}

#[test]
fn missing_config_value_errors() {
    let result = ClientConfig::from_args(&args("--config"), &[false], home());
    assert_eq!(result.err().unwrap(), "--config requires a value");
}

#[test]
fn config_dir_moves_identity_and_cache() {
    let cfg = ClientConfig::from_args(&args("--config /tmp/prism-conf"), &[false, false], home()).unwrap();
    assert_eq!(cfg.servers_dir, "/tmp/prism-conf");
    assert_eq!(cfg.identity_path, "/tmp/prism-conf/client_identity.json");
    assert_eq!(cfg.shader_cache_dir, "/tmp/prism-conf/shader_cache");
}

#[test]
fn default_paths_live_under_home() {
    let cfg = ClientConfig::from_args(&[], &[], home()).unwrap();
    assert_eq!(cfg.servers_dir, "/home/viewer/.prism");
    assert_eq!(cfg.identity_path, "/home/viewer/.prism/client_identity.json");
    assert_eq!(cfg.shader_cache_dir, "/home/viewer/.prism/shader_cache");
}

#[test]
fn unknown_flags_are_skipped_and_later_positionals_ignored() {
    let cfg = ClientConfig::from_args(
        &args("--verbose 10.0.0.1:9000 whatever"),
        &[false, true, false],
        home(),
    )
    .unwrap();
    assert_eq!(cfg.server_addr, Some("10.0.0.1:9000".to_string()));
}

#[test]
fn arg_error_messages() {
    assert_eq!(ArgError::MissingConfigValue.message(), "--config requires a value");
    assert_eq!(ArgError::BadNoiseLength(12).message(), "--noise value must be 64 hex chars, got 12");
}

#[test]
fn command_line_with_the_users_home() {
    let cfg = ClientConfig::from_command_line(&args("10.0.0.2:7000"), &[true]).unwrap();
    assert_eq!(cfg.launch_mode, LaunchMode::DirectConnect);
    assert!(cfg.identity_path.ends_with(".prism/client_identity.json"));
}

#[test]
fn config_naming_the_default_keeps_files_there() {
    // The same directory as the default, written with a trailing slash:
    // the identity and shader cache stay at their default places.
    let cfg = ClientConfig::from_args(&args("--config /home/viewer/.prism/"), &[false, false], home()).unwrap();
    assert_eq!(cfg.servers_dir, "/home/viewer/.prism/");
    assert_eq!(cfg.identity_path, "/home/viewer/.prism/client_identity.json");
    assert_eq!(cfg.shader_cache_dir, "/home/viewer/.prism/shader_cache");
}

#[test]
fn without_home_files_live_under_the_working_directory() {
    let cfg = ClientConfig::from_args(&[], &[], None).unwrap();
    assert_eq!(cfg.servers_dir, "./.prism");
    assert_eq!(cfg.identity_path, "./.prism/client_identity.json");
}
