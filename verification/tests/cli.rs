use prism_client::cli::{launch_args, noise_key_from_hex};
use prism_client::text::decimal_string;

fn argv(s: &str) -> Vec<String> {
    s.split_whitespace().map(String::from).collect()
}

#[test]
fn default_address_when_none_given() {
    let a = launch_args(&argv("prism-client"));
    assert_eq!(a.server_addr, "127.0.0.1:7000");
    assert!(a.noise_hex.is_none());
    let a = launch_args(&[]);
    assert_eq!(a.server_addr, "127.0.0.1:7000");
}

#[test]
fn first_argument_is_the_address_and_noise_follows_flag() {
    let a = launch_args(&argv("prism-client 10.0.0.1:7000 --noise abcd"));
    assert_eq!(a.server_addr, "10.0.0.1:7000");
    assert_eq!(a.noise_hex.as_deref(), Some("abcd"));
    let a = launch_args(&argv("prism-client 10.0.0.1:7000 --noise"));
    assert!(a.noise_hex.is_none());
}

#[test]
fn noise_key_decoding() {
    let key = "0f".repeat(32);
    assert_eq!(noise_key_from_hex(&key), Some([0x0f; 32]));
    assert_eq!(noise_key_from_hex(&"AB".repeat(32)), Some([0xab; 32]));
    assert!(noise_key_from_hex("0f0f").is_none());
    assert!(noise_key_from_hex(&"zz".repeat(32)).is_none());
    assert!(noise_key_from_hex(&"0f".repeat(33)).is_none());
}

#[test]
fn decimal_rendering() {
    assert_eq!(decimal_string(0), "0");
    assert_eq!(decimal_string(7), "7");
    assert_eq!(decimal_string(1234567890), "1234567890");
    assert_eq!(decimal_string(u64::MAX), "18446744073709551615");
}

#[test]
fn identity_lives_under_home_prism() {
    assert_eq!(
        prism_client::cli::identity_path_under(Some("/home/viewer".to_string())),
        "/home/viewer/.prism/client_identity.json"
    );
    assert_eq!(prism_client::cli::identity_path_under(Some("/".to_string())), "/.prism/client_identity.json");
    assert_eq!(prism_client::cli::identity_path_under(None), ".prism/client_identity.json");
    assert!(prism_client::cli::default_identity_path().ends_with(".prism/client_identity.json"));
}
