use mpi2p::args::Args;
use mpi2p::utils::{
    empty_string, generate_rnd, get_jwt_secret_key, get_release_env, needs_tunnel, to_hex,
    ApplicationErrors, LoginType, ReleaseEnvironment,
};

#[test]
fn generate_rnd_test() {
    let rnd = generate_rnd();
    let valid_length = 64;
    assert_eq!(rnd.len(), valid_length);
}

#[test]
fn args_test() {
    let env = get_release_env(&Args::default());
    assert_eq!(env, ReleaseEnvironment::Development)
}

#[test]
fn release_env_prod_is_production() {
    let mut args = Args::default();
    args.release_env = String::from("prod");
    assert_eq!(get_release_env(&args), ReleaseEnvironment::Production);
    args.release_env = String::from("production");
    assert_eq!(get_release_env(&args), ReleaseEnvironment::Development);
    args.release_env = String::new();
    assert_eq!(get_release_env(&args), ReleaseEnvironment::Development);
}

#[test]
fn default_args_hold_the_defaults() {
    let args = Args::default();
    assert_eq!(args.release_env, "dev");
    assert_eq!(args.monero_rpc_host, "http://localhost:38083");
    assert_eq!(args.monero_rpc_password, "password");
    assert_eq!(args.monero_rpc_daemon, "https://stagenet.xmr-tw.org:38081");
    assert_eq!(args.monero_rpc_username, "user");
    assert_eq!(args.monero_rpc_cred, "pass");
    assert_eq!(args.token_timeout, 60);
    assert_eq!(args.jwt_secret_key, "some-secret");
}

#[test]
fn enum_values_are_their_names() {
    assert_eq!(ReleaseEnvironment::Development.value(), "development");
    assert_eq!(ReleaseEnvironment::Production.value(), "production");
    assert_eq!(LoginType::Customer.value(), "customer");
    assert_eq!(LoginType::Vendor.value(), "vendor");
    assert_eq!(ApplicationErrors::LoginError.value(), "LoginError");
    assert_eq!(ApplicationErrors::UnknownError.value(), "UnknownError");
}

#[test]
fn secret_key_is_the_bytes_of_the_text() {
    let args = Args::default();
    assert_eq!(get_jwt_secret_key(&args), b"some-secret".to_vec());
}

#[test]
fn empty_string_is_empty() {
    assert_eq!(empty_string(), "");
}

#[test]
fn tunnel_everywhere_but_in_development() {
    assert!(!needs_tunnel(ReleaseEnvironment::Development));
    assert!(needs_tunnel(ReleaseEnvironment::Production));
}

#[test]
fn to_hex_writes_two_lowercase_digits_per_byte() {
    assert_eq!(to_hex(&[1, 2, 3, 15, 16]), "0102030f10");
    assert_eq!(to_hex(b"Hello world!"), "48656c6c6f20776f726c6421");
    assert_eq!(to_hex(&[0x00, 0xff, 0xa0, 0x0a]), "00ffa00a");
    assert_eq!(to_hex(&[]), "");
}

#[test]
fn generate_rnd_is_hexadecimal_and_varies() {
    let a = generate_rnd();
    let b = generate_rnd();
    assert!(a.chars().all(|c| c.is_ascii_digit() || ('a'..='f').contains(&c)));
    assert!(b.chars().all(|c| c.is_ascii_digit() || ('a'..='f').contains(&c)));
    assert_eq!(b.len(), 64);
    assert_ne!(a, b);
}
