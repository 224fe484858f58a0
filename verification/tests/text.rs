use ratings::utils::config::Config;
use ratings::utils::env::{get_socket, Config as EnvConfig};
use ratings::utils::migrator::{migrations_path, MIGRATIONS_PATH};
use ratings::utils::text::{ends_with, push_decimal, split_whitespace, white_space};

#[test]
fn decimals() {
    for n in [0u64, 7, 10, 99, 100, 65535, 1234567890, u64::MAX] {
        let mut s = String::from("x");
        push_decimal(&mut s, n);
        assert_eq!(s, format!("x{n}"));
    }
}

#[test]
fn whitespace_splitting_matches_std() {
    let samples = [
        "",
        "   ",
        "Bearer token",
        "  Bearer   token  ",
        "Bearer\ttoken\nmore",
        "one",
        "a\u{00a0}b\u{2003}c\u{3000}d\u{200b}e",
        "\u{85}x\u{1680}y\u{2028}z\u{205f}",
    ];
    for s in samples {
        let expected: Vec<String> = s.split_whitespace().map(String::from).collect();
        assert_eq!(split_whitespace(s), expected, "{s:?}");
    }
    for c in ['\u{0}', '\u{9}', '\u{d}', '\u{e}', ' ', 'a', '\u{85}', '\u{a0}', '\u{200a}', '\u{200b}', '\u{3000}', '\u{feff}'] {
        assert_eq!(white_space(c), c.is_whitespace(), "{c:?}");
    }
}

#[test]
fn suffixes() {
    assert!(ends_with("abc", "bc"));
    assert!(ends_with("abc", ""));
    assert!(ends_with("abc", "abc"));
    assert!(!ends_with("abc", "zabc"));
    assert!(!ends_with("abc", "ab"));
    assert!(ends_with("héllo", "llo"));
}

#[test]
fn sockets() {
    let config = Config {
        env: "DEV".to_string(),
        host: "0.0.0.0".to_string(),
        jwt_secret: String::new(),
        log_level: "info".to_string(),
        name: "ratings".to_string(),
        port: 8080,
        postgres_uri: String::new(),
        migration_postgres_uri: String::new(),
    };
    assert_eq!(config.socket(), "0.0.0.0:8080");
    let env = EnvConfig {
        env: "PRD".to_string(),
        host: "localhost".to_string(),
        jwt_secret: String::new(),
        log_level: "info".to_string(),
        name: "ratings".to_string(),
        port: 0,
        postgres_uri: String::new(),
    };
    assert_eq!(get_socket(&env), "localhost:0");
}

#[test]
fn migration_paths() {
    assert_eq!(migrations_path(None), "./sql/migrations");
    assert_eq!(migrations_path(Some("/snap/ratings/current")), "/snap/ratings/current/migrations");
    assert_eq!(MIGRATIONS_PATH, "./sql/migrations");
}
