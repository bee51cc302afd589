use na::config::{HttpConfig, ServerConfig};

const DEFAULT_TOML: &str = r#"
[database]
url = "postgres://na:na@localhost/na"

[http]
listen_host = "127.0.0.1"
listen_port = 8080

[jwt]
secret = "s3cr3t"
"#;

fn vars(pairs: &[(&str, &str)]) -> Vec<(String, String)> {
    pairs.iter().map(|(k, v)| (k.to_string(), v.to_string())).collect()
}

#[test]
fn bind_str_joins_host_and_port() {
    let http = HttpConfig { listen_host: "127.0.0.1".to_string(), listen_port: 8080 };
    assert_eq!(http.as_bind_str(), "127.0.0.1:8080");
}

#[test]
fn bind_str_port_edges() {
    let zero = HttpConfig { listen_host: "localhost".to_string(), listen_port: 0 };
    assert_eq!(zero.as_bind_str(), "localhost:0");
    let max = HttpConfig { listen_host: "::".to_string(), listen_port: 65535 };
    assert_eq!(max.as_bind_str(), ":::65535");
    let ten = HttpConfig { listen_host: String::new(), listen_port: 10 };
    assert_eq!(ten.as_bind_str(), ":10");
}

#[test]
fn config_loads_from_file_text() {
    let cfg = ServerConfig::new(DEFAULT_TOML, &vars(&[])).ok().unwrap();
    assert_eq!(cfg.database.url, "postgres://na:na@localhost/na");
    assert_eq!(cfg.http.listen_host, "127.0.0.1");
    assert_eq!(cfg.http.listen_port, 8080);
    assert_eq!(cfg.jwt.secret, "s3cr3t");
}

#[test]
fn config_env_overrides_file() {
    let env = vars(&[
        ("NA__HTTP__LISTEN_PORT", "9090"),
        ("NA__JWT__SECRET", "from-env"),
        ("HOME", "/root"),
        ("NAME", "ignored"),
    ]);
    let cfg = ServerConfig::new(DEFAULT_TOML, &env).ok().unwrap();
    assert_eq!(cfg.http.listen_port, 9090);
    assert_eq!(cfg.jwt.secret, "from-env");
    assert_eq!(cfg.http.listen_host, "127.0.0.1");
    assert_eq!(cfg.http.as_bind_str(), "127.0.0.1:9090");
}

#[test]
fn config_env_alone_suffices() {
    let env = vars(&[
        ("NA__DATABASE__URL", "postgres://db"),
        ("NA__HTTP__LISTEN_HOST", "0.0.0.0"),
        ("NA__HTTP__LISTEN_PORT", "80"),
        ("NA__JWT__SECRET", "x"),
    ]);
    let cfg = ServerConfig::new("", &env).ok().unwrap();
    assert_eq!(cfg.database.url, "postgres://db");
    assert_eq!(cfg.http.as_bind_str(), "0.0.0.0:80");
}

#[test]
fn config_missing_setting_is_an_error() {
    let toml = "[database]\nurl = \"u\"\n[http]\nlisten_host = \"h\"\nlisten_port = 1\n";
    let r = ServerConfig::new(toml, &vars(&[]));
    assert!(r.is_err());
}

#[test]
fn config_port_out_of_range_is_an_error() {
    let r = ServerConfig::new(DEFAULT_TOML, &vars(&[("NA__HTTP__LISTEN_PORT", "70000")]));
    assert!(r.is_err());
    let r = ServerConfig::new(DEFAULT_TOML, &vars(&[("NA__HTTP__LISTEN_PORT", "-1")]));
    assert!(r.is_err());
}

#[test]
fn config_bad_toml_is_an_error() {
    let r = ServerConfig::new("[database\nurl = ", &vars(&[]));
    match r {
        Ok(_) => panic!("malformed configuration accepted"),
        Err(e) => assert!(!e.message.is_empty()),
    }
}

#[test]
fn config_env_name_in_any_case_and_number_words() {
    let env = vars(&[("na__Http__Listen_Port", "+81"), ("NA__JWT__SECRET", "e")]);
    let cfg = ServerConfig::new(DEFAULT_TOML, &env).ok().unwrap();
    assert_eq!(cfg.http.listen_port, 81);
    let cfg = ServerConfig::new(DEFAULT_TOML, &vars(&[("NA__HTTP__LISTEN_PORT", "Yes")])).ok().unwrap();
    assert_eq!(cfg.http.listen_port, 1);
    let r = ServerConfig::new(DEFAULT_TOML, &vars(&[("NA__HTTP__LISTEN_PORT", "abc")]));
    assert!(r.is_err());
}

#[test]
fn config_unrelated_colliding_variables_are_harmless() {
    let env = vars(&[("NA__FOO", "a"), ("na__foo", "b"), ("NA__X.Y", "c"), ("NA__ÉTÉ", "d")]);
    let cfg = ServerConfig::new(DEFAULT_TOML, &env).ok().unwrap();
    assert_eq!(cfg.http.as_bind_str(), "127.0.0.1:8080");
    assert_eq!(cfg.jwt.secret, "s3cr3t");
}

#[test]
fn config_case_twin_keys_in_file_resolve_the_same_way() {
    let toml = "[database]\nurl = \"first\"\nURL = \"second\"\n[http]\nlisten_host = \"h\"\nlisten_port = 1\n[jwt]\nsecret = \"s\"\n";
    let first = ServerConfig::new(toml, &vars(&[])).ok().unwrap().database.url;
    for _ in 0..20 {
        let again = ServerConfig::new(toml, &vars(&[])).ok().unwrap().database.url;
        assert_eq!(again, first);
    }
}

#[test]
fn config_unprefixed_variables_have_no_effect() {
    let plain = ServerConfig::new(DEFAULT_TOML, &vars(&[])).ok().unwrap();
    let env = vars(&[("HTTP__LISTEN_PORT", "1"), ("N_A__JWT__SECRET", "x"), ("ÉTÉ", "y"), ("na_", "z")]);
    let noisy = ServerConfig::new(DEFAULT_TOML, &env).ok().unwrap();
    assert_eq!(noisy.http.listen_port, plain.http.listen_port);
    assert_eq!(noisy.jwt.secret, plain.jwt.secret);
    assert_eq!(noisy.database.url, plain.database.url);
}
