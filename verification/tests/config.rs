use vault_sync::config::{
    get_backends, Backend, ConfigError, EngineVersion, VaultDestination, VaultHost, VaultSource,
    VaultSyncConfig,
};

fn host() -> VaultHost {
    VaultHost {
        url: "http://127.0.0.1:8200/".to_string(),
        auth: None,
        token_ttl: None,
        token_max_ttl: None,
    }
}

fn config(src_backend: Option<Backend>, dst_backend: Option<Backend>) -> VaultSyncConfig {
    VaultSyncConfig {
        id: "vault-sync-id".to_string(),
        full_sync_interval: 60,
        bind: None,
        src: VaultSource {
            host: host(),
            prefix: String::new(),
            backend: src_backend,
            version: EngineVersion::default(),
            namespace: None,
        },
        dst: VaultDestination {
            host: host(),
            prefix: String::new(),
            backend: dst_backend,
            version: EngineVersion::default(),
            namespace: None,
        },
    }
}

fn one(name: &str) -> Option<Backend> {
    Some(Backend::Backend(name.to_string()))
}

fn many(names: &[&str]) -> Option<Backend> {
    Some(Backend::Backends(names.iter().map(|s| s.to_string()).collect()))
}

fn test_single_backend(
    src: Option<&str>,
    dst: Option<&str>,
    expected_src: &str,
    expected_dst: &str,
) {
    let mut config = config(src.and_then(one), dst.and_then(one));
    config.defaults();
    config.validate().unwrap();
    assert_eq!(get_backends(&config.src.backend).first().unwrap(), expected_src);
    assert_eq!(get_backends(&config.dst.backend).first().unwrap(), expected_dst);
}

fn test_many_backends(
    src: Option<&[&str]>,
    dst: Option<&[&str]>,
    expected_src: &[&str],
    expected_dst: &[&str],
) {
    let mut config = config(src.and_then(many), dst.and_then(many));
    config.defaults();
    config.validate().unwrap();
    assert_eq!(get_backends(&config.src.backend), expected_src);
    assert_eq!(get_backends(&config.dst.backend), expected_dst);
}

#[test]
fn test_backends() {
    test_single_backend(None, None, "secret", "secret");
    test_single_backend(Some("custom"), None, "custom", "custom");
    test_single_backend(None, Some("custom"), "secret", "custom");
    test_single_backend(Some("src"), Some("dst"), "src", "dst");
    test_many_backends(Some(&["foo", "baz"]), None, &["foo", "baz"], &["foo", "baz"]);
    test_many_backends(
        Some(&["foo", "baz"]),
        Some(&["bar", "qux"]),
        &["foo", "baz"],
        &["bar", "qux"],
    );
}

#[test]
fn test_one_to_many_error() {
    let mut config = config(one(""), many(&["foo", "baz"]));
    config.defaults();
    let result = config.validate();
    assert!(result.is_err());
    assert_eq!(
        result.unwrap_err().message(),
        ConfigError::OneToManyNotSupported.message()
    );
}

#[test]
fn test_many_to_one_error() {
    let mut config = config(many(&["foo", "baz"]), one("bar"));
    config.defaults();
    let result = config.validate();
    assert!(result.is_err());
    assert_eq!(
        result.unwrap_err().message(),
        ConfigError::ManyToOneNotSupported.message()
    );
}

#[test]
fn test_different_numbers_of_backend() {
    let mut config = config(many(&["foo"]), many(&["baz", "bar"]));
    config.defaults();
    let result = config.validate();
    assert!(result.is_err());
    assert_eq!(
        result.unwrap_err().message(),
        ConfigError::DifferentNumberOfBackends.message()
    );
}

#[test]
fn test_validate_error_variants() {
    assert_eq!(
        config(one("a"), many(&["b"])).validate().unwrap_err(),
        ConfigError::OneToManyNotSupported
    );
    assert_eq!(
        config(many(&["a"]), one("b")).validate().unwrap_err(),
        ConfigError::ManyToOneNotSupported
    );
    assert_eq!(
        config(many(&["a", "b"]), many(&["c"])).validate().unwrap_err(),
        ConfigError::DifferentNumberOfBackends
    );
    assert!(config(one("a"), one("b")).validate().is_ok());
    assert!(config(many(&["a", "b"]), many(&["c", "d"])).validate().is_ok());
}

#[test]
fn test_error_messages() {
    assert_eq!(
        ConfigError::AuthRequired.message(),
        "Vault token or both app role id and secret id are required"
    );
    assert_eq!(
        ConfigError::DifferentNumberOfBackends.message(),
        "Different number of backends for source and destination"
    );
}

#[test]
fn test_default_engine_version() {
    assert_eq!(EngineVersion::default(), EngineVersion::V2);
}
