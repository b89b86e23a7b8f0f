use tidploy::errors::SecretError;
use tidploy::next::config::ConfigVar;
use tidploy::next::resolve::SecretScope;
use tidploy::next::secrets::get_secret;
use tidploy::next::secrets::key_from_scope;
use tidploy::next::secrets::save_secret;
use tidploy::next::secrets::secret_vars_to_envs;

fn use_mock_store() {
    keyring_core::set_default_store(keyring_core::mock::Store::new().unwrap());
}

fn scope() -> SecretScope {
    SecretScope {
        service: "tidploy_test_service".to_owned(),
        name: "proj".to_owned(),
        sub: "tidploy_root".to_owned(),
        hash: "somehash".to_owned(),
    }
}

#[test]
fn key_from_scope_format() {
    let s = scope();
    assert_eq!(key_from_scope(&s, "key", true), "proj::tidploy_root::somehash:key");
    assert_eq!(
        key_from_scope(&s, "key", false),
        "proj::tidploy_root::tidploy_default_hash:key"
    );
}

#[test]
fn secret_set_then_get() {
    use_mock_store();
    let s = scope();
    let store_key = save_secret(&s, "key", "abc").unwrap();
    assert_eq!(store_key, "proj::tidploy_root::somehash:key");
    let pass = get_secret(&s, "key").unwrap();
    assert_eq!(pass, "abc");
}

#[test]
fn missing_secret_is_no_password() {
    use_mock_store();
    let s = scope();
    match get_secret(&s, "nothere") {
        Err(SecretError::NoPassword(k)) => {
            assert_eq!(k, "proj::tidploy_root::somehash:nothere")
        },
        other => panic!("the exact missing key should be reported, got {:?}", other),
    }
}

#[test]
fn missing_store_is_keyring_error() {
    // no credential store is registered at all
    let _ = keyring_core::unset_default_store();
    match get_secret(&scope(), "key") {
        Err(SecretError::Keyring(_)) => {},
        other => panic!("a keyring failure was expected, got {:?}", other),
    }
}

#[test]
fn secret_vars_resolve_to_env_pairs() {
    use_mock_store();
    let s = scope();
    save_secret(&s, "k1", "v1").unwrap();
    save_secret(&s, "k2", "v2").unwrap();
    let vars = vec![
        ConfigVar { key: "k1".to_owned(), env_name: "FIRST".to_owned() },
        ConfigVar { key: "k2".to_owned(), env_name: "SECOND".to_owned() },
    ];
    let envs = secret_vars_to_envs(&s, vars).unwrap();
    assert_eq!(envs.len(), 2);
    assert_eq!(envs[0].key, "FIRST");
    assert_eq!(envs[0].value, "v1");
    assert_eq!(envs[1].key, "SECOND");
    assert_eq!(envs[1].value, "v2");
}

#[test]
fn secret_vars_fail_on_missing_secret() {
    use_mock_store();
    let s = scope();
    let vars = vec![ConfigVar { key: "absent".to_owned(), env_name: "X".to_owned() }];
    assert!(secret_vars_to_envs(&s, vars).is_err());
}
