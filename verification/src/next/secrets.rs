//! Secrets: scope-derived store keys and the credential-store calls
//! around them.
//!
//! The credential store is a collaborator: the library only gets and
//! sets values under keys it derives from the resolved scope.  A missing
//! entry is an expected condition, not an error.

use vstd::prelude::*;
use vstd::string::StrSliceExecFns;
use vstd::string::StringExecFns;

use crate::errors::SecretError;
use crate::errors::StateError;
use crate::errors::StateErrorKind;
use crate::next::config::vars_views;
use crate::next::config::ConfigVar;
use crate::next::resolve::EnvPair;
use crate::next::resolve::SecretScope;
use crate::next::resolve::SecretScopeV;

verus! {

/// Relies on `keyring_core::Entry::new` and `Entry::get_password`: reads
/// the secret stored under `(service, key)` in whatever credential store
/// the process registered.  A missing entry is reported as absence, any
/// other failure as its report; what comes back depends on the store's
/// state, so nothing more is promised.
#[verifier::external_body]
fn keyring_get(key: &str, service: &str) -> (r: Result<Option<String>, String>) {
    match keyring_core::Entry::new(service, key) {
        Ok(entry) => match entry.get_password() {
            Ok(pw) => Ok(Some(pw)),
            Err(keyring_core::Error::NoEntry) => Ok(None),
            Err(err) => Err(err.to_string()),
        },
        Err(err) => Err(err.to_string()),
    }
}

/// Relies on `keyring_core::Entry::new` and `Entry::set_password`:
/// stores the secret under `(service, key)` in the registered credential
/// store.  Whether storing succeeds depends on the store, so nothing is
/// promised of the outcome.
#[verifier::external_body]
fn keyring_set(secret: &str, key: &str, service: &str) -> (r: Result<(), String>) {
    match keyring_core::Entry::new(service, key) {
        Ok(entry) => match entry.set_password(secret) {
            Ok(()) => Ok(()),
            Err(err) => Err(err.to_string()),
        },
        Err(err) => Err(err.to_string()),
    }
}

/// The store key a scope and key map to:
/// `<name>::<sub>::<hash>:<key>`, with the default-hash sentinel in
/// place of the hash when no hash match is required.
pub open spec fn spec_key_from_scope(
    scope: SecretScopeV,
    key: Seq<char>,
    require_hash_match: bool,
) -> Seq<char> {
    scope.name + "::"@ + scope.sub + "::"@ + (if require_hash_match {
        scope.hash
    } else {
        "tidploy_default_hash"@
    }) + ":"@ + key
}

/// Renders the store key for a scope and key.
pub fn key_from_scope(scope: &SecretScope, key: &str, require_hash_match: bool) -> (r: String)
    ensures
        r@ == spec_key_from_scope(scope@, key@, require_hash_match),
{
    let mut r = scope.name.clone();
    r.append("::");
    r.append(scope.sub.as_str());
    r.append("::");
    if require_hash_match {
        r.append(scope.hash.as_str());
    } else {
        r.append("tidploy_default_hash");
    }
    r.append(":");
    r.append(key);
    r
}

/// Gets the secret stored for this scope and key.  An entry the store
/// does not hold is the no-password failure with the exact store key;
/// what a present entry holds comes from the store and is not pinned.
pub fn get_secret(scope: &SecretScope, key: &str) -> (r: Result<String, SecretError>)
    ensures
        r matches Err(SecretError::NoPassword(k)) ==> k@ == spec_key_from_scope(
            scope@,
            key@,
            true,
        ),
        r is Err ==> (r matches Err(SecretError::NoPassword(_)) || r matches Err(
            SecretError::Keyring(_),
        )),
{
    let store_key = key_from_scope(scope, key, true);
    match keyring_get(store_key.as_str(), scope.service.as_str()) {
        Ok(Some(password)) => Ok(password),
        Ok(None) => Err(SecretError::NoPassword(store_key)),
        Err(msg) => Err(SecretError::Keyring(msg)),
    }
}

/// Saves a secret under this scope and key, both under the scope's hash
/// and under the default-hash sentinel, and returns the hash-pinned
/// store key.
pub fn save_secret(scope: &SecretScope, key: &str, password: &str) -> (r: Result<
    String,
    SecretError,
>)
    ensures
        r matches Ok(k) ==> k@ == spec_key_from_scope(scope@, key@, true),
        r is Err ==> r matches Err(SecretError::Keyring(_)),
{
    let store_key = key_from_scope(scope, key, true);
    match keyring_set(password, store_key.as_str(), scope.service.as_str()) {
        Ok(()) => {},
        Err(msg) => {
            return Err(SecretError::Keyring(msg));
        },
    }
    let store_key_default_hash = key_from_scope(scope, key, false);
    match keyring_set(password, store_key_default_hash.as_str(), scope.service.as_str()) {
        Ok(()) => {},
        Err(msg) => {
            return Err(SecretError::Keyring(msg));
        },
    }
    Ok(store_key)
}

/// Resolves each configured variable's secret and pairs it with the
/// environment name it should fill; the first failing lookup stops the
/// walk.  With no variables no lookup runs, so the empty environment is
/// owed.
pub fn secret_vars_to_envs(scope: &SecretScope, vars: Vec<ConfigVar>) -> (r: Result<
    Vec<EnvPair>,
    StateError,
>)
    ensures
        vars@.len() == 0 ==> (r matches Ok(envs) && envs@.len() == 0),
        r matches Ok(envs) ==> envs@.len() == vars@.len() && (forall|i: int|
            0 <= i < envs@.len() ==> (#[trigger] envs@[i])@.key == vars_views(vars@)[i].env_name),
        r matches Err(e) ==> e.kind matches StateErrorKind::Secret(_),
{
    let mut envs: Vec<EnvPair> = Vec::new();
    let mut i: usize = 0;
    while i < vars.len()
        invariant
            i <= vars@.len(),
            envs@.len() == i,
            forall|j: int|
                0 <= j < i ==> (#[trigger] envs@[j])@.key == vars_views(vars@)[j].env_name,
        decreases vars@.len() - i,
    {
        let pass = match get_secret(scope, vars[i].key.as_str()) {
            Ok(p) => p,
            Err(e) => {
                return Err(
                    StateError {
                        msg: String::from_str(
                            "Getting secret for config var to create env map.",
                        ),
                        kind: StateErrorKind::Secret(e),
                    },
                );
            },
        };
        envs.push(EnvPair { key: vars[i].env_name.clone(), value: pass });
        i = i + 1;
    }
    Ok(envs)
}

} // verus!
