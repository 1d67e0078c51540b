//! The credential vault: users of the gateway and what they present upstream.

use crate::config::{RegistryCredential, UserSettings};
use crate::text::same_text;
use vstd::hash_map::StringHashMap;
use vstd::prelude::*;

verus! {

/// Whether `users` holds `username` with exactly this password.
pub open spec fn user_verified(
    users: Map<Seq<char>, UserSettings>,
    username: Seq<char>,
    password: Seq<char>,
) -> bool {
    users.contains_key(username) && users[username].password@ == password
}

/// Checks a client's credentials against the configured users. Passwords are
/// compared as they are.
pub fn verify_user(username: &str, password: &str, users: &StringHashMap<UserSettings>) -> (r: bool)
    ensures
        r == user_verified(users@, username@, password@),
{
    match users.get(username) {
        Some(user) => same_text(user.password.as_str(), password),
        None => false,
    }
}

/// What `users[username].registry_credentials[registry]` holds, if both levels exist.
pub open spec fn registry_credentials_of(
    users: Map<Seq<char>, UserSettings>,
    username: Seq<char>,
    registry: Seq<char>,
) -> Option<RegistryCredential> {
    if users.contains_key(username) && users[username].registry_credentials@.contains_key(
        registry,
    ) {
        Some(users[username].registry_credentials@[registry])
    } else {
        None
    }
}

/// Looks up what `username` presents to the registry `registry`.
pub fn get_registry_credentials<'a>(
    username: &str,
    registry: &str,
    users: &'a StringHashMap<UserSettings>,
) -> (r: Option<&'a RegistryCredential>)
    ensures
        match r {
            Some(credential) => registry_credentials_of(users@, username@, registry@) == Some(
                *credential,
            ),
            None => registry_credentials_of(users@, username@, registry@) is None,
        },
{
    match users.get(username) {
        Some(user) => user.registry_credentials.get(registry),
        None => None,
    }
}

} // verus!
