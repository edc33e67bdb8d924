//! Security and access control: secrets and access levels.
//!
//! Sessions and cookies belong to the outer web layer; this module owns the
//! secret material and the decision which access level a password grants.

use rand::Rng;
use vstd::prelude::*;

verus! {

/// Secret values used for authentication and session encryption.
pub struct Secrets {
    pub admin_pw: String,
    pub session_key: [u8; 32],
    pub user_pw: String,
}

/// Relies on `rand::thread_rng` and `rand::Rng::gen`: a fresh random
/// 32-byte key. Nothing is promised of a random value.
#[verifier::external_body]
fn random_session_key() -> [u8; 32] {
    rand::thread_rng().gen()
}

impl Secrets {
    /// Resets the current session key to a new, random value.
    ///
    /// The caller is responsible for restarting the HTTP server; otherwise
    /// the old key stays in use.
    pub fn reset_session_key(&mut self)
        ensures
            final(self).admin_pw@ == old(self).admin_pw@,
            final(self).user_pw@ == old(self).user_pw@,
    {
        self.session_key = random_session_key();
    }
}

impl Default for Secrets {
    /// Fresh secrets: empty passwords and a random session key, so the
    /// session key never has a predictable value.
    fn default() -> (r: Self)
        ensures
            r.admin_pw@.len() == 0,
            r.user_pw@.len() == 0,
    {
        Secrets {
            admin_pw: String::new(),
            session_key: random_session_key(),
            user_pw: String::new(),
        }
    }
}

/// Defines a user's access level.
///
/// Access levels are sequential: a higher level of access implies all
/// lower levels.
#[derive(Clone, Copy, Debug, PartialEq, Eq, Structural)]
pub enum AccessLevel {
    User,
    Administrator,
}

/// The rank of an access level; a level satisfies every requirement of
/// equal or lower rank.
pub open spec fn level_rank(l: AccessLevel) -> int {
    match l {
        AccessLevel::User => 0,
        AccessLevel::Administrator => 1,
    }
}

impl AccessLevel {
    /// Whether this level grants access where at least `min` is required.
    pub fn satisfies(&self, min: &AccessLevel) -> (r: bool)
        ensures
            r == (level_rank(*self) >= level_rank(*min)),
    {
        match (self, min) {
            (AccessLevel::User, AccessLevel::Administrator) => false,
            _ => true,
        }
    }
}

/// The access level a password grants against the configured secrets: the
/// user password is checked first, so a password that happens to be both
/// grants user access.
pub open spec fn granted_level(pw: Seq<char>, user_pw: Seq<char>, admin_pw: Seq<char>) -> Option<
    AccessLevel,
> {
    if pw == user_pw {
        Some(AccessLevel::User)
    } else if pw == admin_pw {
        Some(AccessLevel::Administrator)
    } else {
        None
    }
}

/// Checks `password` against the expected user and administrative
/// passwords; the outer web layer stamps the session with the returned
/// level.
pub fn authenticate(secrets: &Secrets, password: &str) -> (r: Option<AccessLevel>)
    ensures
        r == granted_level(password@, secrets.user_pw@, secrets.admin_pw@),
{
    let pw = password.to_owned();
    if pw == secrets.user_pw {
        Some(AccessLevel::User)
    } else if pw == secrets.admin_pw {
        Some(AccessLevel::Administrator)
    } else {
        None
    }
}

} // verus!
