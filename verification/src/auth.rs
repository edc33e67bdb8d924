//! Authentication: user types and password checking.
//!
//! Session storage, cookies and HTTP plumbing live in the outer web layer;
//! this module owns the decisions — which user type, if any, a presented
//! password grants.

use vstd::prelude::*;

verus! {

/// Login form content.
pub struct LoginForm {
    password: String,
}

impl LoginForm {
    /// The carried password.
    pub closed spec fn spec_password(&self) -> Seq<char> {
        self.password@
    }

    /// A form carrying the presented password.
    pub fn new(password: String) -> (r: Self)
        ensures
            r.spec_password() == password@,
    {
        LoginForm { password }
    }

    /// The presented password.
    pub fn password(&self) -> (r: &String)
        ensures
            r@ == self.spec_password(),
    {
        &self.password
    }
}

/// Defines access type for a signed-in user.
#[derive(Clone, Copy, Debug, PartialEq, Eq, Structural)]
pub enum UserType {
    /// User has regular level of access.
    Regular,
    /// User has administrative level of access.
    Administrator,
}

/// Matches only the specified path.
pub struct PathPredicate(String);

impl PathPredicate {
    /// The path this predicate matches.
    pub closed spec fn spec_path(&self) -> Seq<char> {
        self.0@
    }

    /// Creates a new predicate matching exactly `s`.
    pub fn new(s: &str) -> (r: PathPredicate)
        ensures
            r.spec_path() == s@,
    {
        PathPredicate(s.to_owned())
    }

    /// Whether a request path matches.
    pub fn check(&self, path: &str) -> (r: bool)
        ensures
            r == (path@ == self.spec_path()),
    {
        path.to_owned() == self.0
    }
}

/// The user type `authenticate` grants for password `pw` against the two
/// configured passwords: the user password is checked first, so a password
/// that happens to be both grants regular access.
pub open spec fn granted_user_type(pw: Seq<char>, user_pw: Seq<char>, admin_pw: Seq<char>) -> Option<
    UserType,
> {
    if pw == user_pw {
        Some(UserType::Regular)
    } else if pw == admin_pw {
        Some(UserType::Administrator)
    } else {
        None
    }
}

/// Manages user authentication.
pub struct Authenticator {
    user_pw: String,
    admin_pw: String,
}

impl Authenticator {
    /// The configured password for regular access.
    pub closed spec fn spec_user_pw(&self) -> Seq<char> {
        self.user_pw@
    }

    /// The configured password for administrative access.
    pub closed spec fn spec_admin_pw(&self) -> Seq<char> {
        self.admin_pw@
    }

    /// An authenticator checking against the two given passwords.
    pub fn new(user_pw: String, admin_pw: String) -> (r: Self)
        ensures
            r.spec_user_pw() == user_pw@,
            r.spec_admin_pw() == admin_pw@,
    {
        Authenticator { user_pw, admin_pw }
    }

    /// Returns the user type for the given password, or `None` if the
    /// password is invalid.
    pub fn authenticate(&self, pw: &str) -> (r: Option<UserType>)
        ensures
            r == granted_user_type(pw@, self.spec_user_pw(), self.spec_admin_pw()),
    {
        let pw = pw.to_owned();
        if pw == self.user_pw {
            Some(UserType::Regular)
        } else if pw == self.admin_pw {
            Some(UserType::Administrator)
        } else {
            None
        }
    }
}

/// Message: authenticate with the carried password.
pub struct Authenticate(String);

impl Authenticate {
    /// The carried password.
    pub closed spec fn spec_password(&self) -> Seq<char> {
        self.0@
    }

    /// A request to authenticate with `password`.
    pub fn new(password: String) -> (r: Self)
        ensures
            r.spec_password() == password@,
    {
        Authenticate(password)
    }

    /// The carried password.
    pub fn password(&self) -> (r: &String)
        ensures
            r@ == self.spec_password(),
    {
        &self.0
    }
}

/// Message: retrieve the session secret.
pub struct GetSecret;

} // verus!
