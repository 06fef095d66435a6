//! Resolve a user account (a username, or the running process's own identity)
//! to that user's home directory path.
//!
//! The crate exposes two entry points, [`home`] and [`my_home`], together with
//! an opaque [`UserIdentifier`] for the two-step lookup (name to identifier,
//! identifier to path).  The Unix resolver in [`unix`] consults the system
//! account database through `nix`; the Windows resolution core in [`windows`]
//! is modelled as explicit step machines whose decisions are verified, with
//! the operating-system calls supplied as events by a platform driver.

use vstd::prelude::*;

pub mod unix;
pub mod windows;

verus! {

/// The error type returned by the functions of this crate.
///
/// It wraps the platform resolver's error so that callers see one uniform
/// type; absence of a matching account is not an error and is reported as
/// `None` inside a successful result.
#[derive(Clone, Copy, Debug, PartialEq, Eq, Structural)]
pub struct GetHomeError(pub unix::GetHomeError);

/// An identifier uniquely naming a user: an opaque wrapper around the
/// platform resolver's identifier.
#[derive(Clone, Copy, Debug, PartialEq, Eq, Structural)]
pub struct UserIdentifier(pub unix::UserIdentifier);

/// Get the home directory of an arbitrary user by username.
///
/// A username holding an embedded null is refused with an encoding error
/// before any account-database call is made.  Otherwise the platform
/// resolver is consulted: a missing account is `Ok(None)`, a failing call
/// surfaces its status.
pub fn home(username: &str) -> (r: Result<Option<String>, GetHomeError>)
    ensures
        has_nul(username@) ==> r == Err::<Option<String>, GetHomeError>(
            GetHomeError(unix::GetHomeError::EncodingError),
        ),
{
    match unix::home(username) {
        Ok(path) => Ok(path),
        Err(e) => Err(GetHomeError(e)),
    }
}

/// Get the home directory of the process's current user.
///
/// The `HOME` environment override is honoured first; only when it is absent
/// is the account database consulted, as [`unix::my_home`] states.
pub fn my_home() -> (r: Result<Option<String>, GetHomeError>) {
    match unix::my_home() {
        Ok(path) => Ok(path),
        Err(e) => Err(GetHomeError(e)),
    }
}

impl UserIdentifier {
    /// Get the identifier of an arbitrary user by username.
    ///
    /// A username holding an embedded null is refused with an encoding error
    /// before any account-database call is made.
    pub fn with_username(username: &str) -> (r: Result<Option<UserIdentifier>, GetHomeError>)
        ensures
            has_nul(username@) ==> r == Err::<Option<UserIdentifier>, GetHomeError>(
                GetHomeError(unix::GetHomeError::EncodingError),
            ),
    {
        match unix::UserIdentifier::with_username(username) {
            Ok(Some(id)) => Ok(Some(UserIdentifier(id))),
            Ok(None) => Ok(None),
            Err(e) => Err(GetHomeError(e)),
        }
    }

    /// Get a user's home directory path from their identifier.
    pub fn to_home(&self) -> (r: Result<Option<String>, GetHomeError>) {
        match self.0.to_home() {
            Ok(path) => Ok(path),
            Err(e) => Err(GetHomeError(e)),
        }
    }

    /// Get the identifier of the process's current user.
    pub fn my_id() -> (r: Result<UserIdentifier, GetHomeError>)
        ensures
            r is Ok,
    {
        match unix::UserIdentifier::my_id() {
            Ok(id) => Ok(UserIdentifier(id)),
            Err(e) => Err(GetHomeError(e)),
        }
    }
}

impl From<unix::GetHomeError> for GetHomeError {
    fn from(value: unix::GetHomeError) -> (r: GetHomeError) {
        GetHomeError(value)
    }
}

impl vstd::std_specs::convert::FromSpecImpl<unix::GetHomeError> for GetHomeError {
    open spec fn obeys_from_spec() -> bool {
        true
    }

    open spec fn from_spec(v: unix::GetHomeError) -> GetHomeError {
        GetHomeError(v)
    }
}

impl From<GetHomeError> for unix::GetHomeError {
    fn from(value: GetHomeError) -> (r: unix::GetHomeError) {
        value.0
    }
}

impl vstd::std_specs::convert::FromSpecImpl<GetHomeError> for unix::GetHomeError {
    open spec fn obeys_from_spec() -> bool {
        true
    }

    open spec fn from_spec(v: GetHomeError) -> unix::GetHomeError {
        v.0
    }
}

impl From<unix::UserIdentifier> for UserIdentifier {
    fn from(value: unix::UserIdentifier) -> (r: UserIdentifier) {
        UserIdentifier(value)
    }
}

impl vstd::std_specs::convert::FromSpecImpl<unix::UserIdentifier> for UserIdentifier {
    open spec fn obeys_from_spec() -> bool {
        true
    }

    open spec fn from_spec(v: unix::UserIdentifier) -> UserIdentifier {
        UserIdentifier(v)
    }
}

impl From<UserIdentifier> for unix::UserIdentifier {
    fn from(value: UserIdentifier) -> (r: unix::UserIdentifier) {
        value.0
    }
}

impl vstd::std_specs::convert::FromSpecImpl<UserIdentifier> for unix::UserIdentifier {
    open spec fn obeys_from_spec() -> bool {
        true
    }

    open spec fn from_spec(v: UserIdentifier) -> unix::UserIdentifier {
        v.0
    }
}

/// True when the character sequence contains an embedded null character.
///
/// Usernames holding a null cannot be represented as the C or wide strings
/// the account-database calls require, so resolution refuses them up front.
pub open spec fn has_nul(s: Seq<char>) -> bool {
    exists|i: int| 0 <= i < s.len() && s[i] == '\0'
}

/// Scan a string for an embedded null character.
pub fn contains_nul(s: &str) -> (r: bool)
    ensures
        r == has_nul(s@),
{
    let len: usize = s.unicode_len();
    let mut i: usize = 0;
    while i < len
        invariant
            len == s@.len(),
            0 <= i <= len,
            forall|j: int| 0 <= j < i ==> s@[j] != '\0',
        decreases len - i,
    {
        if s.get_char(i) == '\0' {
            return true;
        }
        i = i + 1;
    }
    false
}

} // verus!
