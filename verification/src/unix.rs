//! Unix resolver: account-database lookups keyed by name or by numeric id.
//!
//! The account database is an opaque service: which record (if any) a lookup
//! returns depends on the system, so nothing is assumed about the outcome of
//! a lookup call.  What is verified is every decision made around those
//! calls: usernames holding an embedded null are refused before any call is
//! made, an absent record is answered as "not found" and never as an error,
//! and a set `HOME` override wins over the database for the self-lookup.

use vstd::prelude::*;

use crate::contains_nul;
use crate::has_nul;

verus! {

/// The error type returned by this module when resolution fails.
///
/// Absence of a matching record is not an error: it is reported as `None`
/// inside a successful result.
#[derive(Clone, Copy, Debug, PartialEq, Eq, Structural)]
pub enum GetHomeError {
    /// A non-success status from an account-database call, carrying the raw
    /// errno value for diagnostics.
    OsError(i32),
    /// Text that cannot cross the boundary to the account-database calls: a
    /// username holding an embedded null, or a stored home path that is not
    /// Unicode text.
    EncodingError,
}

/// What the resolver reads from one account-database record.
#[derive(Debug)]
pub struct PasswdRecord {
    /// The record's numeric user id.
    pub uid: u32,
    /// The record's home directory path, or `None` when the stored path is
    /// not representable as Unicode text.
    pub dir: Option<String>,
}

/// An identifier for a user: an opaque wrapper around the numeric user id.
#[derive(Clone, Copy, Debug, PartialEq, Eq, Structural)]
pub struct UserIdentifier(u32);

impl View for UserIdentifier {
    type V = u32;

    closed spec fn view(&self) -> u32 {
        self.0
    }
}

/// Relies on `nix::unistd::User::from_name` (`getpwnam_r`): looks the account
/// database up by name.  Which record, if any, comes back depends on the
/// system's database, so nothing is promised of the outcome.
#[verifier::external_body]
fn lookup_by_name(name: &str) -> (r: Result<Option<PasswdRecord>, i32>)
    requires
        !has_nul(name@),
{
    match nix::unistd::User::from_name(name) {
        Ok(Some(user)) => Ok(Some(PasswdRecord {
            uid: user.uid.as_raw(),
            dir: user.dir.into_os_string().into_string().ok(),
        })),
        Ok(None) => Ok(None),
        Err(e) => Err(e as i32),
    }
}

/// Relies on `nix::unistd::User::from_uid` (`getpwuid_r`): looks the account
/// database up by numeric user id.  Which record, if any, comes back depends
/// on the system's database, so nothing is promised of the outcome.
#[verifier::external_body]
fn lookup_by_uid(uid: u32) -> (r: Result<Option<PasswdRecord>, i32>)
{
    match nix::unistd::User::from_uid(nix::unistd::Uid::from_raw(uid)) {
        Ok(Some(user)) => Ok(Some(PasswdRecord {
            uid: user.uid.as_raw(),
            dir: user.dir.into_os_string().into_string().ok(),
        })),
        Ok(None) => Ok(None),
        Err(e) => Err(e as i32),
    }
}

/// Relies on `nix::unistd::Uid::current` (`getuid`): the real user id of the
/// calling process; the call is always successful.
#[verifier::external_body]
fn current_uid() -> (r: u32) {
    nix::unistd::Uid::current().as_raw()
}

/// Relies on `envmnt::exists`: whether the named environment variable is set
/// to Unicode text.  The environment is shared process state, so nothing is
/// promised of the outcome.
#[verifier::external_body]
fn env_is_set(name: &str) -> (r: bool) {
    envmnt::exists(name)
}

/// Relies on `envmnt::get_or`: the value of the named environment variable,
/// or the given default when it is unset or not Unicode.  The environment is
/// shared process state, so nothing is promised of the outcome.
#[verifier::external_body]
fn env_value_or(name: &str, default: &str) -> (r: String) {
    envmnt::get_or(name, default)
}

/// Map one account-database lookup outcome to the answer of a home-directory
/// query.
///
/// An absent record is a valid "not found" answer, never an error; a failing
/// call surfaces its raw status; a stored path that is not Unicode text
/// cannot be returned and is reported as an encoding failure.
pub fn resolve_home_lookup(outcome: Result<Option<PasswdRecord>, i32>) -> (r: Result<
    Option<String>,
    GetHomeError,
>)
    ensures
        outcome matches Err(code) ==> r == Err::<Option<String>, GetHomeError>(
            GetHomeError::OsError(code),
        ),
        outcome matches Ok(None::<PasswdRecord>) ==> r == Ok::<Option<String>, GetHomeError>(None),
        outcome matches Ok(Some(rec)) ==> match rec.dir {
            Some(dir) => r matches Ok(Some(path)) && path@ == dir@,
            None => r == Err::<Option<String>, GetHomeError>(GetHomeError::EncodingError),
        },
{
    match outcome {
        Err(code) => Err(GetHomeError::OsError(code)),
        Ok(None) => Ok(None),
        Ok(Some(rec)) => match rec.dir {
            Some(dir) => Ok(Some(dir)),
            None => Err(GetHomeError::EncodingError),
        },
    }
}

/// Map one account-database lookup outcome to the answer of an identifier
/// query: the identifier is the record's numeric user id, and an absent
/// record is a valid "not found" answer, never an error.
pub fn resolve_id_lookup(outcome: Result<Option<PasswdRecord>, i32>) -> (r: Result<
    Option<UserIdentifier>,
    GetHomeError,
>)
    ensures
        outcome matches Err(code) ==> r == Err::<Option<UserIdentifier>, GetHomeError>(
            GetHomeError::OsError(code),
        ),
        outcome matches Ok(None::<PasswdRecord>) ==> r == Ok::<
            Option<UserIdentifier>,
            GetHomeError,
        >(None),
        outcome matches Ok(Some(rec)) ==> r matches Ok(Some(id)) && id@ == rec.uid,
{
    match outcome {
        Err(code) => Err(GetHomeError::OsError(code)),
        Ok(None) => Ok(None),
        Ok(Some(rec)) => Ok(Some(UserIdentifier(rec.uid))),
    }
}

/// Get a user's home directory path by username.
///
/// A username holding an embedded null is refused with an encoding error
/// before the account database is consulted.  Otherwise one lookup call is
/// made and its outcome is mapped as [`resolve_home_lookup`] states.
pub fn home(username: &str) -> (r: Result<Option<String>, GetHomeError>)
    ensures
        has_nul(username@) ==> r == Err::<Option<String>, GetHomeError>(
            GetHomeError::EncodingError,
        ),
{
    if contains_nul(username) {
        return Err(GetHomeError::EncodingError);
    }
    let outcome = lookup_by_name(username);
    resolve_home_lookup(outcome)
}

/// The strategy for finding the process's own home directory.
#[derive(Debug)]
pub enum SelfHomePlan {
    /// The environment override is set: its value is the answer.
    UseOverride(String),
    /// No override: the account database decides.
    QueryDatabase,
}

/// Decide how the process's own home directory is found: a set `HOME`
/// override wins, regardless of what the account database holds; only when
/// it is absent is the database consulted.
pub fn plan_self_home(override_value: Option<String>) -> (r: SelfHomePlan)
    ensures
        override_value matches Some(value) ==> r matches SelfHomePlan::UseOverride(chosen)
            && chosen@ == value@,
        override_value is None ==> r is QueryDatabase,
{
    match override_value {
        Some(value) => SelfHomePlan::UseOverride(value),
        None => SelfHomePlan::QueryDatabase,
    }
}

/// Get this process's user's home directory path.
///
/// The `HOME` environment variable is consulted first, as
/// [`plan_self_home`] states; only when it is absent is the account database
/// entry for the current real user id consulted, and its outcome mapped as
/// [`resolve_home_lookup`] states.
pub fn my_home() -> (r: Result<Option<String>, GetHomeError>)
{
    let override_value: Option<String> = if env_is_set("HOME") {
        Some(env_value_or("HOME", ""))
    } else {
        None
    };
    match plan_self_home(override_value) {
        SelfHomePlan::UseOverride(value) => Ok(Some(value)),
        SelfHomePlan::QueryDatabase => {
            let outcome = lookup_by_uid(current_uid());
            resolve_home_lookup(outcome)
        },
    }
}

impl UserIdentifier {
    /// Wrap a raw numeric user id as an identifier.
    pub fn from_raw(uid: u32) -> (r: UserIdentifier)
        ensures
            r@ == uid,
    {
        UserIdentifier(uid)
    }

    /// The raw numeric user id inside this identifier.
    pub fn as_raw(&self) -> (r: u32)
        ensures
            r == self@,
    {
        self.0
    }

    /// Get a user's identifier by username.
    ///
    /// A username holding an embedded null is refused with an encoding error
    /// before the account database is consulted.  Otherwise one lookup call
    /// is made and its outcome is mapped as [`resolve_id_lookup`] states.
    pub fn with_username(username: &str) -> (r: Result<Option<UserIdentifier>, GetHomeError>)
        ensures
            has_nul(username@) ==> r == Err::<Option<UserIdentifier>, GetHomeError>(
                GetHomeError::EncodingError,
            ),
    {
        if contains_nul(username) {
            return Err(GetHomeError::EncodingError);
        }
        let outcome = lookup_by_name(username);
        resolve_id_lookup(outcome)
    }

    /// Get the identifier of this process's user from its real user id.
    ///
    /// The underlying call cannot fail; the result type keeps the error arm
    /// so that the identifier interface is the same on every platform.
    pub fn my_id() -> (r: Result<UserIdentifier, GetHomeError>)
        ensures
            r is Ok,
    {
        Ok(UserIdentifier(current_uid()))
    }

    /// Get a user's home directory path from their identifier.
    ///
    /// One lookup call is made, keyed by the wrapped user id, and its outcome
    /// is mapped as [`resolve_home_lookup`] states.
    pub fn to_home(&self) -> (r: Result<Option<String>, GetHomeError>) {
        let outcome = lookup_by_uid(self.0);
        resolve_home_lookup(outcome)
    }
}

} // verus!
