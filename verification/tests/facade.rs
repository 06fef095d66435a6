use homedir::home;
use homedir::my_home;
use homedir::unix;
use homedir::GetHomeError;
use homedir::UserIdentifier;

#[test]
fn home_of_root_is_slash_root() {
    assert_eq!(home("root").unwrap(), Some(String::from("/root")));
}

#[test]
fn home_of_missing_user_is_none() {
    assert_eq!(home("doesnotexist12345").unwrap(), None);
}

#[test]
fn with_username_of_missing_user_is_none() {
    assert!(UserIdentifier::with_username("doesnotexist12345").unwrap().is_none());
}

#[test]
fn two_step_lookup_matches_one_step() {
    let id = UserIdentifier::with_username("root").unwrap().unwrap();
    assert_eq!(id.to_home().unwrap(), home("root").unwrap());
}

#[test]
fn nul_in_username_is_an_encoding_error() {
    assert_eq!(
        home("ro\0ot"),
        Err(GetHomeError(unix::GetHomeError::EncodingError))
    );
    assert_eq!(
        UserIdentifier::with_username("ro\0ot"),
        Err(GetHomeError(unix::GetHomeError::EncodingError))
    );
    assert_eq!(
        unix::home("\0"),
        Err(unix::GetHomeError::EncodingError)
    );
}

#[test]
fn my_home_is_idempotent() {
    assert_eq!(my_home().unwrap(), my_home().unwrap());
}

#[test]
fn home_override_wins_and_fallback_reads_database() {
    let had_home = envmnt::exists("HOME");
    let saved = envmnt::get_or("HOME", "");
    envmnt::set("HOME", "/tmp/x");
    assert_eq!(my_home().unwrap(), Some(String::from("/tmp/x")));
    envmnt::remove("HOME");
    // With the override unset, the answer is the account-database entry of
    // the current real user id, exactly as the two-step lookup gives it.
    let fallback = unix::UserIdentifier::my_id().unwrap().to_home().unwrap();
    assert_eq!(my_home().unwrap(), fallback);
    if had_home {
        envmnt::set("HOME", &saved);
    }
}

#[test]
fn my_id_to_home_never_errors_here() {
    // The current user may or may not have a database entry; either answer
    // is a valid outcome, never an error, on this machine.
    let id = UserIdentifier::my_id().unwrap();
    assert!(id.to_home().is_ok());
}

#[test]
fn unix_identifier_round_trip() {
    let id = unix::UserIdentifier::from_raw(0);
    assert_eq!(id.as_raw(), 0);
    assert_eq!(id.to_home().unwrap(), Some(String::from("/root")));
}

#[test]
fn unix_my_id_is_stable_and_round_trips() {
    let first = unix::UserIdentifier::my_id().unwrap();
    let second = unix::UserIdentifier::my_id().unwrap();
    assert_eq!(first, second);
    assert_eq!(unix::UserIdentifier::from_raw(first.as_raw()), first);
}

#[test]
fn resolve_home_lookup_maps_every_outcome() {
    assert_eq!(
        unix::resolve_home_lookup(Err(5)),
        Err(unix::GetHomeError::OsError(5))
    );
    assert_eq!(unix::resolve_home_lookup(Ok(None)), Ok(None));
    let with_dir = unix::PasswdRecord {
        uid: 7,
        dir: Some(String::from("/home/someone")),
    };
    assert_eq!(
        unix::resolve_home_lookup(Ok(Some(with_dir))),
        Ok(Some(String::from("/home/someone")))
    );
    let without_dir = unix::PasswdRecord { uid: 7, dir: None };
    assert_eq!(
        unix::resolve_home_lookup(Ok(Some(without_dir))),
        Err(unix::GetHomeError::EncodingError)
    );
}

#[test]
fn resolve_id_lookup_maps_every_outcome() {
    assert_eq!(
        unix::resolve_id_lookup(Err(13)),
        Err(unix::GetHomeError::OsError(13))
    );
    assert_eq!(unix::resolve_id_lookup(Ok(None)), Ok(None));
    let rec = unix::PasswdRecord {
        uid: 42,
        dir: Some(String::from("/home/someone")),
    };
    assert_eq!(
        unix::resolve_id_lookup(Ok(Some(rec))),
        Ok(Some(unix::UserIdentifier::from_raw(42)))
    );
}

#[test]
fn facade_wrappers_convert_both_ways() {
    let e = GetHomeError::from(unix::GetHomeError::OsError(3));
    assert_eq!(unix::GetHomeError::from(e), unix::GetHomeError::OsError(3));
    let id = UserIdentifier::from(unix::UserIdentifier::from_raw(9));
    assert_eq!(unix::UserIdentifier::from(id), unix::UserIdentifier::from_raw(9));
}

#[test]
fn plan_self_home_prefers_the_override() {
    assert!(matches!(
        unix::plan_self_home(Some(String::from("/tmp/x"))),
        unix::SelfHomePlan::UseOverride(v) if v == "/tmp/x"
    ));
    assert!(matches!(
        unix::plan_self_home(None),
        unix::SelfHomePlan::QueryDatabase
    ));
}
