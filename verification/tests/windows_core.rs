use homedir::windows::home;
use homedir::windows::my_home;
use homedir::windows::AccountLookup;
use homedir::windows::AccountLookupState;
use homedir::windows::GetHomeInstance;
use homedir::windows::ConnectState;
use homedir::windows::FieldValue;
use homedir::windows::FolderOutcome;
use homedir::windows::GetHomeError;
use homedir::windows::HomeProgress;
use homedir::windows::ProbeOutcome;
use homedir::windows::ProfileQueryState;
use homedir::windows::RegistryFetchState;
use homedir::windows::RowOutcome;
use homedir::windows::SelfProfileState;
use homedir::windows::SidConversion;
use homedir::windows::SidTextState;
use homedir::windows::SizeProbeOutcome;
use homedir::windows::TokenLookup;
use homedir::windows::TokenLookupState;
use homedir::windows::UserIdentifier;
use homedir::windows::STATUS_INSUFFICIENT_BUFFER;
use homedir::windows::STATUS_INVALID_ARGUMENT;
use homedir::windows::STATUS_NONE_MAPPED;
use homedir::windows::STATUS_NOT_INITIALIZED;
use homedir::windows::STATUS_OUT_OF_MEMORY;
use homedir::windows::STATUS_UNEXPECTED;

/// Run a full identifier-to-text conversion whose conversion call returned
/// the UTF-16 encoding of `sid`, and whose buffer free succeeded.
fn converted_identifier(sid: &str) -> UserIdentifier {
    let units: Vec<u16> = sid.encode_utf16().collect();
    let c = SidConversion::start().on_convert(Ok(units)).on_free(true, 0);
    assert_eq!(c.live_buffers, 0);
    match c.state {
        SidTextState::Done { result } => result.unwrap(),
        _ => panic!("conversion did not finish"),
    }
}

#[test]
fn account_lookup_found_trace() {
    let m = AccountLookup::start("Administrator");
    match &m.state {
        AccountLookupState::ProbeSizes { name_units } => {
            let mut expected: Vec<u16> = "Administrator".encode_utf16().collect();
            expected.push(0);
            assert_eq!(name_units, &expected);
        }
        _ => panic!("expected the size-probing state"),
    }
    let m = m.on_probe(ProbeOutcome::Failed {
        code: STATUS_INSUFFICIENT_BUFFER,
        sid_size: 28,
        domain_size: 16,
    });
    assert!(matches!(
        m.state,
        AccountLookupState::Allocate { sid_size: 28, domain_size: 16, .. }
    ));
    let m = m.on_alloc(true);
    assert_eq!(m.live_buffers, 1);
    let m = m.on_fill(None);
    assert!(matches!(m.state, AccountLookupState::ConvertSid));
    let id = converted_identifier("S-1-5-21-3-4-5-500");
    assert_eq!(id.as_str(), "S-1-5-21-3-4-5-500");
    let m = m.on_converted(Ok(id)).on_release();
    assert_eq!(m.live_buffers, 0);
    match m.state {
        AccountLookupState::Done { result } => {
            let found = result.unwrap().unwrap();
            assert_eq!(found.as_str(), "S-1-5-21-3-4-5-500");
        }
        _ => panic!("lookup did not finish"),
    }
}

#[test]
fn unmapped_account_is_not_found() {
    let m = AccountLookup::start("nobody-here").on_probe(ProbeOutcome::Failed {
        code: STATUS_NONE_MAPPED,
        sid_size: 0,
        domain_size: 0,
    });
    assert_eq!(m.live_buffers, 0);
    assert!(matches!(m.state, AccountLookupState::Done { result: Ok(None) }));
}

#[test]
fn probe_failure_surfaces_its_status() {
    let m = AccountLookup::start("someone").on_probe(ProbeOutcome::Failed {
        code: 0x8007_0005,
        sid_size: 0,
        domain_size: 0,
    });
    assert!(matches!(
        m.state,
        AccountLookupState::Done { result: Err(GetHomeError::WindowsError(0x8007_0005)) }
    ));
}

#[test]
fn nul_in_name_is_refused_before_any_call() {
    let m = AccountLookup::start("bad\0name");
    assert!(matches!(
        m.state,
        AccountLookupState::Done { result: Err(GetHomeError::ContainsNul) }
    ));
}

#[test]
fn zero_probed_size_is_unexpected() {
    let m = AccountLookup::start("someone").on_probe(ProbeOutcome::Completed {
        sid_size: 0,
        domain_size: 8,
    });
    assert!(matches!(
        m.state,
        AccountLookupState::Done { result: Err(GetHomeError::WindowsError(STATUS_UNEXPECTED)) }
    ));
}

#[test]
fn allocation_failure_is_out_of_memory() {
    let m = AccountLookup::start("someone")
        .on_probe(ProbeOutcome::Completed { sid_size: 28, domain_size: 8 })
        .on_alloc(false);
    assert_eq!(m.live_buffers, 0);
    assert!(matches!(
        m.state,
        AccountLookupState::Done { result: Err(GetHomeError::WindowsError(STATUS_OUT_OF_MEMORY)) }
    ));
}

#[test]
fn fill_failure_still_releases_the_buffer() {
    let m = AccountLookup::start("someone")
        .on_probe(ProbeOutcome::Completed { sid_size: 28, domain_size: 8 })
        .on_alloc(true)
        .on_fill(Some(0x8007_0002));
    assert_eq!(m.live_buffers, 1);
    assert!(matches!(m.state, AccountLookupState::Release { .. }));
    let m = m.on_release();
    assert_eq!(m.live_buffers, 0);
    assert!(matches!(
        m.state,
        AccountLookupState::Done { result: Err(GetHomeError::WindowsError(0x8007_0002)) }
    ));
}

#[test]
fn invalid_utf16_identifier_fails_decoding() {
    // An unpaired high surrogate is not valid UTF-16.
    let c = SidConversion::start().on_convert(Ok(vec![0xD800]));
    assert_eq!(c.live_buffers, 1);
    assert!(matches!(
        c.state,
        SidTextState::FreeText { text: Err(GetHomeError::Utf16Error) }
    ));
    let c = c.on_free(true, 0);
    assert_eq!(c.live_buffers, 0);
    assert!(matches!(
        c.state,
        SidTextState::Done { result: Err(GetHomeError::Utf16Error) }
    ));
}

#[test]
fn conversion_failure_skips_the_free() {
    let c = SidConversion::start().on_convert(Err(0x8007_0008));
    assert_eq!(c.live_buffers, 0);
    assert!(matches!(
        c.state,
        SidTextState::Done { result: Err(GetHomeError::WindowsError(0x8007_0008)) }
    ));
}

#[test]
fn free_failure_surfaces_only_on_the_success_path() {
    // Success path: a failed free is the only failure and surfaces.
    let units: Vec<u16> = "S-1-5-18".encode_utf16().collect();
    let c = SidConversion::start().on_convert(Ok(units)).on_free(false, 0x8007_0009);
    assert!(matches!(
        c.state,
        SidTextState::Done { result: Err(GetHomeError::WindowsError(0x8007_0009)) }
    ));
    // Unwinding path: the pending decoding failure is kept.
    let c = SidConversion::start().on_convert(Ok(vec![0xDC00])).on_free(false, 0x8007_0009);
    assert!(matches!(
        c.state,
        SidTextState::Done { result: Err(GetHomeError::Utf16Error) }
    ));
}

#[test]
fn token_lookup_success_trace() {
    let m = TokenLookup::start().on_open(None);
    assert!(m.token_open);
    let m = m.on_probe(SizeProbeOutcome::Failed { code: STATUS_INSUFFICIENT_BUFFER, size: 44 });
    assert!(matches!(m.state, TokenLookupState::Allocate { size: 44 }));
    let m = m.on_alloc(true).on_fill(None);
    assert!(matches!(m.state, TokenLookupState::ConvertSid));
    let id = converted_identifier("S-1-5-21-9-8-7-1001");
    let m = m.on_converted(Ok(id)).on_release().on_close(true, 0);
    assert_eq!(m.live_buffers, 0);
    assert!(!m.token_open);
    match m.state {
        TokenLookupState::Done { result } => {
            assert_eq!(result.unwrap().as_str(), "S-1-5-21-9-8-7-1001");
        }
        _ => panic!("lookup did not finish"),
    }
}

#[test]
fn token_open_failure_finishes_at_once() {
    let m = TokenLookup::start().on_open(Some(0x8007_0005));
    assert!(!m.token_open);
    assert!(matches!(
        m.state,
        TokenLookupState::Done { result: Err(GetHomeError::WindowsError(0x8007_0005)) }
    ));
}

#[test]
fn token_probe_failure_still_closes_the_handle() {
    let m = TokenLookup::start().on_open(None).on_probe(SizeProbeOutcome::Failed {
        code: 0x8007_0006,
        size: 0,
    });
    assert!(m.token_open);
    assert!(matches!(m.state, TokenLookupState::CloseToken { .. }));
    let m = m.on_close(true, 0);
    assert!(!m.token_open);
    assert!(matches!(
        m.state,
        TokenLookupState::Done { result: Err(GetHomeError::WindowsError(0x8007_0006)) }
    ));
}

#[test]
fn token_zero_probed_size_is_unexpected_and_closes() {
    let m = TokenLookup::start()
        .on_open(None)
        .on_probe(SizeProbeOutcome::Completed { size: 0 })
        .on_close(true, 0);
    assert!(matches!(
        m.state,
        TokenLookupState::Done { result: Err(GetHomeError::WindowsError(STATUS_UNEXPECTED)) }
    ));
}

#[test]
fn token_close_failure_masks_only_success() {
    // A pending success: the failed close is the only failure.
    let id = converted_identifier("S-1-5-18");
    let m = TokenLookup::start()
        .on_open(None)
        .on_probe(SizeProbeOutcome::Completed { size: 44 })
        .on_alloc(true)
        .on_fill(None)
        .on_converted(Ok(id))
        .on_release()
        .on_close(false, 0x8007_000B);
    assert!(matches!(
        m.state,
        TokenLookupState::Done { result: Err(GetHomeError::WindowsError(0x8007_000B)) }
    ));
    // A pending failure is kept over the close failure.
    let m = TokenLookup::start()
        .on_open(None)
        .on_probe(SizeProbeOutcome::Completed { size: 44 })
        .on_alloc(false)
        .on_close(false, 0x8007_000B);
    assert!(matches!(
        m.state,
        TokenLookupState::Done { result: Err(GetHomeError::WindowsError(STATUS_OUT_OF_MEMORY)) }
    ));
}

#[test]
fn connect_success_trace() {
    let m = GetHomeInstance::new(true).on_create(None);
    match &m.state {
        ConnectState::ConnectNamespace { namespace } => {
            assert_eq!(namespace, "ROOT\\CIMV2");
        }
        _ => panic!("expected the namespace-connection state"),
    }
    let m = m.on_connect(None).on_blanket(None, false);
    match m.state {
        ConnectState::Done { result } => {
            assert!(!result.unwrap().initialized_runtime);
        }
        _ => panic!("connection did not finish"),
    }
}

#[test]
fn connect_retries_initialization_exactly_once() {
    let m = GetHomeInstance::new(true).on_create(Some(STATUS_NOT_INITIALIZED));
    assert!(matches!(m.state, ConnectState::InitializeRuntime));
    let m = m.on_initialize(None);
    assert!(matches!(m.state, ConnectState::CreateInstance { retried: true }));
    // A second failure for the same reason finishes instead of retrying.
    let m = m.on_create(Some(STATUS_NOT_INITIALIZED));
    assert!(matches!(
        m.state,
        ConnectState::Done { result: Err(GetHomeError::WindowsError(STATUS_NOT_INITIALIZED)) }
    ));
}

#[test]
fn connect_without_auto_initialization_fails_at_once() {
    let m = GetHomeInstance::new(false).on_create(Some(STATUS_NOT_INITIALIZED));
    assert!(matches!(
        m.state,
        ConnectState::Done { result: Err(GetHomeError::WindowsError(STATUS_NOT_INITIALIZED)) }
    ));
}

#[test]
fn connect_initialization_failure_surfaces() {
    let m = GetHomeInstance::new(true)
        .on_create(Some(STATUS_NOT_INITIALIZED))
        .on_initialize(Some(0x8000_4005));
    assert!(matches!(
        m.state,
        ConnectState::Done { result: Err(GetHomeError::WindowsError(0x8000_4005)) }
    ));
}

fn connected_instance() -> GetHomeInstance {
    let m = GetHomeInstance::new(true).on_create(None).on_connect(None).on_blanket(None, false);
    match m.state {
        ConnectState::Done { result } => result.unwrap(),
        _ => panic!("connection did not finish"),
    }
}

#[test]
fn profile_query_builds_the_exact_query_text() {
    let instance = connected_instance();
    let id = converted_identifier("S-1-5-18");
    let q = instance.query_home(&id);
    match q.state {
        ProfileQueryState::Exec { wql } => {
            assert_eq!(
                wql,
                "SELECT LocalPath FROM Win32_UserProfile WHERE SID = 'S-1-5-18'"
            );
        }
        _ => panic!("expected the execution state"),
    }
}

#[test]
fn profile_query_found_trace() {
    let instance = connected_instance();
    let id = converted_identifier("S-1-5-21-3-4-5-500");
    let units: Vec<u16> = "C:\\Users\\someone".encode_utf16().collect();
    let q = instance
        .query_home(&id)
        .on_exec(None)
        .on_row(RowOutcome::Row)
        .on_field(Ok(FieldValue::Text(units)));
    match q.state {
        ProfileQueryState::Done { result } => {
            assert_eq!(result.unwrap(), Some(String::from("C:\\Users\\someone")));
        }
        _ => panic!("query did not finish"),
    }
}

#[test]
fn profile_query_no_rows_is_not_found() {
    let instance = connected_instance();
    let id = converted_identifier("S-1-5-21-0-0-0-999");
    let q = instance.query_home(&id).on_exec(None).on_row(RowOutcome::NoRows);
    assert!(matches!(q.state, ProfileQueryState::Done { result: Ok(None) }));
}

#[test]
fn profile_query_null_row_is_a_shape_violation() {
    let instance = connected_instance();
    let id = converted_identifier("S-1-5-18");
    let q = instance.query_home(&id).on_exec(None).on_row(RowOutcome::NullRow);
    assert!(matches!(
        q.state,
        ProfileQueryState::Done { result: Err(GetHomeError::NullPointerResult) }
    ));
}

#[test]
fn profile_query_unexpected_tag_is_a_shape_violation() {
    let instance = connected_instance();
    let id = converted_identifier("S-1-5-18");
    let q = instance
        .query_home(&id)
        .on_exec(None)
        .on_row(RowOutcome::Row)
        .on_field(Ok(FieldValue::UnexpectedTag));
    assert!(matches!(
        q.state,
        ProfileQueryState::Done { result: Err(GetHomeError::NullPointerResult) }
    ));
}

#[test]
fn profile_query_execution_failure_surfaces() {
    let instance = connected_instance();
    let id = converted_identifier("S-1-5-18");
    let q = instance.query_home(&id).on_exec(Some(0x8004_1003));
    assert!(matches!(
        q.state,
        ProfileQueryState::Done { result: Err(GetHomeError::WindowsError(0x8004_1003)) }
    ));
}

#[test]
fn self_profile_found_trace() {
    let units: Vec<u16> = "C:\\Users\\me".encode_utf16().collect();
    let m = my_home().on_fetch(FolderOutcome::Path(units));
    assert_eq!(m.live_buffers, 1);
    let m = m.on_free();
    assert_eq!(m.live_buffers, 0);
    match m.state {
        SelfProfileState::Done { result } => {
            assert_eq!(result.unwrap(), Some(String::from("C:\\Users\\me")));
        }
        _ => panic!("lookup did not finish"),
    }
}

#[test]
fn self_profile_invalid_argument_is_not_found() {
    let m = my_home().on_fetch(FolderOutcome::Failed(STATUS_INVALID_ARGUMENT));
    assert!(matches!(m.state, SelfProfileState::Done { result: Ok(None) }));
}

#[test]
fn self_profile_null_path_is_not_found() {
    let m = my_home().on_fetch(FolderOutcome::NullPath);
    assert!(matches!(m.state, SelfProfileState::Done { result: Ok(None) }));
}

#[test]
fn self_profile_other_failure_surfaces() {
    let m = my_home().on_fetch(FolderOutcome::Failed(0x8007_0057 + 1));
    assert!(matches!(
        m.state,
        SelfProfileState::Done { result: Err(GetHomeError::WindowsError(_)) }
    ));
}

#[test]
fn home_composition_decisions() {
    let progress = home(Err(GetHomeError::Utf16Error));
    assert!(matches!(
        progress,
        HomeProgress::Finished(Err(GetHomeError::Utf16Error))
    ));
    let progress = home(Ok(None));
    assert!(matches!(progress, HomeProgress::Finished(Ok(None))));
    let id = converted_identifier("S-1-5-21-3-4-5-500");
    let progress = home(Ok(Some(id)));
    match progress {
        HomeProgress::NeedProfileQuery(kept) => {
            assert_eq!(kept.as_str(), "S-1-5-21-3-4-5-500");
        }
        _ => panic!("expected a profile query to be needed"),
    }
}

#[test]
fn to_home_begins_a_connect_sequence() {
    let id = converted_identifier("S-1-5-18");
    let (sequence, kept) = id.to_home();
    assert!(sequence.auto_initialize);
    assert!(matches!(sequence.state, ConnectState::CreateInstance { retried: false }));
    assert_eq!(kept.as_str(), "S-1-5-18");
}

#[test]
fn registry_lookup_builds_the_exact_value_path() {
    let id = converted_identifier("S-1-5-21-3-4-5-500");
    let m = id.registry_home();
    match m.state {
        RegistryFetchState::ProbeSize { key } => {
            assert_eq!(
                key,
                "SOFTWARE\\Microsoft\\Windows NT\\CurrentVersion\\ProfileList\\S-1-5-21-3-4-5-500"
            );
        }
        _ => panic!("expected the size-probing state"),
    }
}

#[test]
fn registry_lookup_found_trace() {
    let id = converted_identifier("S-1-5-18");
    let units: Vec<u16> = "C:\\Users\\someone".encode_utf16().collect();
    let m = id.registry_home().on_probe(Ok(34)).on_fetch(Ok(units));
    match m.state {
        RegistryFetchState::Done { result } => {
            assert_eq!(result.unwrap(), Some(String::from("C:\\Users\\someone")));
        }
        _ => panic!("lookup did not finish"),
    }
}

#[test]
fn registry_failures_surface_their_status() {
    let id = converted_identifier("S-1-5-18");
    let m = id.registry_home().on_probe(Err(0x8007_0002));
    assert!(matches!(
        m.state,
        RegistryFetchState::Done { result: Err(GetHomeError::WindowsError(0x8007_0002)) }
    ));
    let id = converted_identifier("S-1-5-18");
    let m = id.registry_home().on_probe(Ok(34)).on_fetch(Err(0x8007_0005));
    assert!(matches!(
        m.state,
        RegistryFetchState::Done { result: Err(GetHomeError::WindowsError(0x8007_0005)) }
    ));
}

#[test]
fn registry_invalid_utf16_fails_decoding() {
    let id = converted_identifier("S-1-5-18");
    let m = id.registry_home().on_probe(Ok(2)).on_fetch(Ok(vec![0xDC00]));
    assert!(matches!(
        m.state,
        RegistryFetchState::Done { result: Err(GetHomeError::Utf16Error) }
    ));
}

#[test]
fn both_strategies_return_identical_paths_for_the_same_stored_units() {
    let units: Vec<u16> = "C:\\Users\\shared".encode_utf16().collect();
    let id = converted_identifier("S-1-5-21-3-4-5-500");
    let registry = id.registry_home().on_probe(Ok(units.len() as u32)).on_fetch(Ok(units.clone()));
    let registry_path = match registry.state {
        RegistryFetchState::Done { result } => result.unwrap().unwrap(),
        _ => panic!("registry lookup did not finish"),
    };
    let instance = connected_instance();
    let id = converted_identifier("S-1-5-21-3-4-5-500");
    let query = instance
        .query_home(&id)
        .on_exec(None)
        .on_row(RowOutcome::Row)
        .on_field(Ok(FieldValue::Text(units)));
    let query_path = match query.state {
        ProfileQueryState::Done { result } => result.unwrap().unwrap(),
        _ => panic!("query did not finish"),
    };
    assert_eq!(registry_path, query_path);
}
