use modern_sync::client_info::ClientEntryPoint;
use modern_sync::client_info::ClientRequestInfo;
use modern_sync::client_info::InvalidEntryPoint;
use modern_sync::fetch_cause::FetchCause;
use modern_sync::fetch_cause::InvalidFetchCause;
use modern_sync::types::ErrorHandlingStrategy;
use modern_sync::types::HasErrorHandlingStrategy;
use modern_sync::types::SyncedCommitSourceRepo;
use modern_sync::types::ThriftFailure;

#[test]
fn new_request_has_random_alphanumeric_correlator() {
    let a = ClientRequestInfo::new(ClientEntryPoint::EdenAPI);
    let b = ClientRequestInfo::new(ClientEntryPoint::EdenAPI);
    assert_eq!(a.correlator.len(), 16);
    assert!(a.correlator.chars().all(|c| c.is_ascii_alphanumeric()));
    assert_ne!(a.correlator, b.correlator);
    assert_eq!(a.entry_point, ClientEntryPoint::EdenAPI);
    assert!(!a.has_main_id());
}

#[test]
fn request_with_correlator_and_main_id() {
    let mut info =
        ClientRequestInfo::new_with_correlator(ClientEntryPoint::Sapling, "abc".to_string());
    assert_eq!(info.correlator, "abc");
    assert_eq!(info.main_id, None);
    info.set_main_id("user:someone".to_string());
    assert!(info.has_main_id());
    assert_eq!(info.main_id.as_deref(), Some("user:someone"));
}

#[test]
fn entry_point_names_round_trip() {
    let all = [
        (ClientEntryPoint::Sapling, "sapling"),
        (ClientEntryPoint::EdenFS, "edenfs"),
        (ClientEntryPoint::SCS, "scs"),
        (ClientEntryPoint::SCMQuery, "scm_query"),
        (ClientEntryPoint::EdenAPI, "eden_api"),
        (ClientEntryPoint::LandService, "landservice"),
        (ClientEntryPoint::LFS, "lfs"),
        (ClientEntryPoint::DerivedDataService, "derived_data_service"),
        (ClientEntryPoint::ISL, "isl"),
    ];
    for (e, name) in all {
        assert_eq!(e.as_str(), name);
        assert_eq!(ClientEntryPoint::try_from_str(name), Ok(e));
    }
    assert_eq!(
        ClientEntryPoint::try_from_str("Sapling"),
        Err(InvalidEntryPoint::Unknown)
    );
    assert_eq!(ClientEntryPoint::try_from_str(""), Err(InvalidEntryPoint::Unknown));
}

#[test]
fn fetch_cause_names_round_trip() {
    let all = [
        (FetchCause::EdenUnknown, "edenfs-unknown"),
        (FetchCause::EdenPrefetch, "edenfs-prefetch"),
        (FetchCause::EdenThrift, "edenfs-thrift"),
        (FetchCause::EdenFs, "edenfs-fs"),
        (FetchCause::EdenMixed, "edenfs-mixed"),
        (FetchCause::SaplingPrefetch, "sl-prefetch"),
        (FetchCause::SaplingUnknown, "sl-unknown"),
        (FetchCause::Unspecified, "unspecified"),
    ];
    for (c, name) in all {
        assert_eq!(c.to_str(), name);
        assert_eq!(name.parse::<FetchCause>(), Ok(c));
    }
    assert_eq!("edenfs".parse::<FetchCause>(), Err(InvalidFetchCause::Unknown));
}

#[test]
fn source_repo_column_values() {
    assert_eq!(SyncedCommitSourceRepo::Large.to_db_bytes(), b"large".to_vec());
    assert_eq!(SyncedCommitSourceRepo::Small.to_db_bytes(), b"small".to_vec());
    assert_eq!(
        SyncedCommitSourceRepo::from_db_bytes(b"large"),
        Some(SyncedCommitSourceRepo::Large)
    );
    assert_eq!(
        SyncedCommitSourceRepo::from_db_bytes(b"small"),
        Some(SyncedCommitSourceRepo::Small)
    );
    assert_eq!(SyncedCommitSourceRepo::from_db_bytes(b"Large"), None);
    assert_eq!(SyncedCommitSourceRepo::from_db_bytes(b"smal"), None);
}

#[test]
fn thrift_failure_strategies() {
    assert_eq!(
        ThriftFailure::ThriftError.get_error_handling_strategy(),
        ErrorHandlingStrategy::Reconnect
    );
    assert_eq!(
        ThriftFailure::ApplicationException.get_error_handling_strategy(),
        ErrorHandlingStrategy::Retry
    );
    assert_eq!(
        ThriftFailure::Declared.get_error_handling_strategy(),
        ErrorHandlingStrategy::Abort
    );
}
