//! The storage error taxonomy and the experiment-metrics data shapes.

use event_router::error::{Error, QuotaReason, WebExtStorageApiError};
use event_router::metrics::{
    EnrolledFeature, EnrollmentStatus, EnrollmentStatusExtraDef, ExperimentEnrollment,
    FeatureExposureExtraDef, MalformedFeatureConfigExtraDef,
};

fn reason_of(e: &WebExtStorageApiError) -> &str {
    match e {
        WebExtStorageApiError::UnexpectedError { reason } => reason,
        WebExtStorageApiError::JsonError { reason } => reason,
        WebExtStorageApiError::QuotaError { reason } => reason,
    }
}

#[test]
fn test_quota_reason_names() {
    assert_eq!(QuotaReason::TotalBytes.name(), "TotalBytes");
    assert_eq!(QuotaReason::ItemBytes.name(), "ItemBytes");
    assert_eq!(QuotaReason::MaxItems.name(), "MaxItems");
}

#[test]
fn test_quota_error_conversion() {
    let err = WebExtStorageApiError::from_error(&Error::QuotaError(QuotaReason::MaxItems));
    assert!(matches!(&err, WebExtStorageApiError::QuotaError { .. }));
    assert_eq!(reason_of(&err), "MaxItems");
    assert_eq!(err.message(), "Quota exceeded: MaxItems");
}

#[test]
fn test_json_error_conversion() {
    let err = WebExtStorageApiError::from_error(&Error::JsonError(
        "expected value at line 1 column 2".to_string(),
    ));
    assert!(matches!(&err, WebExtStorageApiError::JsonError { .. }));
    assert_eq!(reason_of(&err), "expected value at line 1 column 2");
    assert_eq!(err.message(), "Error parsing JSON data: expected value at line 1 column 2");
}

#[test]
fn test_illegal_path_conversion() {
    let err = WebExtStorageApiError::from_error(&Error::IllegalDatabasePath("/".to_string()));
    assert!(matches!(&err, WebExtStorageApiError::UnexpectedError { .. }));
    assert_eq!(reason_of(&err), "Path not found: /");
}

#[test]
fn test_unit_variant_conversions() {
    let cases: Vec<(Error, &str)> = vec![
        (Error::ConnectionAlreadyOpen, "ConnectionAlreadyOpen"),
        (Error::InvalidConnectionType, "InvalidConnectionType"),
        (Error::WrongApiForClose, "WrongApiForClose"),
        (Error::OtherConnectionReferencesExist, "OtherConnectionReferencesExist"),
        (Error::DatabaseConnectionClosed, "DatabaseConnectionClosed"),
    ];
    for (internal, expected) in cases {
        let err = WebExtStorageApiError::from_error(&internal);
        assert!(matches!(&err, WebExtStorageApiError::UnexpectedError { .. }));
        assert_eq!(reason_of(&err), expected);
    }
}

#[test]
fn test_textual_variant_conversions() {
    let cases: Vec<Error> = vec![
        Error::SqlError("no such table".to_string()),
        Error::IoError("permission denied".to_string()),
        Error::InterruptedError("interrupted".to_string()),
        Error::Utf8Error("invalid utf-8".to_string()),
        Error::OpenDatabaseError("cannot open".to_string()),
        Error::SyncError("sync failed".to_string()),
    ];
    for internal in cases {
        let text = match &internal {
            Error::SqlError(s)
            | Error::IoError(s)
            | Error::InterruptedError(s)
            | Error::Utf8Error(s)
            | Error::OpenDatabaseError(s)
            | Error::SyncError(s) => s.clone(),
            _ => unreachable!(),
        };
        let err = WebExtStorageApiError::from_error(&internal);
        assert!(matches!(&err, WebExtStorageApiError::UnexpectedError { .. }));
        assert_eq!(reason_of(&err), text);
    }
}

#[test]
fn test_error_handling_report_classes() {
    let handling = Error::QuotaError(QuotaReason::TotalBytes).get_error_handling();
    assert!(matches!(&handling.err, WebExtStorageApiError::QuotaError { .. }));
    assert_eq!(reason_of(&handling.err), "TotalBytes");
    assert_eq!(handling.report_class.as_deref(), Some("webext-storage-quota-error"));

    let handling = Error::JsonError("bad".to_string()).get_error_handling();
    assert_eq!(handling.report_class.as_deref(), Some("webext-storage-json-error"));

    let handling = Error::SqlError("bad".to_string()).get_error_handling();
    assert_eq!(handling.report_class.as_deref(), Some("webext-storage-sql-error"));

    let handling = Error::IllegalDatabasePath("".to_string()).get_error_handling();
    assert_eq!(handling.report_class.as_deref(), Some("webext-storage-illegal-db-path-error"));
}

#[test]
fn test_enrollment_status_extra_from_enrolled() {
    let extra = EnrollmentStatusExtraDef::from_enrollment(ExperimentEnrollment {
        slug: "exp-1".to_string(),
        status: EnrollmentStatus::Enrolled {
            reason: "Qualified".to_string(),
            branch: "treatment".to_string(),
        },
    });
    assert_eq!(extra.branch.as_deref(), Some("treatment"));
    assert_eq!(extra.reason.as_deref(), Some("Qualified"));
    assert_eq!(extra.error_string, None);
    assert_eq!(extra.conflict_slug, None);
    assert_eq!(extra.slug.as_deref(), Some("exp-1"));
    assert_eq!(extra.status.as_deref(), Some("Enrolled"));
    assert_eq!(extra.user_id, None);
}

#[test]
fn test_enrollment_status_extra_other_statuses() {
    let extra = EnrollmentStatusExtraDef::from_enrollment(ExperimentEnrollment {
        slug: "exp-2".to_string(),
        status: EnrollmentStatus::NotEnrolled { reason: "NotSelected".to_string() },
    });
    assert_eq!(extra.branch, None);
    assert_eq!(extra.reason.as_deref(), Some("NotSelected"));
    assert_eq!(extra.status.as_deref(), Some("NotEnrolled"));

    let extra = EnrollmentStatusExtraDef::from_enrollment(ExperimentEnrollment {
        slug: "exp-3".to_string(),
        status: EnrollmentStatus::WasEnrolled { branch: "control".to_string() },
    });
    assert_eq!(extra.branch.as_deref(), Some("control"));
    assert_eq!(extra.reason, None);
    assert_eq!(extra.status.as_deref(), Some("WasEnrolled"));

    let extra = EnrollmentStatusExtraDef::from_enrollment(ExperimentEnrollment {
        slug: "exp-4".to_string(),
        status: EnrollmentStatus::Error { reason: "boom".to_string() },
    });
    assert_eq!(extra.branch, None);
    assert_eq!(extra.reason, None);
    assert_eq!(extra.error_string.as_deref(), Some("boom"));
    assert_eq!(extra.status.as_deref(), Some("Error"));
}

#[test]
fn test_feature_exposure_from_enrolled_feature() {
    let extra = FeatureExposureExtraDef::from(EnrolledFeature {
        slug: "exp-1".to_string(),
        branch: Some("treatment".to_string()),
        feature_id: "cards".to_string(),
    });
    assert_eq!(extra.slug, "exp-1");
    assert_eq!(extra.branch.as_deref(), Some("treatment"));
    assert_eq!(extra.feature_id, "cards");
}

#[test]
fn test_malformed_feature_config_constructors() {
    let extra = MalformedFeatureConfigExtraDef::from_feature_and_part(
        EnrolledFeature {
            slug: "exp-1".to_string(),
            branch: None,
            feature_id: "cards".to_string(),
        },
        "layout".to_string(),
    );
    assert_eq!(extra.slug.as_deref(), Some("exp-1"));
    assert_eq!(extra.branch, None);
    assert_eq!(extra.feature_id, "cards");
    assert_eq!(extra.part, "layout");

    let extra = MalformedFeatureConfigExtraDef::new("cards".to_string(), "layout".to_string());
    assert_eq!(extra.slug, None);
    assert_eq!(extra.branch, None);
    assert_eq!(extra.feature_id, "cards");
    assert_eq!(extra.part, "layout");

    let extra = MalformedFeatureConfigExtraDef::default();
    assert_eq!(extra.slug, None);
    assert_eq!(extra.branch, None);
    assert_eq!(extra.feature_id, "");
    assert_eq!(extra.part, "");
}
