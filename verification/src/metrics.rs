//! Experiment-metrics data shapes handed to a host-implemented metrics
//! recorder.
//!
//! Enrollment state is carried here with plain string payloads: each reason
//! or branch field holds the textual form of the value the experiment engine
//! tracked.

use vstd::prelude::*;

verus! {

/// The state an experiment enrollment is in, together with what the
/// metrics need to know about how it got there.
#[derive(Debug, Clone)]
pub enum EnrollmentStatus {
    Enrolled { reason: String, branch: String },
    Disqualified { reason: String, branch: String },
    NotEnrolled { reason: String },
    WasEnrolled { branch: String },
    Error { reason: String },
}

impl EnrollmentStatus {
    /// The status's name.
    pub open spec fn spec_name(&self) -> Seq<char> {
        match self {
            EnrollmentStatus::Enrolled { .. } => "Enrolled"@,
            EnrollmentStatus::Disqualified { .. } => "Disqualified"@,
            EnrollmentStatus::NotEnrolled { .. } => "NotEnrolled"@,
            EnrollmentStatus::WasEnrolled { .. } => "WasEnrolled"@,
            EnrollmentStatus::Error { .. } => "Error"@,
        }
    }

    /// The branch carried by the status, if any.
    pub open spec fn spec_branch(&self) -> Option<String> {
        match self {
            EnrollmentStatus::Enrolled { branch, .. } => Some(*branch),
            EnrollmentStatus::Disqualified { branch, .. } => Some(*branch),
            EnrollmentStatus::WasEnrolled { branch } => Some(*branch),
            _ => None,
        }
    }

    /// The reason carried by the status, if any; an `Error` status keeps
    /// its reason apart, as an error string.
    pub open spec fn spec_reason(&self) -> Option<String> {
        match self {
            EnrollmentStatus::Enrolled { reason, .. } => Some(*reason),
            EnrollmentStatus::Disqualified { reason, .. } => Some(*reason),
            EnrollmentStatus::NotEnrolled { reason } => Some(*reason),
            _ => None,
        }
    }

    /// The error string carried by an `Error` status.
    pub open spec fn spec_error(&self) -> Option<String> {
        match self {
            EnrollmentStatus::Error { reason } => Some(*reason),
            _ => None,
        }
    }

    /// The status's name, as a string.
    pub fn name(&self) -> (r: String)
        ensures
            r@ == self.spec_name(),
    {
        match self {
            EnrollmentStatus::Enrolled { .. } => "Enrolled".to_owned(),
            EnrollmentStatus::Disqualified { .. } => "Disqualified".to_owned(),
            EnrollmentStatus::NotEnrolled { .. } => "NotEnrolled".to_owned(),
            EnrollmentStatus::WasEnrolled { .. } => "WasEnrolled".to_owned(),
            EnrollmentStatus::Error { .. } => "Error".to_owned(),
        }
    }
}

/// One enrollment as the experiment engine tracks it.
#[derive(Debug, Clone)]
pub struct ExperimentEnrollment {
    pub slug: String,
    pub status: EnrollmentStatus,
}

/// The enrollment-status extra fields submitted with enrollment metrics.
#[derive(Debug, Clone)]
pub struct EnrollmentStatusExtraDef {
    pub branch: Option<String>,
    pub conflict_slug: Option<String>,
    pub error_string: Option<String>,
    pub reason: Option<String>,
    pub slug: Option<String>,
    pub status: Option<String>,
    pub user_id: Option<String>,
}

impl EnrollmentStatusExtraDef {
    /// Flattens an enrollment into the extra fields recorded with it:
    /// branch, reason and error string as the status carries them, the
    /// enrollment's slug, and the status's name.
    pub fn from_enrollment(enrollment: ExperimentEnrollment) -> (r: EnrollmentStatusExtraDef)
        ensures
            r.branch == enrollment.status.spec_branch(),
            r.conflict_slug is None,
            r.error_string == enrollment.status.spec_error(),
            r.reason == enrollment.status.spec_reason(),
            r.slug == Some(enrollment.slug),
            r.status matches Some(name) && name@ == enrollment.status.spec_name(),
            r.user_id is None,
    {
        let status_name = enrollment.status.name();
        let mut branch_value: Option<String> = None;
        let mut reason_value: Option<String> = None;
        let mut error_value: Option<String> = None;
        match enrollment.status {
            EnrollmentStatus::Enrolled { reason, branch } => {
                branch_value = Some(branch);
                reason_value = Some(reason);
            },
            EnrollmentStatus::Disqualified { reason, branch } => {
                branch_value = Some(branch);
                reason_value = Some(reason);
            },
            EnrollmentStatus::NotEnrolled { reason } => {
                reason_value = Some(reason);
            },
            EnrollmentStatus::WasEnrolled { branch } => {
                branch_value = Some(branch);
            },
            EnrollmentStatus::Error { reason } => {
                error_value = Some(reason);
            },
        }
        EnrollmentStatusExtraDef {
            branch: branch_value,
            conflict_slug: None,
            error_string: error_value,
            reason: reason_value,
            slug: Some(enrollment.slug),
            status: Some(status_name),
            user_id: None,
        }
    }
}

/// One feature of an enrolled experiment branch.
#[derive(Debug, Clone)]
pub struct EnrolledFeature {
    pub slug: String,
    pub branch: Option<String>,
    pub feature_id: String,
}

/// The extra fields submitted with feature activation and exposure
/// metrics.
#[derive(Debug, Clone)]
pub struct FeatureExposureExtraDef {
    pub branch: Option<String>,
    pub slug: String,
    pub feature_id: String,
}

impl From<EnrolledFeature> for FeatureExposureExtraDef {
    fn from(value: EnrolledFeature) -> (r: Self) {
        Self { feature_id: value.feature_id, branch: value.branch, slug: value.slug }
    }
}

impl vstd::std_specs::convert::FromSpecImpl<EnrolledFeature> for FeatureExposureExtraDef {
    open spec fn obeys_from_spec() -> bool {
        true
    }

    open spec fn from_spec(value: EnrolledFeature) -> Self {
        FeatureExposureExtraDef {
            branch: value.branch,
            slug: value.slug,
            feature_id: value.feature_id,
        }
    }
}

/// The extra fields submitted when a feature configuration cannot be
/// interpreted.
#[derive(Debug, Clone)]
pub struct MalformedFeatureConfigExtraDef {
    pub slug: Option<String>,
    pub branch: Option<String>,
    pub feature_id: String,
    pub part: String,
}

impl Default for MalformedFeatureConfigExtraDef {
    fn default() -> (r: Self)
        ensures
            r.slug is None,
            r.branch is None,
            r.feature_id@ == Seq::<char>::empty(),
            r.part@ == Seq::<char>::empty(),
    {
        MalformedFeatureConfigExtraDef {
            slug: None,
            branch: None,
            feature_id: String::new(),
            part: String::new(),
        }
    }
}

impl MalformedFeatureConfigExtraDef {
    /// The malformed-config fields for a feature of an enrolled branch.
    pub fn from_feature_and_part(value: EnrolledFeature, part: String) -> (r: Self)
        ensures
            r.slug == Some(value.slug),
            r.branch == value.branch,
            r.feature_id == value.feature_id,
            r.part == part,
    {
        Self { slug: Some(value.slug), branch: value.branch, feature_id: value.feature_id, part }
    }

    /// The malformed-config fields when no enrollment is known: only the
    /// feature and the offending part are recorded.
    pub fn new(feature_id: String, part: String) -> (r: Self)
        ensures
            r.slug is None,
            r.branch is None,
            r.feature_id == feature_id,
            r.part == part,
    {
        Self { slug: None, branch: None, feature_id, part }
    }
}

/// The metrics recorder implemented by the host application.
pub trait MetricsHandler {
    fn record_enrollment_statuses(&self, enrollment_status_extras: Vec<EnrollmentStatusExtraDef>);

    fn record_feature_activation(&self, event: FeatureExposureExtraDef);

    fn record_feature_exposure(&self, event: FeatureExposureExtraDef);

    fn record_malformed_feature_config(&self, event: MalformedFeatureConfigExtraDef);

    fn submit_targeting_context(&self);
}

} // verus!
