//! The storage error taxonomy: the internal error type, the public API
//! error it is flattened into, and the reporting policy for each variant.
//!
//! Errors raised by collaborating subsystems (the database, the JSON
//! parser, the file system) are carried here by their textual
//! representation; the conversion rules below are about which public
//! variant and which report class each internal variant maps to.

use vstd::prelude::*;

verus! {

/// Which storage quota an operation exceeded.
#[derive(Debug, Clone, Copy)]
pub enum QuotaReason {
    TotalBytes,
    ItemBytes,
    MaxItems,
}

impl QuotaReason {
    /// The reason's display text.
    pub open spec fn spec_name(&self) -> Seq<char> {
        match self {
            QuotaReason::TotalBytes => "TotalBytes"@,
            QuotaReason::ItemBytes => "ItemBytes"@,
            QuotaReason::MaxItems => "MaxItems"@,
        }
    }

    /// The reason's display text, as a string.
    pub fn name(&self) -> (r: String)
        ensures
            r@ == self.spec_name(),
    {
        match self {
            QuotaReason::TotalBytes => "TotalBytes".to_owned(),
            QuotaReason::ItemBytes => "ItemBytes".to_owned(),
            QuotaReason::MaxItems => "MaxItems".to_owned(),
        }
    }
}

/// The internal error type.  Variants raised by collaborating subsystems
/// carry the textual representation of the underlying error.
#[derive(Debug, Clone)]
pub enum Error {
    QuotaError(QuotaReason),
    JsonError(String),
    SqlError(String),
    ConnectionAlreadyOpen,
    InvalidConnectionType,
    IoError(String),
    InterruptedError(String),
    WrongApiForClose,
    IllegalDatabasePath(String),
    Utf8Error(String),
    OpenDatabaseError(String),
    OtherConnectionReferencesExist,
    DatabaseConnectionClosed,
    SyncError(String),
}

/// Abstract form of a public API error, used in specifications.
pub enum ApiErrorView {
    Unexpected(Seq<char>),
    Json(Seq<char>),
    Quota(Seq<char>),
}

/// The error type of the public API surface.
#[derive(Debug, Clone)]
pub enum WebExtStorageApiError {
    UnexpectedError { reason: String },
    JsonError { reason: String },
    QuotaError { reason: String },
}

impl View for WebExtStorageApiError {
    type V = ApiErrorView;

    open spec fn view(&self) -> ApiErrorView {
        match self {
            WebExtStorageApiError::UnexpectedError { reason } => ApiErrorView::Unexpected(reason@),
            WebExtStorageApiError::JsonError { reason } => ApiErrorView::Json(reason@),
            WebExtStorageApiError::QuotaError { reason } => ApiErrorView::Quota(reason@),
        }
    }
}

/// The public error each internal error is flattened into: quota and JSON
/// errors keep their own variants, everything else becomes unexpected with
/// its textual representation as the reason.
pub open spec fn spec_api_error_of(e: &Error) -> ApiErrorView {
    match e {
        Error::QuotaError(r) => ApiErrorView::Quota(r.spec_name()),
        Error::JsonError(s) => ApiErrorView::Json(s@),
        Error::SqlError(s) => ApiErrorView::Unexpected(s@),
        Error::ConnectionAlreadyOpen => ApiErrorView::Unexpected("ConnectionAlreadyOpen"@),
        Error::InvalidConnectionType => ApiErrorView::Unexpected("InvalidConnectionType"@),
        Error::IoError(s) => ApiErrorView::Unexpected(s@),
        Error::InterruptedError(s) => ApiErrorView::Unexpected(s@),
        Error::WrongApiForClose => ApiErrorView::Unexpected("WrongApiForClose"@),
        Error::IllegalDatabasePath(p) => ApiErrorView::Unexpected("Path not found: "@ + p@),
        Error::Utf8Error(s) => ApiErrorView::Unexpected(s@),
        Error::OpenDatabaseError(s) => ApiErrorView::Unexpected(s@),
        Error::OtherConnectionReferencesExist => ApiErrorView::Unexpected(
            "OtherConnectionReferencesExist"@,
        ),
        Error::DatabaseConnectionClosed => ApiErrorView::Unexpected("DatabaseConnectionClosed"@),
        Error::SyncError(s) => ApiErrorView::Unexpected(s@),
    }
}

/// The class an internal error is reported under for crash statistics.
pub open spec fn spec_report_class(e: &Error) -> Seq<char> {
    match e {
        Error::QuotaError(_) => "webext-storage-quota-error"@,
        Error::JsonError(_) => "webext-storage-json-error"@,
        Error::SqlError(_) => "webext-storage-sql-error"@,
        Error::ConnectionAlreadyOpen => "webext-storage-connection-already-open"@,
        Error::InvalidConnectionType => "webext-storage-invalid-connection-type"@,
        Error::IoError(_) => "webext-storage-io-error"@,
        Error::InterruptedError(_) => "webext-storage-interrupted-error"@,
        Error::WrongApiForClose => "webext-storage-wrong-close-error"@,
        Error::IllegalDatabasePath(_) => "webext-storage-illegal-db-path-error"@,
        Error::Utf8Error(_) => "webext-storage-utf8-error"@,
        Error::OpenDatabaseError(_) => "webext-storage-open-db-error"@,
        Error::OtherConnectionReferencesExist => "webext-storage-other-connection-exists"@,
        Error::DatabaseConnectionClosed => "webext-storage-db-connection-closed"@,
        Error::SyncError(_) => "webext-storage-sync-error"@,
    }
}

/// Relies on `String::push_str`: appends the slice's characters to the
/// string.
#[verifier::external_body]
fn push_str(s: &mut String, suffix: &str)
    ensures
        final(s)@ == old(s)@ + suffix@,
{
    s.push_str(suffix);
}

impl WebExtStorageApiError {
    /// Flattens an internal error into the public error, per
    /// [`spec_api_error_of`].
    pub fn from_error(e: &Error) -> (r: WebExtStorageApiError)
        ensures
            r@ == spec_api_error_of(e),
    {
        match e {
            Error::QuotaError(q) => WebExtStorageApiError::QuotaError { reason: q.name() },
            Error::JsonError(s) => WebExtStorageApiError::JsonError { reason: s.clone() },
            Error::SqlError(s) => WebExtStorageApiError::UnexpectedError { reason: s.clone() },
            Error::ConnectionAlreadyOpen => WebExtStorageApiError::UnexpectedError {
                reason: "ConnectionAlreadyOpen".to_owned(),
            },
            Error::InvalidConnectionType => WebExtStorageApiError::UnexpectedError {
                reason: "InvalidConnectionType".to_owned(),
            },
            Error::IoError(s) => WebExtStorageApiError::UnexpectedError { reason: s.clone() },
            Error::InterruptedError(s) => WebExtStorageApiError::UnexpectedError {
                reason: s.clone(),
            },
            Error::WrongApiForClose => WebExtStorageApiError::UnexpectedError {
                reason: "WrongApiForClose".to_owned(),
            },
            Error::IllegalDatabasePath(p) => {
                let mut reason = "Path not found: ".to_owned();
                push_str(&mut reason, p.as_str());
                WebExtStorageApiError::UnexpectedError { reason }
            },
            Error::Utf8Error(s) => WebExtStorageApiError::UnexpectedError { reason: s.clone() },
            Error::OpenDatabaseError(s) => WebExtStorageApiError::UnexpectedError {
                reason: s.clone(),
            },
            Error::OtherConnectionReferencesExist => WebExtStorageApiError::UnexpectedError {
                reason: "OtherConnectionReferencesExist".to_owned(),
            },
            Error::DatabaseConnectionClosed => WebExtStorageApiError::UnexpectedError {
                reason: "DatabaseConnectionClosed".to_owned(),
            },
            Error::SyncError(s) => WebExtStorageApiError::UnexpectedError { reason: s.clone() },
        }
    }

    /// The error's display text.
    pub fn message(&self) -> (r: String)
        ensures
            match self {
                WebExtStorageApiError::UnexpectedError { reason } => r@
                    == "Unexpected webext-storage error: "@ + reason@,
                WebExtStorageApiError::JsonError { reason } => r@ == "Error parsing JSON data: "@
                    + reason@,
                WebExtStorageApiError::QuotaError { reason } => r@ == "Quota exceeded: "@
                    + reason@,
            },
    {
        match self {
            WebExtStorageApiError::UnexpectedError { reason } => {
                let mut r = "Unexpected webext-storage error: ".to_owned();
                push_str(&mut r, reason.as_str());
                r
            },
            WebExtStorageApiError::JsonError { reason } => {
                let mut r = "Error parsing JSON data: ".to_owned();
                push_str(&mut r, reason.as_str());
                r
            },
            WebExtStorageApiError::QuotaError { reason } => {
                let mut r = "Quota exceeded: ".to_owned();
                push_str(&mut r, reason.as_str());
                r
            },
        }
    }
}

/// How an internal error crosses the public API boundary: the public error
/// it converts to, and the class it is reported under for crash
/// statistics.
#[derive(Debug, Clone)]
pub struct ErrorHandling {
    pub err: WebExtStorageApiError,
    pub report_class: Option<String>,
}

impl Error {
    /// The handling policy for this error: every variant converts per
    /// [`spec_api_error_of`] and is reported under its own class.
    pub fn get_error_handling(&self) -> (r: ErrorHandling)
        ensures
            r.err@ == spec_api_error_of(self),
            r.report_class matches Some(c) && c@ == spec_report_class(self),
    {
        ErrorHandling {
            err: WebExtStorageApiError::from_error(self),
            report_class: Some(self.report_class_name()),
        }
    }

    /// The report class of this error, as a string.
    fn report_class_name(&self) -> (r: String)
        ensures
            r@ == spec_report_class(self),
    {
        match self {
            Error::QuotaError(_) => "webext-storage-quota-error".to_owned(),
            Error::JsonError(_) => "webext-storage-json-error".to_owned(),
            Error::SqlError(_) => "webext-storage-sql-error".to_owned(),
            Error::ConnectionAlreadyOpen => "webext-storage-connection-already-open".to_owned(),
            Error::InvalidConnectionType => "webext-storage-invalid-connection-type".to_owned(),
            Error::IoError(_) => "webext-storage-io-error".to_owned(),
            Error::InterruptedError(_) => "webext-storage-interrupted-error".to_owned(),
            Error::WrongApiForClose => "webext-storage-wrong-close-error".to_owned(),
            Error::IllegalDatabasePath(_) => "webext-storage-illegal-db-path-error".to_owned(),
            Error::Utf8Error(_) => "webext-storage-utf8-error".to_owned(),
            Error::OpenDatabaseError(_) => "webext-storage-open-db-error".to_owned(),
            Error::OtherConnectionReferencesExist => "webext-storage-other-connection-exists"
                .to_owned(),
            Error::DatabaseConnectionClosed => "webext-storage-db-connection-closed".to_owned(),
            Error::SyncError(_) => "webext-storage-sync-error".to_owned(),
        }
    }
}

} // verus!
