//! The closed set of ways a deployment fails.

use vstd::prelude::*;

verus! {

/// The text of an underlying failure, as reported by whoever made the call.
#[derive(Clone, Debug, PartialEq, Eq)]
pub struct Cause {
    /// What the failure prints for a reader.
    pub message: String,
    /// What the failure prints for a developer, with its inner structure.
    pub detail: String,
}

/// The mathematical value of a [`Cause`].
pub struct CauseView {
    pub message: Seq<char>,
    pub detail: Seq<char>,
}

impl View for Cause {
    type V = CauseView;

    open spec fn view(&self) -> CauseView {
        CauseView { message: self.message@, detail: self.detail@ }
    }
}

impl Cause {
    /// A copy of this cause.
    pub fn duplicate(&self) -> (r: Cause)
        ensures
            r@ == self@,
    {
        Cause { message: self.message.clone(), detail: self.detail.clone() }
    }
}

/// Which failure an [`Error`] is, without its cause.
#[derive(Clone, Copy, Debug, PartialEq, Eq, Structural)]
pub enum ErrorKind {
    /// The stack has no output under the name that was asked for.
    StackOutputNotFound,
    /// A polled resource reached a terminal state that is not success.
    UnusableStackStatus,
    /// The zone lookup matched no zone, or none with a usable identifier.
    ZoneNotFound,
    /// The orchestrator was handed an answer to something it had not asked.
    UnexpectedEvent,
    /// The stack provider rejected an update request.
    UpdateStackError,
    /// The zone directory could not be queried.
    ListHostedZonesByNameError,
    /// The stack provider rejected a create request.
    CreateStackError,
    /// The stack could not be described.
    DescribeStacksError,
    /// The identity check failed.
    GetCallerIdentityError,
    /// The storage provider rejected an object.
    PutObjectError,
    /// The CDN rejected an invalidation request.
    CreateInvalidationError,
    /// The invalidation could not be read back.
    GetInvalidationError,
    /// A file to upload could not be opened as a byte stream.
    UploadStreamError,
    /// The diagnostic output could not be set up.
    TracingConfigurationError,
    /// The local directory could not be read.
    IOError,
    /// A bounded wait ran out while the resource was still changing.
    TimedOut,
}

/// Why a deployment stopped.
#[derive(Clone, Debug, PartialEq, Eq)]
pub enum Error {
    /// The stack has no output under the name that was asked for.
    StackOutputNotFound,
    /// A polled resource reached a terminal state that is not success.
    UnusableStackStatus,
    /// The zone lookup matched no zone, or none with a usable identifier.
    ZoneNotFound,
    /// The orchestrator was handed an answer to something it had not asked.
    UnexpectedEvent,
    /// The stack provider rejected an update request.
    UpdateStackError { source: Cause },
    /// The zone directory could not be queried.
    ListHostedZonesByNameError { source: Cause },
    /// The stack provider rejected a create request.
    CreateStackError { source: Cause },
    /// The stack could not be described.
    DescribeStacksError { source: Cause },
    /// The identity check failed.
    GetCallerIdentityError { source: Cause },
    /// The storage provider rejected an object.
    PutObjectError { source: Cause },
    /// The CDN rejected an invalidation request.
    CreateInvalidationError { source: Cause },
    /// The invalidation could not be read back.
    GetInvalidationError { source: Cause },
    /// A file to upload could not be opened as a byte stream.
    UploadStreamError { source: Cause },
    /// The diagnostic output could not be set up.
    TracingConfigurationError { source: Cause },
    /// The local directory could not be read.
    IOError { source: Cause },
    /// A bounded wait ran out while the resource was still changing.
    TimedOut { source: Cause },
}

/// The mathematical value of an [`Error`]: its kind and, where the failure
/// came from a call that was made, that call's own report.
pub struct ErrorView {
    pub kind: ErrorKind,
    pub source: Option<CauseView>,
}

impl View for Error {
    type V = ErrorView;

    open spec fn view(&self) -> ErrorView {
        match self {
            Error::StackOutputNotFound => ErrorView { kind: ErrorKind::StackOutputNotFound, source: None },
            Error::UnusableStackStatus => ErrorView { kind: ErrorKind::UnusableStackStatus, source: None },
            Error::ZoneNotFound => ErrorView { kind: ErrorKind::ZoneNotFound, source: None },
            Error::UnexpectedEvent => ErrorView { kind: ErrorKind::UnexpectedEvent, source: None },
            Error::UpdateStackError { source } => ErrorView {
                kind: ErrorKind::UpdateStackError,
                source: Some(source@),
            },
            Error::ListHostedZonesByNameError { source } => ErrorView {
                kind: ErrorKind::ListHostedZonesByNameError,
                source: Some(source@),
            },
            Error::CreateStackError { source } => ErrorView {
                kind: ErrorKind::CreateStackError,
                source: Some(source@),
            },
            Error::DescribeStacksError { source } => ErrorView {
                kind: ErrorKind::DescribeStacksError,
                source: Some(source@),
            },
            Error::GetCallerIdentityError { source } => ErrorView {
                kind: ErrorKind::GetCallerIdentityError,
                source: Some(source@),
            },
            Error::PutObjectError { source } => ErrorView {
                kind: ErrorKind::PutObjectError,
                source: Some(source@),
            },
            Error::CreateInvalidationError { source } => ErrorView {
                kind: ErrorKind::CreateInvalidationError,
                source: Some(source@),
            },
            Error::GetInvalidationError { source } => ErrorView {
                kind: ErrorKind::GetInvalidationError,
                source: Some(source@),
            },
            Error::UploadStreamError { source } => ErrorView {
                kind: ErrorKind::UploadStreamError,
                source: Some(source@),
            },
            Error::TracingConfigurationError { source } => ErrorView {
                kind: ErrorKind::TracingConfigurationError,
                source: Some(source@),
            },
            Error::IOError { source } => ErrorView {
                kind: ErrorKind::IOError,
                source: Some(source@),
            },
            Error::TimedOut { source } => ErrorView {
                kind: ErrorKind::TimedOut,
                source: Some(source@),
            },
        }
    }
}

/// The error for a resource that reached a terminal state other than success.
pub open spec fn unusable_state() -> ErrorView {
    ErrorView { kind: ErrorKind::UnusableStackStatus, source: None }
}

/// The error for a call that failed, with the call's own report.
pub open spec fn call_failed(kind: ErrorKind, cause: CauseView) -> ErrorView {
    ErrorView { kind, source: Some(cause) }
}

/// Whether failures of this kind carry the report of a call that failed.
pub open spec fn has_source(kind: ErrorKind) -> bool {
    match kind {
        ErrorKind::StackOutputNotFound
        | ErrorKind::UnusableStackStatus
        | ErrorKind::ZoneNotFound
        | ErrorKind::UnexpectedEvent => false,
        _ => true,
    }
}

/// The one-line description of each kind of failure.
pub open spec fn message_text(kind: ErrorKind) -> Seq<char> {
    match kind {
        ErrorKind::StackOutputNotFound => "Stack output not found"@,
        ErrorKind::UnusableStackStatus => "Encountered unusuable stack status"@,
        ErrorKind::ZoneNotFound => "No hosted zone found for the domain zone"@,
        ErrorKind::UnexpectedEvent => "Received an answer that was not asked for"@,
        ErrorKind::UpdateStackError => "UpdateStack failed"@,
        ErrorKind::ListHostedZonesByNameError => "ListHostedZonesByName failed"@,
        ErrorKind::CreateStackError => "CreateStack failed"@,
        ErrorKind::DescribeStacksError => "DescribeStacks failed"@,
        ErrorKind::GetCallerIdentityError => "GetCallerIdentity failed"@,
        ErrorKind::PutObjectError => "PutObject failed"@,
        ErrorKind::CreateInvalidationError => "CreateInvalidation failed"@,
        ErrorKind::GetInvalidationError => "GetInvalidation failed"@,
        ErrorKind::UploadStreamError => "Upload stream error"@,
        ErrorKind::TracingConfigurationError => "Couldn't configure tracing provider"@,
        ErrorKind::IOError => "IO Error"@,
        ErrorKind::TimedOut => "Timed out"@,
    }
}

impl ErrorKind {
    /// The one-line description of this kind of failure.
    pub fn message(self) -> (r: String)
        ensures
            r@ == message_text(self),
    {
        match self {
            ErrorKind::StackOutputNotFound => "Stack output not found".to_owned(),
            ErrorKind::UnusableStackStatus => "Encountered unusuable stack status".to_owned(),
            ErrorKind::ZoneNotFound => "No hosted zone found for the domain zone".to_owned(),
            ErrorKind::UnexpectedEvent => "Received an answer that was not asked for".to_owned(),
            ErrorKind::UpdateStackError => "UpdateStack failed".to_owned(),
            ErrorKind::ListHostedZonesByNameError => "ListHostedZonesByName failed".to_owned(),
            ErrorKind::CreateStackError => "CreateStack failed".to_owned(),
            ErrorKind::DescribeStacksError => "DescribeStacks failed".to_owned(),
            ErrorKind::GetCallerIdentityError => "GetCallerIdentity failed".to_owned(),
            ErrorKind::PutObjectError => "PutObject failed".to_owned(),
            ErrorKind::CreateInvalidationError => "CreateInvalidation failed".to_owned(),
            ErrorKind::GetInvalidationError => "GetInvalidation failed".to_owned(),
            ErrorKind::UploadStreamError => "Upload stream error".to_owned(),
            ErrorKind::TracingConfigurationError => "Couldn't configure tracing provider".to_owned(),
            ErrorKind::IOError => "IO Error".to_owned(),
            ErrorKind::TimedOut => "Timed out".to_owned(),
        }
    }
}

impl Error {
    /// Which failure this is.
    pub fn kind(&self) -> (r: ErrorKind)
        ensures
            r == self@.kind,
    {
        match self {
            Error::StackOutputNotFound => ErrorKind::StackOutputNotFound,
            Error::UnusableStackStatus => ErrorKind::UnusableStackStatus,
            Error::ZoneNotFound => ErrorKind::ZoneNotFound,
            Error::UnexpectedEvent => ErrorKind::UnexpectedEvent,
            Error::UpdateStackError { .. } => ErrorKind::UpdateStackError,
            Error::ListHostedZonesByNameError { .. } => ErrorKind::ListHostedZonesByNameError,
            Error::CreateStackError { .. } => ErrorKind::CreateStackError,
            Error::DescribeStacksError { .. } => ErrorKind::DescribeStacksError,
            Error::GetCallerIdentityError { .. } => ErrorKind::GetCallerIdentityError,
            Error::PutObjectError { .. } => ErrorKind::PutObjectError,
            Error::CreateInvalidationError { .. } => ErrorKind::CreateInvalidationError,
            Error::GetInvalidationError { .. } => ErrorKind::GetInvalidationError,
            Error::UploadStreamError { .. } => ErrorKind::UploadStreamError,
            Error::TracingConfigurationError { .. } => ErrorKind::TracingConfigurationError,
            Error::IOError { .. } => ErrorKind::IOError,
            Error::TimedOut { .. } => ErrorKind::TimedOut,
        }
    }

    /// The one-line description of this failure.
    pub fn message(&self) -> (r: String)
        ensures
            r@ == message_text(self@.kind),
    {
        self.kind().message()
    }

    /// The report of the call behind this failure, for the kinds that have one.
    pub fn source(&self) -> (r: Option<&Cause>)
        ensures
            r is Some <==> has_source(self@.kind),
            match r {
                Some(cause) => self@.source == Some(cause@),
                None => self@.source is None,
            },
    {
        match self {
            Error::StackOutputNotFound
            | Error::UnusableStackStatus
            | Error::ZoneNotFound
            | Error::UnexpectedEvent => None,
            Error::UpdateStackError { source } => Some(source),
            Error::ListHostedZonesByNameError { source } => Some(source),
            Error::CreateStackError { source } => Some(source),
            Error::DescribeStacksError { source } => Some(source),
            Error::GetCallerIdentityError { source } => Some(source),
            Error::PutObjectError { source } => Some(source),
            Error::CreateInvalidationError { source } => Some(source),
            Error::GetInvalidationError { source } => Some(source),
            Error::UploadStreamError { source } => Some(source),
            Error::TracingConfigurationError { source } => Some(source),
            Error::IOError { source } => Some(source),
            Error::TimedOut { source } => Some(source),
        }
    }

    /// A copy of this failure.
    pub fn duplicate(&self) -> (r: Error)
        ensures
            r@ == self@,
    {
        match self {
            Error::StackOutputNotFound => Error::StackOutputNotFound,
            Error::UnusableStackStatus => Error::UnusableStackStatus,
            Error::ZoneNotFound => Error::ZoneNotFound,
            Error::UnexpectedEvent => Error::UnexpectedEvent,
            Error::UpdateStackError { source } => Error::UpdateStackError { source: source.duplicate() },
            Error::ListHostedZonesByNameError { source } => Error::ListHostedZonesByNameError { source: source.duplicate() },
            Error::CreateStackError { source } => Error::CreateStackError { source: source.duplicate() },
            Error::DescribeStacksError { source } => Error::DescribeStacksError { source: source.duplicate() },
            Error::GetCallerIdentityError { source } => Error::GetCallerIdentityError { source: source.duplicate() },
            Error::PutObjectError { source } => Error::PutObjectError { source: source.duplicate() },
            Error::CreateInvalidationError { source } => Error::CreateInvalidationError { source: source.duplicate() },
            Error::GetInvalidationError { source } => Error::GetInvalidationError { source: source.duplicate() },
            Error::UploadStreamError { source } => Error::UploadStreamError { source: source.duplicate() },
            Error::TracingConfigurationError { source } => Error::TracingConfigurationError { source: source.duplicate() },
            Error::IOError { source } => Error::IOError { source: source.duplicate() },
            Error::TimedOut { source } => Error::TimedOut { source: source.duplicate() },
        }
    }
}

} // verus!
