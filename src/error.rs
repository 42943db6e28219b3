use vstd::prelude::*;

verus! {

/// Coarse, transport-level codes shared by every error of the worker.
#[derive(Clone, Copy, Debug, PartialEq, Eq, Structural)]
pub enum ErrorCodes {
    Success,
    Cancelled,
    Unknown,
    InvalidArgument,
    DeadlineExceeded,
    NotFound,
    AlreadyExists,
    PermissionDenied,
    ResourceExhausted,
    FailedPrecondition,
    Aborted,
    OutOfRange,
    Unimplemented,
    Internal,
    Unavailable,
    DataLoss,
    Unauthenticated,
}

/// A metadata entry on the wire carried no value.
#[derive(Clone, Copy, Debug, PartialEq, Eq, Structural)]
pub enum MetadataValueConversionError {
    InvalidValue,
}

impl MetadataValueConversionError {
    pub open spec fn spec_code(&self) -> ErrorCodes {
        ErrorCodes::InvalidArgument
    }

    pub fn code(&self) -> (r: ErrorCodes)
        ensures
            r == self.spec_code(),
    {
        ErrorCodes::InvalidArgument
    }
}

/// A segment scope code on the wire named no known scope.
#[derive(Clone, Copy, Debug, PartialEq, Eq, Structural)]
pub enum SegmentScopeConversionError {
    InvalidScope,
}

impl SegmentScopeConversionError {
    pub open spec fn spec_code(&self) -> ErrorCodes {
        ErrorCodes::InvalidArgument
    }

    pub fn code(&self) -> (r: ErrorCodes)
        ensures
            r == self.spec_code(),
    {
        ErrorCodes::InvalidArgument
    }
}

/// Why a segment descriptor was rejected.
#[derive(Debug)]
pub enum SegmentConversionError {
    InvalidUuid,
    MetadataValueConversionError(MetadataValueConversionError),
    SegmentScopeConversionError(SegmentScopeConversionError),
    InvalidSegmentType,
    SerdeJsonError(serde_json::Error),
}

impl SegmentConversionError {
    /// Local failures are invalid arguments; delegated ones keep their own code.
    pub open spec fn spec_code(&self) -> ErrorCodes {
        match self {
            SegmentConversionError::InvalidUuid => ErrorCodes::InvalidArgument,
            SegmentConversionError::InvalidSegmentType => ErrorCodes::InvalidArgument,
            SegmentConversionError::SegmentScopeConversionError(e) => e.spec_code(),
            SegmentConversionError::MetadataValueConversionError(e) => e.spec_code(),
            SegmentConversionError::SerdeJsonError(_) => ErrorCodes::InvalidArgument,
        }
    }

    pub fn code(&self) -> (r: ErrorCodes)
        ensures
            r == self.spec_code(),
    {
        match self {
            SegmentConversionError::InvalidUuid => ErrorCodes::InvalidArgument,
            SegmentConversionError::InvalidSegmentType => ErrorCodes::InvalidArgument,
            SegmentConversionError::SegmentScopeConversionError(e) => e.code(),
            SegmentConversionError::MetadataValueConversionError(e) => e.code(),
            SegmentConversionError::SerdeJsonError(_) => ErrorCodes::InvalidArgument,
        }
    }
}

} // verus!
