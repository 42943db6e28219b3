use vstd::prelude::*;

use crate::error::SegmentScopeConversionError;

verus! {

/// What kind of data a segment holds.
#[allow(non_camel_case_types)]
#[derive(Clone, Copy, Debug, PartialEq, Eq, Structural)]
pub enum SegmentScope {
    VECTOR,
    METADATA,
    RECORD,
    SQLITE,
}

/// The scope that a wire code names: 0 vector, 1 metadata, 2 record, 3 sqlite.
pub open spec fn scope_of_code(code: i32) -> Option<SegmentScope> {
    if code == 0 {
        Some(SegmentScope::VECTOR)
    } else if code == 1 {
        Some(SegmentScope::METADATA)
    } else if code == 2 {
        Some(SegmentScope::RECORD)
    } else if code == 3 {
        Some(SegmentScope::SQLITE)
    } else {
        None
    }
}

impl SegmentScope {
    /// Resolves a wire scope code; unknown codes are rejected.
    pub fn try_from_code(code: i32) -> (r: Result<SegmentScope, SegmentScopeConversionError>)
        ensures
            match scope_of_code(code) {
                Some(s) => r == Ok::<SegmentScope, SegmentScopeConversionError>(s),
                None => r == Err::<SegmentScope, SegmentScopeConversionError>(
                    SegmentScopeConversionError::InvalidScope,
                ),
            },
    {
        match code {
            0 => Ok(SegmentScope::VECTOR),
            1 => Ok(SegmentScope::METADATA),
            2 => Ok(SegmentScope::RECORD),
            3 => Ok(SegmentScope::SQLITE),
            _ => Err(SegmentScopeConversionError::InvalidScope),
        }
    }

    /// The wire code of this scope.
    pub fn code(&self) -> (r: i32)
        ensures
            scope_of_code(r) == Some(*self),
    {
        match self {
            SegmentScope::VECTOR => 0,
            SegmentScope::METADATA => 1,
            SegmentScope::RECORD => 2,
            SegmentScope::SQLITE => 3,
        }
    }
}

} // verus!
