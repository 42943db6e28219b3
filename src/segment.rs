use vstd::prelude::*;

use crate::error::{MetadataValueConversionError, SegmentConversionError, SegmentScopeConversionError};
use crate::metadata::{
    all_values_present, metadata_try_from_update, present_values, Metadata, UpdateMetadata,
};
use crate::scope::{scope_of_code, SegmentScope};
use crate::segment_type::{type_of_wire, SegmentType};
use crate::str_map::StrMap;
use crate::wire::{json_parses, parse_json, parse_uuid, uuid_of};

verus! {

/// A segment or collection identifier: the 128-bit value of a UUID.
#[derive(Clone, Copy, Debug, PartialEq, Eq, Structural, Hash)]
pub struct Identifier {
    pub value: u128,
}

impl Identifier {
    /// The all-zero identifier.
    pub fn nil() -> (r: Identifier)
        ensures
            r.value == 0,
    {
        Identifier { value: 0 }
    }

    /// Parses the text form of a UUID.
    pub fn parse(s: &str) -> (r: Option<Identifier>)
        ensures
            match uuid_of(s@) {
                Some(v) => r == Some(Identifier { value: v }),
                None => r is None,
            },
    {
        match parse_uuid(s) {
            Some(v) => Some(Identifier { value: v }),
            None => None,
        }
    }
}

/// A segment as it arrives on the wire, not yet validated.
#[derive(Debug)]
pub struct SegmentDescriptor {
    pub id: String,
    pub segment_type: String,
    pub scope: i32,
    pub collection: Option<String>,
    pub metadata: Option<UpdateMetadata>,
    pub file_paths: StrMap<Vec<String>>,
    pub configuration_json_str: Option<String>,
}

/// A validated segment.
#[derive(Debug)]
pub struct Segment {
    pub id: Identifier,
    pub segment_type: SegmentType,
    pub scope: SegmentScope,
    pub collection: Option<Identifier>,
    pub metadata: Option<Metadata>,
    pub file_path: StrMap<Vec<String>>,
    pub configuration_json: Option<serde_json::Value>,
}

/// Both the segment id and the (required) collection id spell UUIDs.
pub open spec fn ids_valid(d: SegmentDescriptor) -> bool {
    uuid_of(d.id@) is Some && (d.collection matches Some(c) && uuid_of(c@) is Some)
}

/// Absent metadata, or metadata whose every entry carries a value.
pub open spec fn metadata_valid(d: SegmentDescriptor) -> bool {
    d.metadata matches Some(m) ==> all_values_present(m.entries())
}

pub open spec fn scope_valid(d: SegmentDescriptor) -> bool {
    scope_of_code(d.scope) is Some
}

pub open spec fn type_valid(d: SegmentDescriptor) -> bool {
    type_of_wire(d.segment_type@) is Some
}

/// Absent configuration, or configuration that is well-formed JSON text.
pub open spec fn configuration_valid(d: SegmentDescriptor) -> bool {
    d.configuration_json_str matches Some(s) ==> json_parses(s@)
}

pub open spec fn descriptor_valid(d: SegmentDescriptor) -> bool {
    ids_valid(d) && metadata_valid(d) && scope_valid(d) && type_valid(d) && configuration_valid(d)
}

/// `s` is the segment that the valid descriptor `d` describes.
pub open spec fn describes(d: SegmentDescriptor, s: Segment) -> bool {
    &&& s.id == (Identifier { value: uuid_of(d.id@)->0 })
    &&& s.collection == Some(Identifier { value: uuid_of(d.collection->0@)->0 })
    &&& match d.metadata {
        None => s.metadata is None,
        Some(m) => s.metadata matches Some(sm) && sm.entries() == present_values(m.entries()),
    }
    &&& s.scope == scope_of_code(d.scope)->0
    &&& s.segment_type == type_of_wire(d.segment_type@)->0
    &&& s.file_path == d.file_paths
    &&& (s.configuration_json is Some <==> d.configuration_json_str is Some)
}

impl Segment {
    /// Validates a wire descriptor into a segment. Fields are checked in a
    /// fixed order (id, collection, metadata, scope, type, configuration) and
    /// the first invalid one decides the error.
    pub fn try_from(descriptor: SegmentDescriptor) -> (r: Result<Segment, SegmentConversionError>)
        ensures
            r is Ok <==> descriptor_valid(descriptor),
            r matches Ok(s) ==> describes(descriptor, s),
            !ids_valid(descriptor) ==> r matches Err(SegmentConversionError::InvalidUuid),
            ids_valid(descriptor) && !metadata_valid(descriptor) ==> r matches Err(
                SegmentConversionError::MetadataValueConversionError(
                    MetadataValueConversionError::InvalidValue,
                ),
            ),
            ids_valid(descriptor) && metadata_valid(descriptor) && !scope_valid(descriptor) ==> r matches Err(
                SegmentConversionError::SegmentScopeConversionError(
                    SegmentScopeConversionError::InvalidScope,
                ),
            ),
            ids_valid(descriptor) && metadata_valid(descriptor) && scope_valid(descriptor)
                && !type_valid(descriptor) ==> r matches Err(
                SegmentConversionError::InvalidSegmentType,
            ),
            ids_valid(descriptor) && metadata_valid(descriptor) && scope_valid(descriptor)
                && type_valid(descriptor) && !configuration_valid(descriptor) ==> r matches Err(
                SegmentConversionError::SerdeJsonError(_),
            ),
    {
        let SegmentDescriptor {
            id,
            segment_type,
            scope,
            collection,
            metadata,
            file_paths,
            configuration_json_str,
        } = descriptor;
        let segment_id = match Identifier::parse(id.as_str()) {
            Some(v) => v,
            None => return Err(SegmentConversionError::InvalidUuid),
        };
        let collection_id = match collection {
            Some(c) => match Identifier::parse(c.as_str()) {
                Some(v) => v,
                None => return Err(SegmentConversionError::InvalidUuid),
            },
            None => return Err(SegmentConversionError::InvalidUuid),
        };
        let segment_metadata = match metadata {
            Some(m) => match metadata_try_from_update(m) {
                Ok(converted) => Some(converted),
                Err(e) => return Err(SegmentConversionError::MetadataValueConversionError(e)),
            },
            None => None,
        };
        let segment_scope = match SegmentScope::try_from_code(scope) {
            Ok(s) => s,
            Err(e) => return Err(SegmentConversionError::SegmentScopeConversionError(e)),
        };
        let kind = match SegmentType::try_from(segment_type.as_str()) {
            Ok(t) => t,
            Err(e) => return Err(e),
        };
        let configuration_json = match configuration_json_str {
            Some(text) => match parse_json(text.as_str()) {
                Ok(value) => Some(value),
                Err(e) => return Err(SegmentConversionError::SerdeJsonError(e)),
            },
            None => None,
        };
        Ok(
            Segment {
                id: segment_id,
                segment_type: kind,
                scope: segment_scope,
                collection: Some(collection_id),
                metadata: segment_metadata,
                file_path: file_paths,
                configuration_json,
            },
        )
    }
}

} // verus!
