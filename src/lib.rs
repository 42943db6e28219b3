//! Validation of wire-format segment descriptors into typed, immutable segments.

pub mod error;
pub mod metadata;
pub mod scope;
pub mod segment;
pub mod segment_type;
pub mod str_map;
pub mod wire;

pub use error::{
    ErrorCodes, MetadataValueConversionError, SegmentConversionError, SegmentScopeConversionError,
};
pub use scope::SegmentScope;
pub use segment_type::SegmentType;
pub use str_map::StrMap;
pub use metadata::{metadata_try_from_update, Metadata, MetadataValue, UpdateMetadata};
pub use segment::{Identifier, Segment, SegmentDescriptor};
