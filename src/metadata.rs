use vstd::prelude::*;

use crate::error::MetadataValueConversionError;
use crate::str_map::{unique_keys, StrMap};

verus! {

/// A typed metadata value.
#[derive(Clone, Debug, PartialEq)]
pub enum MetadataValue {
    Int(i64),
    /// The IEEE-754 binary64 bit pattern of a floating-point value.
    Float(u64),
    Str(String),
}

/// Validated segment metadata: key to typed value.
pub type Metadata = StrMap<MetadataValue>;

/// Metadata as it arrives on the wire, where an entry may carry no value.
pub type UpdateMetadata = StrMap<Option<MetadataValue>>;

/// Every entry of `s` carries a value.
pub open spec fn all_values_present(s: Seq<(String, Option<MetadataValue>)>) -> bool {
    forall|i: int| 0 <= i < s.len() ==> s[i].1 is Some
}

/// The entries of `s` with each value taken out of its `Option`.
pub open spec fn present_values(s: Seq<(String, Option<MetadataValue>)>) -> Seq<
    (String, MetadataValue),
> {
    s.map_values(|e: (String, Option<MetadataValue>)| (e.0, e.1->0))
}

/// Converts wire metadata into typed metadata, keeping keys and their order;
/// an entry without a value rejects the whole metadata.
pub fn metadata_try_from_update(update: UpdateMetadata) -> (r: Result<
    Metadata,
    MetadataValueConversionError,
>)
    ensures
        all_values_present(update.entries()) ==> (r matches Ok(m) && m.entries() == present_values(
            update.entries(),
        )),
        !all_values_present(update.entries()) ==> r == Err::<Metadata, MetadataValueConversionError>(
            MetadataValueConversionError::InvalidValue,
        ),
{
    let mut rest = update.into_entries();
    let ghost orig = rest@;
    let mut out: Vec<(String, MetadataValue)> = Vec::new();
    while rest.len() > 0
        invariant
            orig == update.entries(),
            unique_keys(orig),
            orig.len() == out@.len() + rest@.len(),
            rest@ == orig.skip(out@.len() as int),
            out@ == present_values(orig.take(out@.len() as int)),
            all_values_present(orig.take(out@.len() as int)),
        decreases rest@.len(),
    {
        let ghost n = out@.len() as int;
        let (key, value) = rest.remove(0);
        assert(orig[n] == (key, value));
        match value {
            Some(v) => {
                out.push((key, v));
                assert(orig.take(n + 1) =~= orig.take(n).push(orig[n]));
                assert(rest@ =~= orig.skip(n + 1));
                assert(out@ =~= present_values(orig.take(n + 1)));
            },
            None => {
                assert(orig[n].1 is None);
                return Err(MetadataValueConversionError::InvalidValue);
            },
        }
    }
    assert(orig.take(out@.len() as int) =~= orig);
    assert(unique_keys(out@)) by {
        assert forall|i: int, j: int| 0 <= i < j < out@.len() implies out@[i].0@ != out@[j].0@ by {
            assert(out@[i].0 == orig[i].0);
            assert(out@[j].0 == orig[j].0);
        }
    }
    Ok(StrMap::from_unique_entries(out))
}

} // verus!
