//! The records that clients store.

use vstd::prelude::*;

verus! {

/// A single text blob (typically JSON) to persist under a numeric id.
/// Its expiration comes from the metadata and defaults to one day.
pub struct KeyValue {
    pub key: u32,
    pub value: String,
    pub metadata: Option<MetaData>,
}

/// Metadata kept with a [`KeyValue`]: format, tags, expiration and creation
/// date.
pub struct MetaData {
    /// Format of the data in the body, e.g. JSON.
    pub format: String,
    /// Comma separated list of tags.
    pub tags: String,
    /// How long the record lives: `1h`, `1hr`, `1d`, `1day`, `1yr`, `1month`, ...
    pub expiration: String,
    /// Date created, e.g. `20220805.191107`.
    pub created: String,
}

} // verus!
