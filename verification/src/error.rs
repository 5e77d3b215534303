use vstd::prelude::*;

verus! {

/// Failures a caller can observe while decoding GRIB2 messages.
///
/// Structural failures (`MalformedSection`, `IncompleteMessage`) abort the
/// construction of a single message; semantic failures (the remaining
/// variants) are ordinary recoverable results of the accessors.
#[derive(Debug, Clone, PartialEq, Eq)]
pub enum GribError {
    /// A section's declared length exceeds the remaining buffer, its section
    /// number is outside the legal set, or a fixed magic marker is wrong.
    MalformedSection,
    /// The buffer ended, or a section arrived out of order, before all
    /// mandatory sections of one message were seen.
    IncompleteMessage,
    /// A structurally valid section uses a template discriminator that this
    /// library does not implement; the payload is a human-readable cause.
    UnsupportedTemplate(String),
    /// A (discipline, category, number) triple absent from the lookup tables.
    UnknownParameter,
    /// A requested coordinate lies outside the grid extent.
    OutOfBounds,
    /// The bitmap marks the requested grid position as holding no data.
    NoDataAtIndex,
}

} // verus!
