use vstd::prelude::*;

verus! {

/// Ways in which decoding a save can fail.
#[derive(Clone, Copy, Debug, PartialEq, Eq, Structural)]
pub enum DecodeError {
    /// A field would be read or written past the end of its span.
    Bounds,
    /// The buffer does not hold a whole save slot at the chosen offset.
    TruncatedInput,
    /// No section of the slot carries the trainer id.
    SectionNotFound,
}

} // verus!
