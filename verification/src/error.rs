//! Error taxonomy for device enumeration, value parsing and property writes.

use vstd::prelude::*;

verus! {

/// Everything that can go wrong while enumerating devices, resolving a
/// selector, parsing a value string, or planning a property write.
///
/// Failures that carry context a caller needs to act on keep that context as
/// fields: `OutOfRange` reports the attempted value together with the bounds
/// the device itself reported.
#[derive(Clone, Copy, Debug, PartialEq, Eq, Structural)]
pub enum CamError {
    /// The provider session could not be initialized; the whole operation aborts.
    ProviderInitFailed,
    /// The provider failed to hand out its device list.
    DeviceEnumerationFailed,
    /// No device answers to the given index or stable path.
    DeviceNotFound,
    /// The named property is not in either of the device's property lists.
    PropertyNotFound,
    /// The name is not in the fixed property catalog.
    UnknownProperty,
    /// The property name is too long or holds a non-alphanumeric character.
    InvalidPropertyName,
    /// The camera selector is neither "all" nor a plain index in range.
    InvalidSelector,
    /// The value string is too long or holds a disallowed character.
    InvalidInput,
    /// The value string matches no label and is no decimal numeral.
    InvalidValue,
    /// The numeric value lies outside the range the device reported.
    OutOfRange { value: i32, min: i32, max: i32 },
    /// The provider rejected the write.
    SetFailed,
}

} // verus!
