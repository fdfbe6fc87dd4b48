//! Wire type descriptors: the tag and the declared byte width of a column or
//! parameter.

use crate::fault::Fault;
use vstd::prelude::*;

verus! {

/// The tag of a wire type.
#[derive(Clone, Copy, Debug, PartialEq, Eq, Structural)]
pub enum DataType {
    /// Date and time, eight bytes.
    DateTime,
    /// Fixed-length binary data.
    BigBinary,
}

/// The descriptor of a wire type.
#[derive(Clone, Copy, Debug, PartialEq, Eq, Structural)]
pub struct TypeInfo {
    /// The tag.
    pub ty: DataType,
    /// The declared width in bytes.
    pub size: u32,
}

/// The host types that the codec handles.
#[derive(Clone, Copy, Debug, PartialEq, Eq, Structural)]
pub enum HostKind {
    /// A date and time without a zone.
    NaiveDateTime,
    /// A date and time in UTC.
    DateTimeUtc,
    /// A date and time in the local zone.
    DateTimeLocal,
    /// An eight-byte row-version token.
    RowVersion,
}

impl TypeInfo {
    /// Makes the descriptor with tag `ty` and declared width `size`.
    pub fn new(ty: DataType, size: u32) -> (info: TypeInfo)
        ensures
            info == (TypeInfo { ty, size }),
    {
        TypeInfo { ty, size }
    }
}

/// The wire type of each host type.
pub open spec fn wire_type(kind: HostKind) -> TypeInfo {
    match kind {
        HostKind::NaiveDateTime | HostKind::DateTimeUtc | HostKind::DateTimeLocal => TypeInfo {
            ty: DataType::DateTime,
            size: 8,
        },
        HostKind::RowVersion => TypeInfo { ty: DataType::BigBinary, size: 8 },
    }
}

/// Maps a host type to its wire type descriptor. Every date and time type is
/// announced as `DateTime` and the row-version token as `BigBinary`, each
/// eight bytes wide.
pub fn resolve(kind: HostKind) -> (info: TypeInfo)
    ensures
        info == wire_type(kind),
        info.size == 8,
{
    match kind {
        HostKind::NaiveDateTime => TypeInfo::new(DataType::DateTime, 8),
        HostKind::DateTimeUtc => TypeInfo::new(DataType::DateTime, 8),
        HostKind::DateTimeLocal => TypeInfo::new(DataType::DateTime, 8),
        HostKind::RowVersion => TypeInfo::new(DataType::BigBinary, 8),
    }
}

/// Whether a column or parameter that `info` describes carries values of the
/// host type `kind`: it does where `info` is the wire type of `kind`. Another
/// tag is a wire type that the host type does not handle; the same tag with
/// another width is a mismatch of the metadata.
pub open spec fn compatibility(kind: HostKind, info: TypeInfo) -> Result<(), Fault> {
    if info.ty != wire_type(kind).ty {
        Err(Fault::UnsupportedVariant)
    } else if info.size != wire_type(kind).size {
        Err(Fault::MetadataMismatch)
    } else {
        Ok(())
    }
}

/// Checks that a column or parameter that `info` describes carries values of
/// the host type `kind`.
pub fn check_compatible(kind: HostKind, info: &TypeInfo) -> (checked: Result<(), Fault>)
    ensures
        checked == compatibility(kind, *info),
        checked is Ok <==> *info == wire_type(kind),
{
    let expected = resolve(kind);
    if info.ty != expected.ty {
        Err(Fault::UnsupportedVariant)
    } else if info.size != expected.size {
        Err(Fault::MetadataMismatch)
    } else {
        Ok(())
    }
}

} // verus!
