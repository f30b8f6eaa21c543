//! The discriminant of a sum type: where it lies, how wide it is, and the
//! values that it takes.

use crate::constants::{
    DW_AT_alignment, DW_AT_discr, DW_TAG_base_type, DW_TAG_enumeration_type, DW_TAG_variant_part,
};
use crate::dwarf::{entry_attr, read_attr, AttrValue, Unit};
use crate::entry::{
    check_tag, get_align, get_attr_ref, get_data_member_location, get_size, get_type,
    spec_check_tag, spec_get_align, spec_get_attr_ref, spec_get_data_member_location, spec_get_size,
    spec_get_type, spec_to_usize, to_usize, Location, LocationSpec,
};
use crate::error::{ErrorKind, Failure};
use vstd::prelude::*;

verus! {

/// The integer type of a discriminant.
#[derive(Clone, Copy, Debug, PartialEq, Eq)]
pub enum DiscriminantType {
    U8,
    U16,
    U32,
    U64,
}

impl DiscriminantType {
    /// The unsigned integer type that is `size` bytes wide.
    pub open spec fn spec_of_size(size: u64) -> Result<DiscriminantType, Failure> {
        if size == 1 {
            Ok(DiscriminantType::U8)
        } else if size == 2 {
            Ok(DiscriminantType::U16)
        } else if size == 4 {
            Ok(DiscriminantType::U32)
        } else if size == 8 {
            Ok(DiscriminantType::U64)
        } else {
            Err(Failure::ValueMismatch)
        }
    }

    /// The discriminant type that a base type entry describes.
    pub open spec fn spec_from_die(unit: Unit, entry: usize) -> Result<DiscriminantType, Failure> {
        match spec_check_tag(unit, entry, DW_TAG_base_type) {
            Err(e) => Err(e),
            Ok(()) => match spec_get_size(unit, entry) {
                Err(e) => Err(e),
                Ok(size) => Self::spec_of_size(size),
            },
        }
    }

    /// The width in bytes.
    pub open spec fn spec_size(self) -> usize {
        match self {
            DiscriminantType::U8 => 1,
            DiscriminantType::U16 => 2,
            DiscriminantType::U32 => 4,
            DiscriminantType::U64 => 8,
        }
    }

    /// The unsigned integer type that is `size` bytes wide; any other
    /// width is a value that cannot be used.
    pub fn of_size(size: u64) -> (r: Result<DiscriminantType, ErrorKind>)
        ensures
            crate::entry::agrees(r, Self::spec_of_size(size)),
    {
        if size == 1 {
            Ok(DiscriminantType::U8)
        } else if size == 2 {
            Ok(DiscriminantType::U16)
        } else if size == 4 {
            Ok(DiscriminantType::U32)
        } else if size == 8 {
            Ok(DiscriminantType::U64)
        } else {
            Err(ErrorKind::ValueMismatch)
        }
    }

    /// Reads the integer type of a discriminant from the base type entry
    /// that describes it.
    pub fn from_die(unit: &Unit, entry: usize) -> (r: Result<DiscriminantType, ErrorKind>)
        ensures
            crate::entry::agrees(r, Self::spec_from_die(*unit, entry)),
    {
        match check_tag(unit, entry, DW_TAG_base_type) {
            Err(e) => Err(e),
            Ok(()) => match get_size(unit, entry) {
                Err(e) => Err(e),
                Ok(size) => Self::of_size(size),
            },
        }
    }

    /// The width in bytes.
    pub fn size(&self) -> (size: usize)
        ensures
            size == self.spec_size(),
    {
        match self {
            DiscriminantType::U8 => 1,
            DiscriminantType::U16 => 2,
            DiscriminantType::U32 => 4,
            DiscriminantType::U64 => 8,
        }
    }
}

/// A [`Discriminant`] as a mathematical value.
pub struct DiscriminantSpec {
    pub ty: DiscriminantType,
    pub align: usize,
    pub location: LocationSpec,
}

/// Where the discriminant of a sum type lies and how it is encoded.
#[derive(Debug)]
pub struct Discriminant {
    ty: DiscriminantType,
    align: usize,
    location: Location,
}

impl View for Discriminant {
    type V = DiscriminantSpec;

    closed spec fn view(&self) -> DiscriminantSpec {
        DiscriminantSpec { ty: self.ty, align: self.align, location: self.location@ }
    }
}

impl Clone for Discriminant {
    fn clone(&self) -> (copy: Discriminant)
        ensures
            copy@ == self@,
    {
        Discriminant { ty: self.ty, align: self.align, location: self.location.clone() }
    }
}

impl Discriminant {
    /// The discriminant of an enumeration: the enumeration's own bytes,
    /// read as its underlying integer type.
    pub open spec fn spec_from_dw_tag_enumeration_type(unit: Unit, entry: usize) -> Result<
        DiscriminantSpec,
        Failure,
    > {
        match spec_check_tag(unit, entry, DW_TAG_enumeration_type) {
            Err(e) => Err(e),
            Ok(()) => match spec_get_type(unit, entry) {
                Err(e) => Err(e),
                Ok(ty_entry) => match DiscriminantType::spec_from_die(unit, ty_entry) {
                    Err(e) => Err(e),
                    Ok(ty) => match spec_get_align(unit, entry) {
                        Err(e) => Err(e),
                        Ok(align) => match spec_to_usize(align) {
                            Err(e) => Err(e),
                            Ok(align) => Ok(
                                DiscriminantSpec { ty, align, location: LocationSpec::Offset(0) },
                            ),
                        },
                    },
                },
            },
        }
    }

    /// The alignment of a variant part: the one it declares, and 1 where
    /// it declares none.
    pub open spec fn spec_variant_part_align(unit: Unit, entry: usize) -> Result<usize, Failure> {
        match entry_attr(unit, entry, DW_AT_alignment) {
            None => Err(Failure::Malformed),
            Some(None) => Ok(1),
            Some(Some(value)) => match value.spec_udata_value() {
                None => Err(Failure::ValueMismatch),
                Some(align) => spec_to_usize(align),
            },
        }
    }

    /// The discriminant of a tagged union: the member that the variant
    /// part names, with that member's type and place.
    pub open spec fn spec_from_dw_tag_variant_part(unit: Unit, entry: usize) -> Result<
        DiscriminantSpec,
        Failure,
    > {
        match spec_check_tag(unit, entry, DW_TAG_variant_part) {
            Err(e) => Err(e),
            Ok(()) => match spec_get_attr_ref(unit, entry, DW_AT_discr) {
                Err(e) => Err(e),
                Ok(None) => Err(Failure::MissingAttr { attr: DW_AT_discr }),
                Ok(Some(member)) => match spec_get_type(unit, member) {
                    Err(e) => Err(e),
                    Ok(ty_entry) => match DiscriminantType::spec_from_die(unit, ty_entry) {
                        Err(e) => Err(e),
                        Ok(ty) => match Self::spec_variant_part_align(unit, entry) {
                            Err(e) => Err(e),
                            Ok(align) => match spec_get_data_member_location(unit, member) {
                                Err(e) => Err(e),
                                Ok(location) => Ok(DiscriminantSpec { ty, align, location }),
                            },
                        },
                    },
                },
            },
        }
    }

    /// Reads the discriminant of an enumeration from its entry.
    ///
    /// The entry must be an enumeration and name its underlying type and
    /// its alignment. The discriminant lies at the start of the value.
    pub fn from_dw_tag_enumeration_type(unit: &Unit, entry: usize) -> (r: Result<
        Discriminant,
        ErrorKind,
    >)
        ensures
            match r {
                Ok(d) => Self::spec_from_dw_tag_enumeration_type(*unit, entry) == Ok::<
                    DiscriminantSpec,
                    Failure,
                >(d@),
                Err(e) => Self::spec_from_dw_tag_enumeration_type(*unit, entry) == Err::<
                    DiscriminantSpec,
                    Failure,
                >(e@),
            },
    {
        match check_tag(unit, entry, DW_TAG_enumeration_type) {
            Err(e) => {
                return Err(e);
            },
            Ok(()) => {},
        }
        let ty_entry = match get_type(unit, entry) {
            Err(e) => {
                return Err(e);
            },
            Ok(ty_entry) => ty_entry,
        };
        let ty = match DiscriminantType::from_die(unit, ty_entry) {
            Err(e) => {
                return Err(e);
            },
            Ok(ty) => ty,
        };
        let align = match get_align(unit, entry) {
            Err(e) => {
                return Err(e);
            },
            Ok(align) => align,
        };
        match to_usize(align) {
            Err(e) => Err(e),
            Ok(align) => Ok(Discriminant { ty, align, location: Location::Offset(0) }),
        }
    }

    /// The alignment that a variant part declares, or 1.
    fn variant_part_align(unit: &Unit, entry: usize) -> (r: Result<usize, ErrorKind>)
        ensures
            crate::entry::agrees(r, Self::spec_variant_part_align(*unit, entry)),
    {
        match read_attr(unit, entry, DW_AT_alignment) {
            Err(e) => Err(ErrorKind::Gimli(e)),
            Ok(None) => Ok(1),
            Ok(Some(value)) => match value.udata_value() {
                None => Err(ErrorKind::ValueMismatch),
                Some(align) => to_usize(align),
            },
        }
    }

    /// Reads the discriminant of a tagged union from its variant part.
    ///
    /// The entry must be a variant part that names its discriminant
    /// member; the member must have a type and a place.
    pub fn from_dw_tag_variant_part(unit: &Unit, entry: usize) -> (r: Result<
        Discriminant,
        ErrorKind,
    >)
        ensures
            match r {
                Ok(d) => Self::spec_from_dw_tag_variant_part(*unit, entry) == Ok::<
                    DiscriminantSpec,
                    Failure,
                >(d@),
                Err(e) => Self::spec_from_dw_tag_variant_part(*unit, entry) == Err::<
                    DiscriminantSpec,
                    Failure,
                >(e@),
            },
    {
        match check_tag(unit, entry, DW_TAG_variant_part) {
            Err(e) => {
                return Err(e);
            },
            Ok(()) => {},
        }
        let member = match get_attr_ref(unit, entry, DW_AT_discr) {
            Err(e) => {
                return Err(e);
            },
            Ok(None) => {
                return Err(ErrorKind::MissingAttr { attr: DW_AT_discr });
            },
            Ok(Some(member)) => member,
        };
        let ty_entry = match get_type(unit, member) {
            Err(e) => {
                return Err(e);
            },
            Ok(ty_entry) => ty_entry,
        };
        let ty = match DiscriminantType::from_die(unit, ty_entry) {
            Err(e) => {
                return Err(e);
            },
            Ok(ty) => ty,
        };
        let align = match Self::variant_part_align(unit, entry) {
            Err(e) => {
                return Err(e);
            },
            Ok(align) => align,
        };
        match get_data_member_location(unit, member) {
            Err(e) => Err(e),
            Ok(location) => Ok(Discriminant { ty, align, location }),
        }
    }

    /// The integer type of the discriminant.
    pub fn ty(&self) -> (ty: &DiscriminantType)
        ensures
            *ty == self@.ty,
    {
        &self.ty
    }

    /// The alignment of the discriminant, in bytes.
    pub fn alignment(&self) -> (align: usize)
        ensures
            align == self@.align,
    {
        self.align
    }

    /// The place of the discriminant in a value of the sum type.
    pub fn location(&self) -> (location: &Location)
        ensures
            location@ == self@.location,
    {
        &self.location
    }
}

/// The value that the discriminant takes for one variant.
#[derive(Debug, Copy, Clone, PartialEq, Eq)]
pub enum DiscriminantValue {
    U8(u8),
    U16(u16),
    U32(u32),
    U64(u64),
}

impl DiscriminantValue {
    /// The discriminant value that an attribute value stands for. A
    /// constant of a fixed width keeps its width; a constant of variable
    /// width is taken as it is, in the widest type.
    pub open spec fn spec_from_attr(value: AttrValue) -> Result<DiscriminantValue, Failure> {
        match value {
            AttrValue::Data1(v) => Ok(DiscriminantValue::U8(v)),
            AttrValue::Data2(v) => Ok(DiscriminantValue::U16(v)),
            AttrValue::Data4(v) => Ok(DiscriminantValue::U32(v)),
            AttrValue::Data8(v) => Ok(DiscriminantValue::U64(v)),
            AttrValue::Udata(v) => Ok(DiscriminantValue::U64(v)),
            AttrValue::Sdata(v) => if v >= 0 {
                Ok(DiscriminantValue::U64(v as u64))
            } else {
                Err(Failure::ValueMismatch)
            },
            _ => Err(Failure::ValueMismatch),
        }
    }

    /// The number that the value stands for.
    pub open spec fn spec_value(self) -> u64 {
        match self {
            DiscriminantValue::U8(v) => v as u64,
            DiscriminantValue::U16(v) => v as u64,
            DiscriminantValue::U32(v) => v as u64,
            DiscriminantValue::U64(v) => v,
        }
    }

    /// Converts the value of a discriminant attribute. A value that is no
    /// unsigned integer constant cannot be used.
    pub fn from_attr(value: AttrValue) -> (r: Result<DiscriminantValue, ErrorKind>)
        ensures
            crate::entry::agrees(r, Self::spec_from_attr(value)),
    {
        match value {
            AttrValue::Data1(v) => Ok(DiscriminantValue::U8(v)),
            AttrValue::Data2(v) => Ok(DiscriminantValue::U16(v)),
            AttrValue::Data4(v) => Ok(DiscriminantValue::U32(v)),
            AttrValue::Data8(v) => Ok(DiscriminantValue::U64(v)),
            AttrValue::Udata(v) => Ok(DiscriminantValue::U64(v)),
            AttrValue::Sdata(v) => if v >= 0 {
                Ok(DiscriminantValue::U64(v as u64))
            } else {
                Err(ErrorKind::ValueMismatch)
            },
            _ => Err(ErrorKind::ValueMismatch),
        }
    }

    /// The number that the value stands for.
    pub fn value(&self) -> (v: u64)
        ensures
            v == self.spec_value(),
    {
        match *self {
            DiscriminantValue::U8(v) => v as u64,
            DiscriminantValue::U16(v) => v as u64,
            DiscriminantValue::U32(v) => v as u64,
            DiscriminantValue::U64(v) => v,
        }
    }
}

/// The value of an optional discriminant attribute of an entry: `None`
/// where the entry has no such attribute.
pub open spec fn spec_discriminant_value(unit: Unit, entry: usize, attr: u16) -> Result<
    Option<DiscriminantValue>,
    Failure,
> {
    match entry_attr(unit, entry, attr) {
        None => Err(Failure::Malformed),
        Some(None) => Ok(None),
        Some(Some(value)) => match DiscriminantValue::spec_from_attr(value) {
            Err(e) => Err(e),
            Ok(v) => Ok(Some(v)),
        },
    }
}

/// Reads the discriminant value that the attribute `attr` of the entry
/// gives, if the entry has that attribute.
pub fn discriminant_value(unit: &Unit, entry: usize, attr: u16) -> (r: Result<
    Option<DiscriminantValue>,
    ErrorKind,
>)
    ensures
        crate::entry::agrees(r, spec_discriminant_value(*unit, entry, attr)),
{
    match read_attr(unit, entry, attr) {
        Err(e) => Err(ErrorKind::Gimli(e)),
        Ok(None) => Ok(None),
        Ok(Some(value)) => match DiscriminantValue::from_attr(value) {
            Err(e) => Err(e),
            Ok(v) => Ok(Some(v)),
        },
    }
}

} // verus!
