//! Primitive types.

use crate::constants::{
    DW_ATE_UTF, DW_ATE_boolean, DW_ATE_float, DW_ATE_signed, DW_ATE_unsigned, DW_ATE_unsigned_char,
    DW_AT_encoding, DW_TAG_base_type,
};
use crate::dwarf::{unit_little_endian, AttrValue, Dwarf, Unit};
use crate::entry::{
    agrees, check_tag, get, get_name, get_size, spec_check_tag, spec_get, spec_get_name,
    spec_get_size,
};
use crate::error::{ErrorKind, Failure};
use vstd::prelude::*;

verus! {

/// The kinds of primitive types.
#[derive(Clone, Copy, Debug, PartialEq, Eq)]
pub enum AtomKind {
    Bool,
    Char,
    I8,
    I16,
    I32,
    I64,
    I128,
    U8,
    U16,
    U32,
    U64,
    U128,
    F32,
    F64,
    Unit,
}

impl AtomKind {
    /// The kind of the base type that has the given encoding and size.
    pub open spec fn spec_of(encoding: u8, size: u64) -> Result<AtomKind, Failure> {
        if encoding == DW_ATE_boolean && size == 1 {
            Ok(AtomKind::Bool)
        } else if (encoding == DW_ATE_UTF || encoding == DW_ATE_unsigned_char) && size == 4 {
            Ok(AtomKind::Char)
        } else if encoding == DW_ATE_signed && size == 1 {
            Ok(AtomKind::I8)
        } else if encoding == DW_ATE_signed && size == 2 {
            Ok(AtomKind::I16)
        } else if encoding == DW_ATE_signed && size == 4 {
            Ok(AtomKind::I32)
        } else if encoding == DW_ATE_signed && size == 8 {
            Ok(AtomKind::I64)
        } else if encoding == DW_ATE_signed && size == 16 {
            Ok(AtomKind::I128)
        } else if encoding == DW_ATE_unsigned && size == 0 {
            Ok(AtomKind::Unit)
        } else if encoding == DW_ATE_unsigned && size == 1 {
            Ok(AtomKind::U8)
        } else if encoding == DW_ATE_unsigned && size == 2 {
            Ok(AtomKind::U16)
        } else if encoding == DW_ATE_unsigned && size == 4 {
            Ok(AtomKind::U32)
        } else if encoding == DW_ATE_unsigned && size == 8 {
            Ok(AtomKind::U64)
        } else if encoding == DW_ATE_unsigned && size == 16 {
            Ok(AtomKind::U128)
        } else if encoding == DW_ATE_float && size == 4 {
            Ok(AtomKind::F32)
        } else if encoding == DW_ATE_float && size == 8 {
            Ok(AtomKind::F64)
        } else {
            Err(Failure::ValueMismatch)
        }
    }

    /// The size in bytes of a value of the kind.
    pub open spec fn spec_size(self) -> usize {
        match self {
            AtomKind::Unit => 0,
            AtomKind::Bool | AtomKind::I8 | AtomKind::U8 => 1,
            AtomKind::I16 | AtomKind::U16 => 2,
            AtomKind::Char | AtomKind::I32 | AtomKind::U32 | AtomKind::F32 => 4,
            AtomKind::I64 | AtomKind::U64 | AtomKind::F64 => 8,
            AtomKind::I128 | AtomKind::U128 => 16,
        }
    }

    /// Whether values of the kind are signed integers.
    pub open spec fn spec_is_signed(self) -> bool {
        self is I8 || self is I16 || self is I32 || self is I64 || self is I128
    }

    /// The kind of the base type that has the given encoding and size; an
    /// encoding or a size that no primitive has cannot be used.
    pub fn of(encoding: u8, size: u64) -> (r: Result<AtomKind, ErrorKind>)
        ensures
            agrees(r, Self::spec_of(encoding, size)),
            r matches Ok(kind) ==> kind.spec_size() == size,
    {
        if encoding == DW_ATE_boolean && size == 1 {
            Ok(AtomKind::Bool)
        } else if (encoding == DW_ATE_UTF || encoding == DW_ATE_unsigned_char) && size == 4 {
            Ok(AtomKind::Char)
        } else if encoding == DW_ATE_signed && size == 1 {
            Ok(AtomKind::I8)
        } else if encoding == DW_ATE_signed && size == 2 {
            Ok(AtomKind::I16)
        } else if encoding == DW_ATE_signed && size == 4 {
            Ok(AtomKind::I32)
        } else if encoding == DW_ATE_signed && size == 8 {
            Ok(AtomKind::I64)
        } else if encoding == DW_ATE_signed && size == 16 {
            Ok(AtomKind::I128)
        } else if encoding == DW_ATE_unsigned && size == 0 {
            Ok(AtomKind::Unit)
        } else if encoding == DW_ATE_unsigned && size == 1 {
            Ok(AtomKind::U8)
        } else if encoding == DW_ATE_unsigned && size == 2 {
            Ok(AtomKind::U16)
        } else if encoding == DW_ATE_unsigned && size == 4 {
            Ok(AtomKind::U32)
        } else if encoding == DW_ATE_unsigned && size == 8 {
            Ok(AtomKind::U64)
        } else if encoding == DW_ATE_unsigned && size == 16 {
            Ok(AtomKind::U128)
        } else if encoding == DW_ATE_float && size == 4 {
            Ok(AtomKind::F32)
        } else if encoding == DW_ATE_float && size == 8 {
            Ok(AtomKind::F64)
        } else {
            Err(ErrorKind::ValueMismatch)
        }
    }

    /// The size in bytes of a value of the kind.
    pub fn size(&self) -> (size: usize)
        ensures
            size == self.spec_size(),
    {
        match self {
            AtomKind::Unit => 0,
            AtomKind::Bool | AtomKind::I8 | AtomKind::U8 => 1,
            AtomKind::I16 | AtomKind::U16 => 2,
            AtomKind::Char | AtomKind::I32 | AtomKind::U32 | AtomKind::F32 => 4,
            AtomKind::I64 | AtomKind::U64 | AtomKind::F64 => 8,
            AtomKind::I128 | AtomKind::U128 => 16,
        }
    }

    /// The alignment in bytes of the kind: a value is aligned to its
    /// size, and a value without bytes to 1.
    pub fn align(&self) -> (align: usize)
        ensures
            align == if self.spec_size() == 0 {
                1
            } else {
                self.spec_size()
            },
    {
        let size = self.size();
        if size == 0 {
            1
        } else {
            size
        }
    }
}

/// An [`Atom`] as a mathematical value.
pub struct AtomSpec {
    pub name: Seq<char>,
    pub kind: AtomKind,
    pub little_endian: bool,
}

/// A primitive type: its name, its kind, and the order of its bytes in
/// memory.
#[derive(Debug)]
pub struct Atom {
    name: String,
    kind: AtomKind,
    little_endian: bool,
}

impl View for Atom {
    type V = AtomSpec;

    closed spec fn view(&self) -> AtomSpec {
        AtomSpec { name: self.name@, kind: self.kind, little_endian: self.little_endian }
    }
}

impl Clone for Atom {
    fn clone(&self) -> (copy: Atom)
        ensures
            copy@ == self@,
    {
        Atom { name: self.name.clone(), kind: self.kind, little_endian: self.little_endian }
    }
}

impl Atom {
    /// The encoding that a base type entry declares.
    pub open spec fn spec_encoding(unit: Unit, entry: usize) -> Result<u8, Failure> {
        match spec_get(unit, entry, DW_AT_encoding) {
            Err(e) => Err(e),
            Ok(AttrValue::Encoding(encoding)) => Ok(encoding),
            Ok(_) => Err(Failure::ValueMismatch),
        }
    }

    /// The primitive type that a base type entry describes.
    pub open spec fn spec_from_dw_tag_base_type(dwarf: Dwarf, unit: Unit, entry: usize) -> Result<
        AtomSpec,
        Failure,
    > {
        match spec_check_tag(unit, entry, DW_TAG_base_type) {
            Err(e) => Err(e),
            Ok(()) => match spec_get_name(dwarf, unit, entry) {
                Err(e) => Err(e),
                Ok(name) => match Self::spec_encoding(unit, entry) {
                    Err(e) => Err(e),
                    Ok(encoding) => match spec_get_size(unit, entry) {
                        Err(e) => Err(e),
                        Ok(size) => match AtomKind::spec_of(encoding, size) {
                            Err(e) => Err(e),
                            Ok(kind) => Ok(
                                AtomSpec {
                                    name,
                                    kind,
                                    little_endian: unit_little_endian(unit),
                                },
                            ),
                        },
                    },
                },
            },
        }
    }

    /// The encoding that the base type entry declares.
    fn encoding(unit: &Unit, entry: usize) -> (r: Result<u8, ErrorKind>)
        ensures
            agrees(r, Self::spec_encoding(*unit, entry)),
    {
        match get(unit, entry, DW_AT_encoding) {
            Err(e) => Err(e),
            Ok(AttrValue::Encoding(encoding)) => Ok(encoding),
            Ok(_) => Err(ErrorKind::ValueMismatch),
        }
    }

    /// Reads a primitive type from its entry: a base type with a name, an
    /// encoding and a size that together make one of the kinds.
    pub fn from_dw_tag_base_type(dwarf: &Dwarf, unit: &Unit, entry: usize) -> (r: Result<
        Atom,
        ErrorKind,
    >)
        ensures
            match r {
                Ok(atom) => Self::spec_from_dw_tag_base_type(*dwarf, *unit, entry) == Ok::<
                    AtomSpec,
                    Failure,
                >(atom@),
                Err(e) => Self::spec_from_dw_tag_base_type(*dwarf, *unit, entry) == Err::<
                    AtomSpec,
                    Failure,
                >(e@),
            },
    {
        match check_tag(unit, entry, DW_TAG_base_type) {
            Err(e) => {
                return Err(e);
            },
            Ok(()) => {},
        }
        let name = match get_name(dwarf, unit, entry) {
            Err(e) => {
                return Err(e);
            },
            Ok(name) => name,
        };
        let encoding = match Self::encoding(unit, entry) {
            Err(e) => {
                return Err(e);
            },
            Ok(encoding) => encoding,
        };
        let size = match get_size(unit, entry) {
            Err(e) => {
                return Err(e);
            },
            Ok(size) => size,
        };
        match AtomKind::of(encoding, size) {
            Err(e) => Err(e),
            Ok(kind) => Ok(Atom { name, kind, little_endian: unit.little_endian() }),
        }
    }

    /// The primitive type of the given name, kind and byte order.
    pub fn new(name: String, kind: AtomKind, little_endian: bool) -> (atom: Atom)
        ensures
            atom@ == (AtomSpec { name: name@, kind, little_endian }),
    {
        Atom { name, kind, little_endian }
    }

    /// The name of the type.
    pub fn name(&self) -> (name: &String)
        ensures
            name@ == self@.name,
    {
        &self.name
    }

    /// The kind of the type.
    pub fn kind(&self) -> (kind: AtomKind)
        ensures
            kind == self@.kind,
    {
        self.kind
    }

    /// Whether a value of the type stores its low byte first.
    pub fn little_endian(&self) -> (little: bool)
        ensures
            little == self@.little_endian,
    {
        self.little_endian
    }

    /// The size in bytes of a value of the type.
    pub fn size(&self) -> (size: usize)
        ensures
            size == self@.kind.spec_size(),
    {
        self.kind.size()
    }
}

} // verus!
