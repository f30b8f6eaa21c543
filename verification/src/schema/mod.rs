//! The schema: what the debugging information says of the layout of a
//! type.

pub mod atom;
pub mod collect;
pub mod discriminant;
pub mod enumeration;
pub mod reference;
pub mod slice;
pub mod structure;

pub use self::atom::{Atom, AtomKind, AtomSpec};
pub use self::discriminant::{Discriminant, DiscriminantSpec, DiscriminantType, DiscriminantValue};
pub use self::enumeration::{Enum, EnumSpec, Variant, VariantSpec};
pub use self::reference::{Ref, RefKind, RefSpec};
pub use self::slice::{Slice, SliceSpec};
pub use self::structure::{Field, FieldSpec, Struct, StructSpec};

use crate::constants::{
    DW_TAG_base_type, DW_TAG_enumeration_type, DW_TAG_pointer_type, DW_TAG_structure_type,
    DW_TAG_variant_part,
};
use crate::dwarf::{Dwarf, Unit};
use crate::entry::{
    agrees, find_child, get_name, spec_find_child, spec_get_name, spec_get_size, spec_tag, tag,
};
use crate::error::{ErrorKind, Failure};
use crate::schema::collect::{spec_starts_with, starts_with};
use vstd::prelude::*;

verus! {

/// What is said of an entry that describes no type that can be reflected.
pub open spec fn unsupported_type() -> Seq<char> {
    "Unsupported type entry"@
}

/// A [`Type`] as a mathematical value.
pub enum TypeSpec {
    Atom(AtomSpec),
    Struct(StructSpec),
    Enum(EnumSpec),
    Slice(SliceSpec),
    Ref(RefSpec),
}

/// The schema of a type: the description of a layout in memory.
#[derive(Debug)]
pub enum Type<'dwarf> {
    /// A primitive.
    Atom(Atom),
    /// A product type.
    Struct(Struct<'dwarf>),
    /// A sum type.
    Enum(Enum<'dwarf>),
    /// A sequence whose length is known when the program runs.
    Slice(Slice<'dwarf>),
    /// A pointer.
    Ref(Ref<'dwarf>),
}

impl<'dwarf> View for Type<'dwarf> {
    type V = TypeSpec;

    open spec fn view(&self) -> TypeSpec {
        match *self {
            Type::Atom(atom) => TypeSpec::Atom(atom@),
            Type::Struct(s) => TypeSpec::Struct(s@),
            Type::Enum(e) => TypeSpec::Enum(e@),
            Type::Slice(s) => TypeSpec::Slice(s@),
            Type::Ref(r) => TypeSpec::Ref(r@),
        }
    }
}

impl<'dwarf> Clone for Type<'dwarf> {
    fn clone(&self) -> (copy: Type<'dwarf>)
        ensures
            copy@ == self@,
    {
        match self {
            Type::Atom(atom) => Type::Atom(atom.clone()),
            Type::Struct(s) => Type::Struct(s.clone()),
            Type::Enum(e) => Type::Enum(e.clone()),
            Type::Slice(s) => Type::Slice(s.clone()),
            Type::Ref(r) => Type::Ref(r.clone()),
        }
    }
}

impl<'dwarf> Type<'dwarf> {
    /// Whether a structure of the given name is a sequence: its name
    /// begins with `&[` or with `&mut [`.
    pub open spec fn spec_names_slice(name: Seq<char>) -> bool {
        spec_starts_with(name, "&["@) || spec_starts_with(name, "&mut ["@)
    }

    /// The schema that a structure entry describes: a sequence where its
    /// name is that of one, a sum type where it has a variant part, and
    /// else a product type.
    pub open spec fn spec_from_structure(dwarf: Dwarf, unit: Unit, entry: usize) -> Result<
        TypeSpec,
        Failure,
    > {
        match spec_get_name(dwarf, unit, entry) {
            Err(e) => Err(e),
            Ok(name) => if Self::spec_names_slice(name) {
                match Slice::spec_from_dw_tag_structure_type(dwarf, unit, entry) {
                    Err(e) => Err(e),
                    Ok(s) => Ok(TypeSpec::Slice(s)),
                }
            } else {
                match spec_find_child(unit, entry, DW_TAG_variant_part) {
                    Err(e) => Err(e),
                    Ok(Some(_)) => match Enum::spec_from_dw_tag_structure_type(
                        dwarf,
                        unit,
                        entry,
                    ) {
                        Err(e) => Err(e),
                        Ok(e) => Ok(TypeSpec::Enum(e)),
                    },
                    Ok(None) => match Struct::spec_from_dw_tag_structure_type(
                        dwarf,
                        unit,
                        entry,
                    ) {
                        Err(e) => Err(e),
                        Ok(s) => Ok(TypeSpec::Struct(s)),
                    },
                }
            },
        }
    }

    /// The schema that an entry describes.
    pub open spec fn spec_from_die(dwarf: Dwarf, unit: Unit, entry: usize) -> Result<
        TypeSpec,
        Failure,
    > {
        match spec_tag(unit, entry) {
            Err(e) => Err(e),
            Ok(found) => if found == DW_TAG_base_type {
                match Atom::spec_from_dw_tag_base_type(dwarf, unit, entry) {
                    Err(e) => Err(e),
                    Ok(atom) => Ok(TypeSpec::Atom(atom)),
                }
            } else if found == DW_TAG_enumeration_type {
                match Enum::spec_from_dw_tag_enumeration_type(dwarf, unit, entry) {
                    Err(e) => Err(e),
                    Ok(e) => Ok(TypeSpec::Enum(e)),
                }
            } else if found == DW_TAG_pointer_type {
                match Ref::spec_from_dw_tag_pointer_type(dwarf, unit, entry) {
                    Err(e) => Err(e),
                    Ok(r) => Ok(TypeSpec::Ref(r)),
                }
            } else if found == DW_TAG_structure_type {
                Self::spec_from_structure(dwarf, unit, entry)
            } else {
                Err(Failure::Other(unsupported_type()))
            },
        }
    }

    /// The size in bytes of a value of a type.
    pub open spec fn spec_size(this: TypeSpec) -> Result<u64, Failure> {
        match this {
            TypeSpec::Atom(atom) => Ok(atom.kind.spec_size() as u64),
            TypeSpec::Struct(s) => spec_get_size(s.unit, s.entry),
            TypeSpec::Enum(e) => spec_get_size(e.unit, e.entry),
            TypeSpec::Slice(s) => spec_get_size(s.unit, s.entry),
            TypeSpec::Ref(r) => Ref::spec_size(r.unit, r.entry),
        }
    }

    /// Reads the schema that a structure entry describes.
    fn from_structure(dwarf: &'dwarf Dwarf, unit: &'dwarf Unit, entry: usize) -> (r: Result<
        Type<'dwarf>,
        ErrorKind,
    >)
        ensures
            match r {
                Ok(ty) => Self::spec_from_structure(*dwarf, *unit, entry) == Ok::<
                    TypeSpec,
                    Failure,
                >(ty@),
                Err(e) => Self::spec_from_structure(*dwarf, *unit, entry) == Err::<
                    TypeSpec,
                    Failure,
                >(e@),
            },
    {
        let name = match get_name(dwarf, unit, entry) {
            Err(e) => {
                return Err(e);
            },
            Ok(name) => name,
        };
        if starts_with(name.as_str(), "&[") || starts_with(name.as_str(), "&mut [") {
            return match Slice::from_dw_tag_structure_type(dwarf, unit, entry) {
                Err(e) => Err(e),
                Ok(s) => Ok(Type::Slice(s)),
            };
        }
        match find_child(unit, entry, DW_TAG_variant_part) {
            Err(e) => Err(e),
            Ok(Some(_)) => match Enum::from_dw_tag_structure_type(dwarf, unit, entry) {
                Err(e) => Err(e),
                Ok(e) => Ok(Type::Enum(e)),
            },
            Ok(None) => match Struct::from_dw_tag_structure_type(dwarf, unit, entry) {
                Err(e) => Err(e),
                Ok(s) => Ok(Type::Struct(s)),
            },
        }
    }

    /// Reads the schema that the entry at `entry` describes.
    ///
    /// A base type is a primitive, an enumeration a sum type, a pointer a
    /// reference. A structure is a sequence where its name begins with
    /// `&[` or `&mut [`, a sum type where it has a variant part, and a
    /// product type otherwise. An entry with any other tag describes no type that can
    /// be reflected. Only this one entry is read: the types of fields, of
    /// variants and of what a pointer points to are read when asked for.
    pub fn from_die(dwarf: &'dwarf Dwarf, unit: &'dwarf Unit, entry: usize) -> (r: Result<
        Type<'dwarf>,
        ErrorKind,
    >)
        ensures
            match r {
                Ok(ty) => Self::spec_from_die(*dwarf, *unit, entry) == Ok::<TypeSpec, Failure>(ty@),
                Err(e) => Self::spec_from_die(*dwarf, *unit, entry) == Err::<TypeSpec, Failure>(
                    e@,
                ),
            },
    {
        let found = match tag(unit, entry) {
            Err(e) => {
                return Err(e);
            },
            Ok(found) => found,
        };
        if found == DW_TAG_base_type {
            match Atom::from_dw_tag_base_type(dwarf, unit, entry) {
                Err(e) => Err(e),
                Ok(atom) => Ok(Type::Atom(atom)),
            }
        } else if found == DW_TAG_enumeration_type {
            match Enum::from_dw_tag_enumeration_type(dwarf, unit, entry) {
                Err(e) => Err(e),
                Ok(e) => Ok(Type::Enum(e)),
            }
        } else if found == DW_TAG_pointer_type {
            match Ref::from_dw_tag_pointer_type(dwarf, unit, entry) {
                Err(e) => Err(e),
                Ok(r) => Ok(Type::Ref(r)),
            }
        } else if found == DW_TAG_structure_type {
            Self::from_structure(dwarf, unit, entry)
        } else {
            Err(ErrorKind::MakeAMoreSpecificVariant("Unsupported type entry"))
        }
    }

    /// The size in bytes of a value of the type.
    ///
    /// The size of a primitive follows from its kind. Every other type
    /// must declare its size, but for a pointer, which has the size of an
    /// address where it declares none.
    pub fn size(&self) -> (r: Result<u64, ErrorKind>)
        ensures
            agrees(r, Self::spec_size(self@)),
    {
        match self {
            Type::Atom(atom) => Ok(atom.size() as u64),
            Type::Struct(s) => s.size(),
            Type::Enum(e) => crate::entry::get_size(e.unit(), e.entry()),
            Type::Slice(s) => crate::entry::get_size(s.unit(), s.entry()),
            Type::Ref(r) => r.size(),
        }
    }
}

} // verus!
