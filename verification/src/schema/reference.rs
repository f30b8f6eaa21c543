//! References and pointers.

use crate::constants::{DW_AT_byte_size, DW_AT_name, DW_TAG_pointer_type};
use crate::dwarf::{entry_attr, read_attr, unit_address_size, Dwarf, Unit};
use crate::entry::{
    agrees, check_tag, get_string, get_type, spec_check_tag, spec_get_string, spec_get_type,
};
use crate::error::{ErrorKind, Failure};
use crate::schema::{Type, TypeSpec};
use crate::schema::collect::{spec_starts_with, starts_with};
use vstd::prelude::*;

verus! {

/// The kinds of pointers, as far as the name of the type tells them apart.
#[derive(Clone, Copy, Debug, PartialEq, Eq)]
pub enum RefKind {
    /// A shared reference.
    Shared,
    /// An exclusive reference.
    Unique,
    /// A pointer that the name does not show to be a reference.
    Raw,
}

impl RefKind {
    /// The kind of pointer that a type of the given name is.
    pub open spec fn spec_of_name(name: Option<Seq<char>>) -> RefKind {
        match name {
            None => RefKind::Raw,
            Some(name) => if spec_starts_with(name, "&mut "@) {
                RefKind::Unique
            } else if spec_starts_with(name, "&"@) {
                RefKind::Shared
            } else {
                RefKind::Raw
            },
        }
    }

    /// The kind of pointer that a type of the given name is: `&mut` marks
    /// an exclusive reference, `&` a shared one.
    pub fn of_name(name: &Option<String>) -> (kind: RefKind)
        ensures
            kind == Self::spec_of_name(
                match *name {
                    Some(name) => Some(name@),
                    None => None,
                },
            ),
    {
        match name {
            None => RefKind::Raw,
            Some(name) => if starts_with(name.as_str(), "&mut ") {
                RefKind::Unique
            } else if starts_with(name.as_str(), "&") {
                RefKind::Shared
            } else {
                RefKind::Raw
            },
        }
    }
}

/// A [`Ref`] as a mathematical value.
pub struct RefSpec {
    pub dwarf: Dwarf,
    pub unit: Unit,
    pub entry: usize,
    pub name: Option<Seq<char>>,
    pub kind: RefKind,
    pub target: usize,
}

/// A pointer type. The type that it points to is named by its entry and
/// read only when asked for, so that a type may point to itself.
#[derive(Debug)]
pub struct Ref<'dwarf> {
    dwarf: &'dwarf Dwarf,
    unit: &'dwarf Unit,
    entry: usize,
    name: Option<String>,
    kind: RefKind,
    target: usize,
}

/// The view of an optional string.
pub open spec fn name_view(name: Option<String>) -> Option<Seq<char>> {
    match name {
        Some(name) => Some(name@),
        None => None,
    }
}

impl<'dwarf> View for Ref<'dwarf> {
    type V = RefSpec;

    closed spec fn view(&self) -> RefSpec {
        RefSpec {
            dwarf: *self.dwarf,
            unit: *self.unit,
            entry: self.entry,
            name: name_view(self.name),
            kind: self.kind,
            target: self.target,
        }
    }
}

impl<'dwarf> Clone for Ref<'dwarf> {
    fn clone(&self) -> (copy: Ref<'dwarf>)
        ensures
            copy@ == self@,
    {
        let name = match &self.name {
            Some(name) => Some(name.clone()),
            None => None,
        };
        Ref {
            dwarf: self.dwarf,
            unit: self.unit,
            entry: self.entry,
            name,
            kind: self.kind,
            target: self.target,
        }
    }
}

impl<'dwarf> Ref<'dwarf> {
    /// The pointer type that a pointer entry describes.
    pub open spec fn spec_from_dw_tag_pointer_type(dwarf: Dwarf, unit: Unit, entry: usize) -> Result<
        RefSpec,
        Failure,
    > {
        match spec_check_tag(unit, entry, DW_TAG_pointer_type) {
            Err(e) => Err(e),
            Ok(()) => match spec_get_string(dwarf, unit, entry, DW_AT_name) {
                Err(e) => Err(e),
                Ok(name) => match spec_get_type(unit, entry) {
                    Err(e) => Err(e),
                    Ok(target) => Ok(
                        RefSpec {
                            dwarf,
                            unit,
                            entry,
                            name,
                            kind: RefKind::spec_of_name(name),
                            target,
                        },
                    ),
                },
            },
        }
    }

    /// The size of a pointer: the one that the entry declares, and the
    /// size of an address of the unit where it declares none.
    pub open spec fn spec_size(unit: Unit, entry: usize) -> Result<u64, Failure> {
        match entry_attr(unit, entry, DW_AT_byte_size) {
            None => Err(Failure::Malformed),
            Some(None) => Ok(unit_address_size(unit) as u64),
            Some(Some(value)) => match value.spec_udata_value() {
                None => Err(Failure::ValueMismatch),
                Some(size) => Ok(size),
            },
        }
    }

    /// Reads a pointer type from its entry: a pointer that names the type
    /// it points to. The name is optional.
    pub fn from_dw_tag_pointer_type(dwarf: &'dwarf Dwarf, unit: &'dwarf Unit, entry: usize) -> (r:
        Result<Ref<'dwarf>, ErrorKind>)
        ensures
            match r {
                Ok(p) => Self::spec_from_dw_tag_pointer_type(*dwarf, *unit, entry) == Ok::<
                    RefSpec,
                    Failure,
                >(p@),
                Err(e) => Self::spec_from_dw_tag_pointer_type(*dwarf, *unit, entry) == Err::<
                    RefSpec,
                    Failure,
                >(e@),
            },
    {
        match check_tag(unit, entry, DW_TAG_pointer_type) {
            Err(e) => {
                return Err(e);
            },
            Ok(()) => {},
        }
        let name = match get_string(dwarf, unit, entry, DW_AT_name) {
            Err(e) => {
                return Err(e);
            },
            Ok(name) => name,
        };
        match get_type(unit, entry) {
            Err(e) => Err(e),
            Ok(target) => {
                let kind = RefKind::of_name(&name);
                Ok(Ref { dwarf, unit, entry, name, kind, target })
            },
        }
    }

    /// The unit that the entry belongs to.
    pub fn unit(&self) -> (unit: &'dwarf Unit)
        ensures
            *unit == self@.unit,
    {
        self.unit
    }

    /// The name of the type, if it has one.
    pub fn name(&self) -> (name: &Option<String>)
        ensures
            name_view(*name) == self@.name,
    {
        &self.name
    }

    /// Whether the pointer is a shared reference, an exclusive one, or
    /// neither.
    pub fn kind(&self) -> (kind: RefKind)
        ensures
            kind == self@.kind,
    {
        self.kind
    }

    /// The offset of the entry that describes the type pointed to.
    pub fn target_entry(&self) -> (target: usize)
        ensures
            target == self@.target,
    {
        self.target
    }

    /// The size of the pointer in bytes.
    pub fn size(&self) -> (r: Result<u64, ErrorKind>)
        ensures
            agrees(r, Self::spec_size(self@.unit, self@.entry)),
    {
        match read_attr(self.unit, self.entry, DW_AT_byte_size) {
            Err(e) => Err(ErrorKind::Gimli(e)),
            Ok(None) => Ok(self.unit.address_size() as u64),
            Ok(Some(value)) => match value.udata_value() {
                None => Err(ErrorKind::ValueMismatch),
                Some(size) => Ok(size),
            },
        }
    }

    /// The type pointed to, read now.
    pub fn target(&self) -> (r: Result<Type<'dwarf>, ErrorKind>)
        ensures
            match r {
                Ok(ty) => Type::spec_from_die(self@.dwarf, self@.unit, self@.target) == Ok::<
                    TypeSpec,
                    Failure,
                >(ty@),
                Err(e) => Type::spec_from_die(self@.dwarf, self@.unit, self@.target) == Err::<
                    TypeSpec,
                    Failure,
                >(e@),
            },
    {
        Type::from_die(self.dwarf, self.unit, self.target)
    }
}

} // verus!
