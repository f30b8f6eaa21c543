//! Dynamically sized sequences: a pointer to the elements and their
//! number.

use crate::constants::{DW_AT_name, DW_TAG_pointer_type, DW_TAG_structure_type};
use crate::dwarf::{Dwarf, Unit};
use crate::entry::{check_tag, get_name, get_type, spec_check_tag, spec_get_name, spec_get_type};
use crate::error::{ErrorKind, Failure};
use crate::schema::{Type, TypeSpec};
use crate::schema::collect::same;
use crate::schema::structure::{field_views, fields_of, spec_fields, Field, FieldSpec};
use vstd::prelude::*;

verus! {

/// The name of the field that points to the elements.
pub open spec fn data_ptr_name() -> Seq<char> {
    "data_ptr"@
}

/// The name of the field that counts the elements.
pub open spec fn length_name() -> Seq<char> {
    "length"@
}

/// The index of the first of `fields`, from `from` on, that has the name
/// `name`.
pub open spec fn spec_field_named(fields: Seq<FieldSpec>, name: Seq<char>, from: int) -> Option<int>
    decreases fields.len() - from,
{
    if from < 0 || from >= fields.len() {
        None
    } else if fields[from].name == name {
        Some(from)
    } else {
        spec_field_named(fields, name, from + 1)
    }
}

/// The first field of the given name is a field, has that name, and no
/// field before it has.
pub proof fn lemma_field_named(fields: Seq<FieldSpec>, name: Seq<char>, from: int)
    requires
        0 <= from,
    ensures
        match spec_field_named(fields, name, from) {
            Some(i) => from <= i < fields.len() && fields[i].name == name && forall|j: int|
                from <= j < i ==> (#[trigger] fields[j]).name != name,
            None => forall|j: int| from <= j < fields.len() ==> (#[trigger] fields[j]).name != name,
        },
    decreases fields.len() - from,
{
    if from < fields.len() && fields[from].name != name {
        lemma_field_named(fields, name, from + 1);
    }
}

/// The index of the first field that has the given name.
#[verifier::loop_isolation(false)]
pub fn field_named<'dwarf>(fields: &Vec<Field<'dwarf>>, name: &str) -> (r: Option<usize>)
    ensures
        match r {
            Some(i) => spec_field_named(field_views(fields@), name@, 0) == Some(i as int) && i
                < fields.len() && fields[i as int]@.name == name@ && forall|j: int|
                0 <= j < i ==> (#[trigger] fields[j])@.name != name@,
            None => spec_field_named(field_views(fields@), name@, 0) is None && forall|j: int|
                0 <= j < fields.len() ==> (#[trigger] fields[j])@.name != name@,
        },
{
    proof {
        lemma_field_named(field_views(fields@), name@, 0);
        assert forall|j: int| 0 <= j < fields.len() implies field_views(fields@)[j]
            == (#[trigger] fields@[j])@ by {}
    }
    let mut i: usize = 0;
    while i < fields.len()
        invariant
            i <= fields.len(),
            spec_field_named(field_views(fields@), name@, 0) == spec_field_named(
                field_views(fields@),
                name@,
                i as int,
            ),
        decreases fields.len() - i,
    {
        assert(field_views(fields@)[i as int] == fields@[i as int]@);
        if same(fields[i].name().as_str(), name) {
            return Some(i);
        }
        i += 1;
    }
    None
}

/// A [`Slice`] as a mathematical value.
pub struct SliceSpec {
    pub dwarf: Dwarf,
    pub unit: Unit,
    pub entry: usize,
    pub name: Seq<char>,
    pub data_ptr: FieldSpec,
    pub length: FieldSpec,
    pub elt: usize,
}

/// A sequence of elements of one type, of a length known only when the
/// program runs: the field that points to the elements, the field that
/// counts them, and the entry that describes the type of an element.
#[derive(Debug)]
pub struct Slice<'dwarf> {
    dwarf: &'dwarf Dwarf,
    unit: &'dwarf Unit,
    entry: usize,
    name: String,
    data_ptr: Field<'dwarf>,
    length: Field<'dwarf>,
    elt: usize,
}

impl<'dwarf> View for Slice<'dwarf> {
    type V = SliceSpec;

    closed spec fn view(&self) -> SliceSpec {
        SliceSpec {
            dwarf: *self.dwarf,
            unit: *self.unit,
            entry: self.entry,
            name: self.name@,
            data_ptr: self.data_ptr@,
            length: self.length@,
            elt: self.elt,
        }
    }
}

impl<'dwarf> Clone for Slice<'dwarf> {
    fn clone(&self) -> (copy: Slice<'dwarf>)
        ensures
            copy@ == self@,
    {
        Slice {
            dwarf: self.dwarf,
            unit: self.unit,
            entry: self.entry,
            name: self.name.clone(),
            data_ptr: self.data_ptr.clone(),
            length: self.length.clone(),
            elt: self.elt,
        }
    }
}

impl<'dwarf> Slice<'dwarf> {
    /// The entry that describes the elements: the type that the type of
    /// the pointer field, a pointer, points to.
    pub open spec fn spec_elt(unit: Unit, data_ptr: FieldSpec) -> Result<usize, Failure> {
        match spec_check_tag(unit, data_ptr.ty, DW_TAG_pointer_type) {
            Err(e) => Err(e),
            Ok(()) => spec_get_type(unit, data_ptr.ty),
        }
    }

    /// The sequence type that a structure entry describes.
    pub open spec fn spec_from_dw_tag_structure_type(
        dwarf: Dwarf,
        unit: Unit,
        entry: usize,
    ) -> Result<SliceSpec, Failure> {
        match spec_check_tag(unit, entry, DW_TAG_structure_type) {
            Err(e) => Err(e),
            Ok(()) => match spec_get_name(dwarf, unit, entry) {
                Err(e) => Err(e),
                Ok(name) => match spec_fields(dwarf, unit, entry) {
                    Err(e) => Err(e),
                    Ok(fields) => match spec_field_named(fields, data_ptr_name(), 0) {
                        None => Err(Failure::MissingAttr { attr: DW_AT_name }),
                        Some(p) => match spec_field_named(fields, length_name(), 0) {
                            None => Err(Failure::MissingAttr { attr: DW_AT_name }),
                            Some(l) => match Self::spec_elt(unit, fields[p]) {
                                Err(e) => Err(e),
                                Ok(elt) => Ok(
                                    SliceSpec {
                                        dwarf,
                                        unit,
                                        entry,
                                        name,
                                        data_ptr: fields[p],
                                        length: fields[l],
                                        elt,
                                    },
                                ),
                            },
                        },
                    },
                },
            },
        }
    }

    /// Reads a sequence type from its entry.
    ///
    /// The entry must be a structure with a name and with two fields, one
    /// named `data_ptr` and one named `length`; the type of the first
    /// must be a pointer that names the type of the elements. A field
    /// that is not there is reported as a missing attribute, the name.
    pub fn from_dw_tag_structure_type(
        dwarf: &'dwarf Dwarf,
        unit: &'dwarf Unit,
        entry: usize,
    ) -> (r: Result<Slice<'dwarf>, ErrorKind>)
        ensures
            match r {
                Ok(s) => Self::spec_from_dw_tag_structure_type(*dwarf, *unit, entry) == Ok::<
                    SliceSpec,
                    Failure,
                >(s@),
                Err(e) => Self::spec_from_dw_tag_structure_type(*dwarf, *unit, entry) == Err::<
                    SliceSpec,
                    Failure,
                >(e@),
            },
    {
        match check_tag(unit, entry, DW_TAG_structure_type) {
            Err(e) => {
                return Err(e);
            },
            Ok(()) => {},
        }
        let name = match get_name(dwarf, unit, entry) {
            Err(e) => {
                return Err(e);
            },
            Ok(name) => name,
        };
        let fields = match fields_of(dwarf, unit, entry) {
            Err(e) => {
                return Err(e);
            },
            Ok(fields) => fields,
        };
        let p = match field_named(&fields, "data_ptr") {
            None => {
                return Err(ErrorKind::MissingAttr { attr: DW_AT_name });
            },
            Some(p) => p,
        };
        let l = match field_named(&fields, "length") {
            None => {
                return Err(ErrorKind::MissingAttr { attr: DW_AT_name });
            },
            Some(l) => l,
        };
        assert(field_views(fields@)[p as int] == fields@[p as int]@);
        assert(field_views(fields@)[l as int] == fields@[l as int]@);
        let data_ptr = fields[p].clone();
        let length = fields[l].clone();
        match check_tag(unit, data_ptr.type_entry(), DW_TAG_pointer_type) {
            Err(e) => {
                return Err(e);
            },
            Ok(()) => {},
        }
        match get_type(unit, data_ptr.type_entry()) {
            Err(e) => Err(e),
            Ok(elt) => Ok(Slice { dwarf, unit, entry, name, data_ptr, length, elt }),
        }
    }

    /// The unit that the entry belongs to.
    pub fn unit(&self) -> (unit: &'dwarf Unit)
        ensures
            *unit == self@.unit,
    {
        self.unit
    }

    /// The offset of the entry in its unit.
    pub fn entry(&self) -> (entry: usize)
        ensures
            entry == self@.entry,
    {
        self.entry
    }

    /// The name of the type.
    pub fn name(&self) -> (name: &String)
        ensures
            name@ == self@.name,
    {
        &self.name
    }

    /// The field that points to the elements.
    pub fn data_ptr(&self) -> (field: &Field<'dwarf>)
        ensures
            field@ == self@.data_ptr,
    {
        &self.data_ptr
    }

    /// The field that counts the elements.
    pub fn length(&self) -> (field: &Field<'dwarf>)
        ensures
            field@ == self@.length,
    {
        &self.length
    }

    /// The offset of the entry that describes the type of an element.
    pub fn elt_entry(&self) -> (elt: usize)
        ensures
            elt == self@.elt,
    {
        self.elt
    }

    /// The type of an element.
    pub fn elt(&self) -> (r: Result<Type<'dwarf>, ErrorKind>)
        ensures
            match r {
                Ok(ty) => Type::spec_from_die(self@.dwarf, self@.unit, self@.elt) == Ok::<
                    TypeSpec,
                    Failure,
                >(ty@),
                Err(e) => Type::spec_from_die(self@.dwarf, self@.unit, self@.elt) == Err::<
                    TypeSpec,
                    Failure,
                >(e@),
            },
    {
        Type::from_die(self.dwarf, self.unit, self.elt)
    }
}

} // verus!
