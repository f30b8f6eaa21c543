//! Product types and their fields.

use crate::constants::{DW_TAG_member, DW_TAG_structure_type};
use crate::dwarf::{Dwarf, Unit};
use crate::entry::{
    agrees, check_tag, children, get_align, get_data_member_location, get_name, get_size, get_type,
    spec_check_tag, spec_children, spec_get_align, spec_get_data_member_location, spec_get_name,
    spec_get_size, spec_get_type, spec_tag, tag, Location, LocationSpec,
};
use crate::error::{ErrorKind, Failure};
use crate::schema::{Type, TypeSpec};
use crate::schema::collect::{
    collect, collect_all, lemma_collect_fails, lemma_collect_first_failure, lemma_collect_reads_all,
};
use vstd::prelude::*;

verus! {

/// A [`Field`] as a mathematical value.
pub struct FieldSpec {
    pub dwarf: Dwarf,
    pub unit: Unit,
    pub entry: usize,
    pub name: Seq<char>,
    pub offset: u64,
    pub ty: usize,
}

/// A field of a product type: its name, its offset in bytes from the
/// start of the value, and the entry that describes its type.
#[derive(Debug)]
pub struct Field<'dwarf> {
    dwarf: &'dwarf Dwarf,
    unit: &'dwarf Unit,
    entry: usize,
    name: String,
    offset: u64,
    ty: usize,
}

impl<'dwarf> View for Field<'dwarf> {
    type V = FieldSpec;

    closed spec fn view(&self) -> FieldSpec {
        FieldSpec {
            dwarf: *self.dwarf,
            unit: *self.unit,
            entry: self.entry,
            name: self.name@,
            offset: self.offset,
            ty: self.ty,
        }
    }
}

impl<'dwarf> Clone for Field<'dwarf> {
    fn clone(&self) -> (copy: Field<'dwarf>)
        ensures
            copy@ == self@,
    {
        Field {
            dwarf: self.dwarf,
            unit: self.unit,
            entry: self.entry,
            name: self.name.clone(),
            offset: self.offset,
            ty: self.ty,
        }
    }
}

/// The views of the fields.
pub open spec fn field_views<'dwarf>(fields: Seq<Field<'dwarf>>) -> Seq<FieldSpec> {
    fields.map_values(|field: Field<'dwarf>| field@)
}

impl<'dwarf> Field<'dwarf> {
    /// The offset that a member declares.
    pub open spec fn spec_offset(unit: Unit, entry: usize) -> Result<u64, Failure> {
        match spec_get_data_member_location(unit, entry) {
            Err(e) => Err(e),
            Ok(LocationSpec::Offset(offset)) => Ok(offset),
            Ok(_) => Err(Failure::ValueMismatch),
        }
    }

    /// The field that a member entry describes.
    pub open spec fn spec_from_dw_tag_member(dwarf: Dwarf, unit: Unit, entry: usize) -> Result<
        FieldSpec,
        Failure,
    > {
        match spec_check_tag(unit, entry, DW_TAG_member) {
            Err(e) => Err(e),
            Ok(()) => match spec_get_name(dwarf, unit, entry) {
                Err(e) => Err(e),
                Ok(name) => match Self::spec_offset(unit, entry) {
                    Err(e) => Err(e),
                    Ok(offset) => match spec_get_type(unit, entry) {
                        Err(e) => Err(e),
                        Ok(ty) => Ok(FieldSpec { dwarf, unit, entry, name, offset, ty }),
                    },
                },
            },
        }
    }

    /// The offset that the member declares, which must be a constant.
    fn offset_of(unit: &Unit, entry: usize) -> (r: Result<u64, ErrorKind>)
        ensures
            agrees(r, Self::spec_offset(*unit, entry)),
    {
        match get_data_member_location(unit, entry) {
            Err(e) => Err(e),
            Ok(Location::Offset(offset)) => Ok(offset),
            Ok(_) => Err(ErrorKind::ValueMismatch),
        }
    }

    /// Reads a field from its entry: a member with a name, a constant
    /// offset and a type.
    pub fn from_dw_tag_member(dwarf: &'dwarf Dwarf, unit: &'dwarf Unit, entry: usize) -> (r: Result<
        Field<'dwarf>,
        ErrorKind,
    >)
        ensures
            match r {
                Ok(field) => Self::spec_from_dw_tag_member(*dwarf, *unit, entry) == Ok::<
                    FieldSpec,
                    Failure,
                >(field@),
                Err(e) => Self::spec_from_dw_tag_member(*dwarf, *unit, entry) == Err::<
                    FieldSpec,
                    Failure,
                >(e@),
            },
    {
        match check_tag(unit, entry, DW_TAG_member) {
            Err(e) => {
                return Err(e);
            },
            Ok(()) => {},
        }
        let name = match get_name(dwarf, unit, entry) {
            Err(e) => {
                return Err(e);
            },
            Ok(name) => name,
        };
        let offset = match Self::offset_of(unit, entry) {
            Err(e) => {
                return Err(e);
            },
            Ok(offset) => offset,
        };
        match get_type(unit, entry) {
            Err(e) => Err(e),
            Ok(ty) => Ok(Field { dwarf, unit, entry, name, offset, ty }),
        }
    }

    /// The name of the field.
    pub fn name(&self) -> (name: &String)
        ensures
            name@ == self@.name,
    {
        &self.name
    }

    /// The offset of the field from the start of the value, in bytes.
    pub fn offset(&self) -> (offset: u64)
        ensures
            offset == self@.offset,
    {
        self.offset
    }

    /// The offset of the entry that describes the type of the field.
    pub fn type_entry(&self) -> (ty: usize)
        ensures
            ty == self@.ty,
    {
        self.ty
    }

    /// The type of the field.
    pub fn ty(&self) -> (r: Result<Type<'dwarf>, ErrorKind>)
        ensures
            match r {
                Ok(ty) => Type::spec_from_die(self@.dwarf, self@.unit, self@.ty) == Ok::<
                    TypeSpec,
                    Failure,
                >(ty@),
                Err(e) => Type::spec_from_die(self@.dwarf, self@.unit, self@.ty) == Err::<
                    TypeSpec,
                    Failure,
                >(e@),
            },
    {
        Type::from_die(self.dwarf, self.unit, self.ty)
    }
}

/// What a child of a product type yields: a field where it is a member,
/// and nothing where it is anything else.
pub open spec fn spec_member(dwarf: Dwarf, unit: Unit, child: usize) -> Result<
    Option<FieldSpec>,
    Failure,
> {
    match spec_tag(unit, child) {
        Err(e) => Err(e),
        Ok(found) => if found != DW_TAG_member {
            Ok(None)
        } else {
            match Field::spec_from_dw_tag_member(dwarf, unit, child) {
                Err(e) => Err(e),
                Ok(field) => Ok(Some(field)),
            }
        },
    }
}

/// [`spec_member`] for the children of one unit.
pub open spec fn member_of(dwarf: Dwarf, unit: Unit) -> spec_fn(usize) -> Result<
    Option<FieldSpec>,
    Failure,
> {
    |child: usize| spec_member(dwarf, unit, child)
}

/// The fields of an entry: its immediate children that are members, in
/// their order.
pub open spec fn spec_fields(dwarf: Dwarf, unit: Unit, entry: usize) -> Result<
    Seq<FieldSpec>,
    Failure,
> {
    match spec_children(unit, entry) {
        Err(e) => Err(e),
        Ok(children) => collect_all(children, member_of(dwarf, unit)),
    }
}

/// Reads what a child of a product type yields.
fn member<'dwarf>(dwarf: &'dwarf Dwarf, unit: &'dwarf Unit, child: usize) -> (r: Result<
    Option<Field<'dwarf>>,
    ErrorKind,
>)
    ensures
        match r {
            Ok(Some(field)) => spec_member(*dwarf, *unit, child) == Ok::<
                Option<FieldSpec>,
                Failure,
            >(Some(field@)),
            Ok(None) => spec_member(*dwarf, *unit, child) == Ok::<Option<FieldSpec>, Failure>(None),
            Err(e) => spec_member(*dwarf, *unit, child) == Err::<Option<FieldSpec>, Failure>(e@),
        },
{
    match tag(unit, child) {
        Err(e) => Err(e),
        Ok(found) => if found != DW_TAG_member {
            Ok(None)
        } else {
            match Field::from_dw_tag_member(dwarf, unit, child) {
                Err(e) => Err(e),
                Ok(field) => Ok(Some(field)),
            }
        },
    }
}

/// Whether `failure` is that of the first of `children` that cannot be
/// read as a child of a product type.
pub open spec fn first_failure(
    dwarf: Dwarf,
    unit: Unit,
    children: Seq<usize>,
    failure: Failure,
) -> bool {
    exists|i: int|
        0 <= i < children.len() && #[trigger] member_of(dwarf, unit)(children[i]) == Err::<
            Option<FieldSpec>,
            Failure,
        >(failure) && forall|j: int|
            0 <= j < i ==> (#[trigger] member_of(dwarf, unit)(children[j])) is Ok
}

/// Reads the fields of an entry: its immediate children that are members,
/// in their order. The first child that cannot be read ends the reading.
#[verifier::loop_isolation(false)]
pub fn fields_of<'dwarf>(dwarf: &'dwarf Dwarf, unit: &'dwarf Unit, entry: usize) -> (r: Result<
    Vec<Field<'dwarf>>,
    ErrorKind,
>)
    ensures
        match r {
            Ok(fields) => spec_fields(*dwarf, *unit, entry) == Ok::<Seq<FieldSpec>, Failure>(
                field_views(fields@),
            ),
            Err(e) => spec_fields(*dwarf, *unit, entry) == Err::<Seq<FieldSpec>, Failure>(e@),
        },
        r is Ok ==> forall|i: int|
            0 <= i < spec_children(*unit, entry)->Ok_0.len() ==> (#[trigger] member_of(
                *dwarf,
                *unit,
            )(spec_children(*unit, entry)->Ok_0[i])) is Ok,
        r matches Err(e) ==> spec_children(*unit, entry) is Err || first_failure(
            *dwarf,
            *unit,
            spec_children(*unit, entry)->Ok_0,
            e@,
        ),
{
    let children = match children(unit, entry) {
        Err(e) => {
            return Err(e);
        },
        Ok(children) => children,
    };
    proof {
        let f = member_of(*dwarf, *unit);
        if collect_all(children@, f) is Ok {
            lemma_collect_reads_all(children@, f, children@.len() as int);
        } else {
            lemma_collect_first_failure(children@, f, children@.len() as int);
        }
    }
    let mut fields: Vec<Field<'dwarf>> = Vec::new();
    let mut i: usize = 0;
    assert(field_views(fields@) == Seq::<FieldSpec>::empty());
    while i < children.len()
        invariant
            i <= children.len(),
            spec_children(*unit, entry) == Ok::<Seq<usize>, Failure>(children@),
            collect(children@, member_of(*dwarf, *unit), i as int) == Ok::<
                Seq<FieldSpec>,
                Failure,
            >(field_views(fields@)),
        decreases children.len() - i,
    {
        match member(dwarf, unit, children[i]) {
            Err(e) => {
                proof {
                    lemma_collect_fails(
                        children@,
                        member_of(*dwarf, *unit),
                        i + 1,
                        children@.len() as int,
                    );
                }
                return Err(e);
            },
            Ok(None) => {},
            Ok(Some(field)) => {
                assert(field_views(fields@.push(field)) == field_views(fields@).push(field@));
                fields.push(field);
            },
        }
        i += 1;
    }
    Ok(fields)
}

/// A [`Struct`] as a mathematical value.
pub struct StructSpec {
    pub dwarf: Dwarf,
    pub unit: Unit,
    pub entry: usize,
    pub name: Seq<char>,
}

/// A product type: a record, a tuple, a unit struct.
#[derive(Debug)]
pub struct Struct<'dwarf> {
    dwarf: &'dwarf Dwarf,
    unit: &'dwarf Unit,
    entry: usize,
    name: String,
}

impl<'dwarf> View for Struct<'dwarf> {
    type V = StructSpec;

    closed spec fn view(&self) -> StructSpec {
        StructSpec { dwarf: *self.dwarf, unit: *self.unit, entry: self.entry, name: self.name@ }
    }
}

impl<'dwarf> Clone for Struct<'dwarf> {
    fn clone(&self) -> (copy: Struct<'dwarf>)
        ensures
            copy@ == self@,
    {
        Struct { dwarf: self.dwarf, unit: self.unit, entry: self.entry, name: self.name.clone() }
    }
}

impl<'dwarf> Struct<'dwarf> {
    /// The product type that a structure entry describes.
    pub open spec fn spec_from_dw_tag_structure_type(
        dwarf: Dwarf,
        unit: Unit,
        entry: usize,
    ) -> Result<StructSpec, Failure> {
        match spec_check_tag(unit, entry, DW_TAG_structure_type) {
            Err(e) => Err(e),
            Ok(()) => match spec_get_name(dwarf, unit, entry) {
                Err(e) => Err(e),
                Ok(name) => Ok(StructSpec { dwarf, unit, entry, name }),
            },
        }
    }

    /// Reads a product type from its entry: a structure with a name.
    pub fn from_dw_tag_structure_type(
        dwarf: &'dwarf Dwarf,
        unit: &'dwarf Unit,
        entry: usize,
    ) -> (r: Result<Struct<'dwarf>, ErrorKind>)
        ensures
            match r {
                Ok(s) => Self::spec_from_dw_tag_structure_type(*dwarf, *unit, entry) == Ok::<
                    StructSpec,
                    Failure,
                >(s@),
                Err(e) => Self::spec_from_dw_tag_structure_type(*dwarf, *unit, entry) == Err::<
                    StructSpec,
                    Failure,
                >(e@),
            },
    {
        match check_tag(unit, entry, DW_TAG_structure_type) {
            Err(e) => {
                return Err(e);
            },
            Ok(()) => {},
        }
        match get_name(dwarf, unit, entry) {
            Err(e) => Err(e),
            Ok(name) => Ok(Struct { dwarf, unit, entry, name }),
        }
    }

    /// The name of the type.
    pub fn name(&self) -> (name: &String)
        ensures
            name@ == self@.name,
    {
        &self.name
    }

    /// The size in bytes that the type declares.
    pub fn size(&self) -> (r: Result<u64, ErrorKind>)
        ensures
            agrees(r, spec_get_size(self@.unit, self@.entry)),
    {
        get_size(self.unit, self.entry)
    }

    /// The alignment in bytes that the type declares.
    pub fn align(&self) -> (r: Result<u64, ErrorKind>)
        ensures
            agrees(r, spec_get_align(self@.unit, self@.entry)),
    {
        get_align(self.unit, self.entry)
    }

    /// The fields of the type, in the order of their declaration.
    pub fn fields(&self) -> (r: Result<Vec<Field<'dwarf>>, ErrorKind>)
        ensures
            match r {
                Ok(fields) => spec_fields(self@.dwarf, self@.unit, self@.entry) == Ok::<
                    Seq<FieldSpec>,
                    Failure,
                >(field_views(fields@)),
                Err(e) => spec_fields(self@.dwarf, self@.unit, self@.entry) == Err::<
                    Seq<FieldSpec>,
                    Failure,
                >(e@),
            },
    {
        fields_of(self.dwarf, self.unit, self.entry)
    }
}

} // verus!
