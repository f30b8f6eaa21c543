//! Values of product types, and the projection of their fields.

use crate::error::{ErrorKind, Failure};
use crate::schema::{Type, TypeSpec};
use crate::schema::structure::{
    field_views, spec_fields, Field as FieldSchema, FieldSpec, Struct as Schema, StructSpec,
};
use crate::value::{part, spec_part, Laid, Value};
use vstd::prelude::*;

verus! {

/// A field of a value: the schema of the field, over the bytes of the
/// value that has the field.
#[derive(Debug)]
pub struct Field<'value, 'dwarf> {
    schema: FieldSchema<'dwarf>,
    bytes: &'value [u8],
}

impl<'value, 'dwarf> View for Field<'value, 'dwarf> {
    type V = Laid<FieldSpec>;

    closed spec fn view(&self) -> Laid<FieldSpec> {
        Laid { schema: self.schema@, bytes: self.bytes@ }
    }
}

/// The value of a field: the type of the field, laid over the bytes that
/// start at the offset of the field and are as many as the type declares.
/// A field that does not lie within the bytes of its parent has no value.
pub open spec fn spec_field_value(field: FieldSpec, bytes: Seq<u8>) -> Result<
    Laid<TypeSpec>,
    Failure,
> {
    match Type::spec_from_die(field.dwarf, field.unit, field.ty) {
        Err(e) => Err(e),
        Ok(ty) => match Type::spec_size(ty) {
            Err(e) => Err(e),
            Ok(size) => match spec_part(bytes, field.offset, size) {
                Err(e) => Err(e),
                Ok(span) => Ok(Laid { schema: ty, bytes: span }),
            },
        },
    }
}

/// Projects a field out of the bytes of its parent.
pub fn field_value<'value, 'dwarf>(field: &FieldSchema<'dwarf>, bytes: &'value [u8]) -> (r: Result<
    Value<'value, 'dwarf>,
    ErrorKind,
>)
    ensures
        match r {
            Ok(value) => spec_field_value(field@, bytes@) == Ok::<Laid<TypeSpec>, Failure>(value@),
            Err(e) => spec_field_value(field@, bytes@) == Err::<Laid<TypeSpec>, Failure>(e@),
        },
{
    let ty = match field.ty() {
        Err(e) => {
            return Err(e);
        },
        Ok(ty) => ty,
    };
    let size = match ty.size() {
        Err(e) => {
            return Err(e);
        },
        Ok(size) => size,
    };
    match part(bytes, field.offset(), size) {
        Err(e) => Err(e),
        Ok(span) => Ok(Value::with_type(ty, span)),
    }
}

impl<'value, 'dwarf> Field<'value, 'dwarf> {
    /// The field of the given schema, of a value that has the given
    /// bytes.
    pub fn new(schema: FieldSchema<'dwarf>, bytes: &'value [u8]) -> (field: Field<'value, 'dwarf>)
        ensures
            field@ == (Laid { schema: schema@, bytes: bytes@ }),
    {
        Field { schema, bytes }
    }

    /// The schema of the field.
    pub fn schema(&self) -> (schema: &FieldSchema<'dwarf>)
        ensures
            schema@ == self@.schema,
    {
        &self.schema
    }

    /// The name of the field.
    pub fn name(&self) -> (name: &String)
        ensures
            name@ == self@.schema.name,
    {
        self.schema.name()
    }

    /// The value of the field.
    pub fn value(&self) -> (r: Result<Value<'value, 'dwarf>, ErrorKind>)
        ensures
            match r {
                Ok(value) => spec_field_value(self@.schema, self@.bytes) == Ok::<
                    Laid<TypeSpec>,
                    Failure,
                >(value@),
                Err(e) => spec_field_value(self@.schema, self@.bytes) == Err::<
                    Laid<TypeSpec>,
                    Failure,
                >(e@),
            },
    {
        field_value(&self.schema, self.bytes)
    }
}

/// The views of the fields.
pub open spec fn laid_fields<'value, 'dwarf>(fields: Seq<Field<'value, 'dwarf>>) -> Seq<
    Laid<FieldSpec>,
> {
    fields.map_values(|field: Field<'value, 'dwarf>| field@)
}

/// Each of the field schemas, over the same bytes.
pub open spec fn spec_lay(fields: Seq<FieldSpec>, bytes: Seq<u8>) -> Seq<Laid<FieldSpec>> {
    fields.map_values(|schema: FieldSpec| Laid { schema, bytes })
}

/// Lays each of the field schemas over the bytes of the value that has
/// the fields.
pub fn lay<'value, 'dwarf>(schemas: &Vec<FieldSchema<'dwarf>>, bytes: &'value [u8]) -> (fields: Vec<
    Field<'value, 'dwarf>,
>)
    ensures
        laid_fields(fields@) == spec_lay(field_views(schemas@), bytes@),
{
    let mut fields: Vec<Field<'value, 'dwarf>> = Vec::new();
    let mut i: usize = 0;
    while i < schemas.len()
        invariant
            i <= schemas.len(),
            fields@.len() == i,
            forall|j: int|
                0 <= j < i ==> (#[trigger] fields@[j])@ == (Laid {
                    schema: schemas@[j]@,
                    bytes: bytes@,
                }),
        decreases schemas.len() - i,
    {
        fields.push(Field::new(schemas[i].clone(), bytes));
        i += 1;
    }
    assert(laid_fields(fields@) =~= spec_lay(field_views(schemas@), bytes@));
    fields
}

/// A value of a product type.
#[derive(Debug)]
pub struct Struct<'value, 'dwarf> {
    schema: Schema<'dwarf>,
    bytes: &'value [u8],
}

impl<'value, 'dwarf> View for Struct<'value, 'dwarf> {
    type V = Laid<StructSpec>;

    closed spec fn view(&self) -> Laid<StructSpec> {
        Laid { schema: self.schema@, bytes: self.bytes@ }
    }
}

impl<'value, 'dwarf> Struct<'value, 'dwarf> {
    /// The fields of a value of a product type.
    pub open spec fn spec_fields(this: Laid<StructSpec>) -> Result<Seq<Laid<FieldSpec>>, Failure> {
        match spec_fields(this.schema.dwarf, this.schema.unit, this.schema.entry) {
            Err(e) => Err(e),
            Ok(fields) => Ok(spec_lay(fields, this.bytes)),
        }
    }

    /// The value of the given type over the given bytes.
    pub fn new(schema: Schema<'dwarf>, bytes: &'value [u8]) -> (value: Struct<'value, 'dwarf>)
        ensures
            value@ == (Laid { schema: schema@, bytes: bytes@ }),
    {
        Struct { schema, bytes }
    }

    /// The schema of the value.
    pub fn schema(&self) -> (schema: &Schema<'dwarf>)
        ensures
            schema@ == self@.schema,
    {
        &self.schema
    }

    /// The name of the type of the value.
    pub fn name(&self) -> (name: &String)
        ensures
            name@ == self@.schema.name,
    {
        self.schema.name()
    }

    /// The fields of the value, in the order of their declaration.
    pub fn fields(&self) -> (r: Result<Vec<Field<'value, 'dwarf>>, ErrorKind>)
        ensures
            match r {
                Ok(fields) => Self::spec_fields(self@) == Ok::<Seq<Laid<FieldSpec>>, Failure>(
                    laid_fields(fields@),
                ),
                Err(e) => Self::spec_fields(self@) == Err::<Seq<Laid<FieldSpec>>, Failure>(e@),
            },
    {
        match self.schema.fields() {
            Err(e) => Err(e),
            Ok(schemas) => Ok(lay(&schemas, self.bytes)),
        }
    }
}

} // verus!
