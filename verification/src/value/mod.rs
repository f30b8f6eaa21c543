//! Values: a schema laid over a span of bytes.
//!
//! A value owns neither its schema's metadata nor its bytes. Every
//! projection takes a part of the span and pairs it with the schema of
//! that part.

pub mod atom;
pub mod bytes;
pub mod enumeration;
pub mod reference;
pub mod slice;
pub mod structure;
pub mod text;

pub use self::atom::Atom;
pub use self::enumeration::{select_variant, Enum, Variant};
pub use self::reference::Ref;
pub use self::slice::Slice;
pub use self::structure::{Field, Struct};

use crate::error::{ErrorKind, Failure};
use crate::schema::{Type, TypeSpec};
use vstd::prelude::*;

verus! {

/// A schema of kind `S` laid over bytes: the view of a value.
pub struct Laid<S> {
    pub schema: S,
    pub bytes: Seq<u8>,
}

/// What is said of a part that does not lie within the bytes of its
/// whole.
pub open spec fn out_of_bounds() -> Seq<char> {
    "Part lies outside of the value"@
}

/// Whether `len` bytes suffice for a value of the type: they do unless
/// the type declares a greater size.
pub open spec fn fits(ty: TypeSpec, len: nat) -> bool {
    Type::spec_size(ty) matches Ok(size) ==> size <= len
}

/// A value of any type.
#[derive(Debug)]
pub struct Value<'value, 'dwarf> {
    schema: Type<'dwarf>,
    bytes: &'value [u8],
}

impl<'value, 'dwarf> View for Value<'value, 'dwarf> {
    type V = Laid<TypeSpec>;

    closed spec fn view(&self) -> Laid<TypeSpec> {
        Laid { schema: self.schema@, bytes: self.bytes@ }
    }
}

/// The part of `bytes` that starts at `offset` and is `size` bytes long.
pub open spec fn spec_part(bytes: Seq<u8>, offset: u64, size: u64) -> Result<Seq<u8>, Failure> {
    if offset + size <= bytes.len() {
        Ok(bytes.subrange(offset as int, offset + size))
    } else {
        Err(Failure::Other(out_of_bounds()))
    }
}

/// The part of `bytes` that starts at `offset` and is `size` bytes long,
/// if it lies within them.
pub fn part<'value>(bytes: &'value [u8], offset: u64, size: u64) -> (r: Result<
    &'value [u8],
    ErrorKind,
>)
    ensures
        match r {
            Ok(span) => spec_part(bytes@, offset, size) == Ok::<Seq<u8>, Failure>(span@),
            Err(e) => spec_part(bytes@, offset, size) == Err::<Seq<u8>, Failure>(e@),
        },
{
    let len = bytes.len();
    if offset <= len as u64 && size <= len as u64 - offset {
        Ok(vstd::slice::slice_subrange(bytes, offset as usize, (offset + size) as usize))
    } else {
        Err(ErrorKind::MakeAMoreSpecificVariant("Part lies outside of the value"))
    }
}

impl<'value, 'dwarf> Value<'value, 'dwarf> {
    /// What laying a type over bytes yields, where the size of the type
    /// can be read: the value, or nothing where the bytes are too few.
    pub open spec fn spec_new(ty: TypeSpec, bytes: Seq<u8>) -> Result<
        Option<Laid<TypeSpec>>,
        Failure,
    > {
        match Type::spec_size(ty) {
            Err(e) => Err(e),
            Ok(size) => if size <= bytes.len() {
                Ok(Some(Laid { schema: ty, bytes }))
            } else {
                Ok(None)
            },
        }
    }

    /// Lays the type over the bytes.
    ///
    /// The caller sees to it that the bytes are no fewer than the type
    /// declares, and that they hold a value of the type.
    pub fn with_type(ty: Type<'dwarf>, bytes: &'value [u8]) -> (value: Value<'value, 'dwarf>)
        requires
            fits(ty@, bytes@.len()),
        ensures
            value@ == (Laid { schema: ty@, bytes: bytes@ }),
    {
        Value { schema: ty, bytes }
    }

    /// Lays the type over the bytes if they are no fewer than the type
    /// declares; `None` if they are fewer.
    pub fn new(ty: Type<'dwarf>, bytes: &'value [u8]) -> (r: Result<
        Option<Value<'value, 'dwarf>>,
        ErrorKind,
    >)
        ensures
            match r {
                Ok(Some(value)) => Self::spec_new(ty@, bytes@) == Ok::<
                    Option<Laid<TypeSpec>>,
                    Failure,
                >(Some(value@)),
                Ok(None) => Self::spec_new(ty@, bytes@) == Ok::<Option<Laid<TypeSpec>>, Failure>(
                    None,
                ),
                Err(e) => Self::spec_new(ty@, bytes@) == Err::<Option<Laid<TypeSpec>>, Failure>(
                    e@,
                ),
            },
    {
        match ty.size() {
            Err(e) => Err(e),
            Ok(size) => if size <= bytes.len() as u64 {
                Ok(Some(Value::with_type(ty, bytes)))
            } else {
                Ok(None)
            },
        }
    }

    /// The schema of the value.
    pub fn schema(&self) -> (schema: &Type<'dwarf>)
        ensures
            schema@ == self@.schema,
    {
        &self.schema
    }

    /// The bytes of the value.
    pub fn bytes(&self) -> (bytes: &'value [u8])
        ensures
            bytes@ == self@.bytes,
    {
        self.bytes
    }

    /// The text of the value: numbers in decimal, records as their name
    /// and their fields.
    pub fn to_string(&self) -> (r: Result<String, ErrorKind>)
        ensures
            match r {
                Ok(s) => self::text::spec_text(self@, self::text::TEXT_DEPTH as nat) == Ok::<
                    Seq<char>,
                    Failure,
                >(s@),
                Err(e) => self::text::spec_text(self@, self::text::TEXT_DEPTH as nat) == Err::<
                    Seq<char>,
                    Failure,
                >(e@),
            },
    {
        self::text::text(self, self::text::TEXT_DEPTH)
    }

    /// The value as a primitive, if it is one.
    pub fn as_atom(&self) -> (r: Result<Atom<'value>, ErrorKind>)
        ensures
            match r {
                Ok(atom) => self@.schema == TypeSpec::Atom(atom@.schema) && atom@.bytes
                    == self@.bytes,
                Err(e) => !(self@.schema is Atom) && e@ == Failure::Narrowing,
            },
    {
        match &self.schema {
            Type::Atom(schema) => Ok(Atom::new(schema.clone(), self.bytes)),
            _ => Err(ErrorKind::Narrowing),
        }
    }

    /// The value as a value of a product type, if it is one.
    pub fn as_struct(&self) -> (r: Result<Struct<'value, 'dwarf>, ErrorKind>)
        ensures
            match r {
                Ok(s) => self@.schema == TypeSpec::Struct(s@.schema) && s@.bytes == self@.bytes,
                Err(e) => !(self@.schema is Struct) && e@ == Failure::Narrowing,
            },
    {
        match &self.schema {
            Type::Struct(schema) => Ok(Struct::new(schema.clone(), self.bytes)),
            _ => Err(ErrorKind::Narrowing),
        }
    }

    /// The value as a value of a sum type, if it is one.
    pub fn as_enum(&self) -> (r: Result<Enum<'value, 'dwarf>, ErrorKind>)
        ensures
            match r {
                Ok(s) => self@.schema == TypeSpec::Enum(s@.schema) && s@.bytes == self@.bytes,
                Err(e) => !(self@.schema is Enum) && e@ == Failure::Narrowing,
            },
    {
        match &self.schema {
            Type::Enum(schema) => Ok(Enum::new(schema.clone(), self.bytes)),
            _ => Err(ErrorKind::Narrowing),
        }
    }

    /// The value as a sequence, if it is one.
    pub fn as_slice(&self) -> (r: Result<Slice<'value, 'dwarf>, ErrorKind>)
        ensures
            match r {
                Ok(s) => self@.schema == TypeSpec::Slice(s@.schema) && s@.bytes == self@.bytes,
                Err(e) => !(self@.schema is Slice) && e@ == Failure::Narrowing,
            },
    {
        match &self.schema {
            Type::Slice(schema) => Ok(Slice::new(self.bytes, schema.clone())),
            _ => Err(ErrorKind::Narrowing),
        }
    }

    /// The value as a pointer, if it is one.
    pub fn as_ref(&self) -> (r: Result<Ref<'value, 'dwarf>, ErrorKind>)
        ensures
            match r {
                Ok(p) => self@.schema == TypeSpec::Ref(p@.schema) && p@.bytes == self@.bytes,
                Err(e) => !(self@.schema is Ref) && e@ == Failure::Narrowing,
            },
    {
        match &self.schema {
            Type::Ref(schema) => Ok(Ref::new(schema.clone(), self.bytes)),
            _ => Err(ErrorKind::Narrowing),
        }
    }
}

} // verus!
