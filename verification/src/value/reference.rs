//! Values that point to other values.

use crate::dwarf::unit_little_endian;
use crate::entry::{agrees, spec_to_usize, to_usize};
use crate::error::{ErrorKind, Failure};
use crate::schema::{Type, TypeSpec};
use crate::schema::reference::{Ref as Schema, RefSpec};
use crate::value::{part, spec_part, Laid, Value};
use crate::value::bytes::{lemma_limits, spec_unsigned, unsigned};
use vstd::prelude::*;

verus! {

/// The address that a pointer of `size` bytes holds: the unsigned number
/// in its first `size` bytes. A pointer wider than eight bytes, or wider
/// than its span, holds no address that can be read.
pub open spec fn spec_address(bytes: Seq<u8>, size: u64, little_endian: bool) -> Result<
    u64,
    Failure,
> {
    if size > 8 {
        Err(Failure::ValueMismatch)
    } else {
        match spec_part(bytes, 0, size) {
            Err(e) => Err(e),
            Ok(span) => Ok(spec_unsigned(span, little_endian) as u64),
        }
    }
}

/// Reads the address that a pointer of `size` bytes holds.
pub fn address(bytes: &[u8], size: u64, little_endian: bool) -> (r: Result<u64, ErrorKind>)
    ensures
        agrees(r, spec_address(bytes@, size, little_endian)),
        r matches Ok(a) ==> spec_part(bytes@, 0, size) matches Ok(span) && a == spec_unsigned(
            span,
            little_endian,
        ),
{
    if size > 8 {
        return Err(ErrorKind::ValueMismatch);
    }
    match part(bytes, 0, size) {
        Err(e) => Err(e),
        Ok(span) => {
            proof {
                lemma_limits();
                crate::value::bytes::lemma_limit_grows(span@.len(), 8);
            }
            Ok(unsigned(span, little_endian) as u64)
        },
    }
}

/// A value of a pointer type.
#[derive(Debug)]
pub struct Ref<'value, 'dwarf> {
    schema: Schema<'dwarf>,
    bytes: &'value [u8],
}

impl<'value, 'dwarf> View for Ref<'value, 'dwarf> {
    type V = Laid<RefSpec>;

    closed spec fn view(&self) -> Laid<RefSpec> {
        Laid { schema: self.schema@, bytes: self.bytes@ }
    }
}

impl<'value, 'dwarf> Ref<'value, 'dwarf> {
    /// The address that a pointer value holds.
    pub open spec fn spec_as_ptr(this: Laid<RefSpec>) -> Result<u64, Failure> {
        match Schema::spec_size(this.schema.unit, this.schema.entry) {
            Err(e) => Err(e),
            Ok(size) => spec_address(this.bytes, size, unit_little_endian(this.schema.unit)),
        }
    }

    /// The number of bytes of the value that a pointer points to.
    pub open spec fn spec_target_size(this: Laid<RefSpec>) -> Result<usize, Failure> {
        match Type::spec_from_die(this.schema.dwarf, this.schema.unit, this.schema.target) {
            Err(e) => Err(e),
            Ok(ty) => match Type::spec_size(ty) {
                Err(e) => Err(e),
                Ok(size) => spec_to_usize(size),
            },
        }
    }

    /// The value that a pointer points to, given the bytes that lie at
    /// its address: the type pointed to, over as many of those bytes as
    /// that type declares.
    pub open spec fn spec_deref(this: Laid<RefSpec>, target: Seq<u8>) -> Result<
        Laid<TypeSpec>,
        Failure,
    > {
        match Type::spec_from_die(this.schema.dwarf, this.schema.unit, this.schema.target) {
            Err(e) => Err(e),
            Ok(ty) => match Type::spec_size(ty) {
                Err(e) => Err(e),
                Ok(size) => match spec_part(target, 0, size) {
                    Err(e) => Err(e),
                    Ok(span) => Ok(Laid { schema: ty, bytes: span }),
                },
            },
        }
    }

    /// The value of the given type over the given bytes.
    pub fn new(schema: Schema<'dwarf>, bytes: &'value [u8]) -> (value: Ref<'value, 'dwarf>)
        ensures
            value@ == (Laid { schema: schema@, bytes: bytes@ }),
    {
        Ref { schema, bytes }
    }

    /// The schema of the value.
    pub fn schema(&self) -> (schema: &Schema<'dwarf>)
        ensures
            schema@ == self@.schema,
    {
        &self.schema
    }

    /// The address that the pointer holds.
    pub fn as_ptr(&self) -> (r: Result<u64, ErrorKind>)
        ensures
            agrees(r, Self::spec_as_ptr(self@)),
    {
        match self.schema.size() {
            Err(e) => Err(e),
            Ok(size) => address(self.bytes, size, self.schema.unit().little_endian()),
        }
    }

    /// The number of bytes that lie at the address and make up the value
    /// pointed to.
    pub fn target_size(&self) -> (r: Result<usize, ErrorKind>)
        ensures
            agrees(r, Self::spec_target_size(self@)),
    {
        match self.schema.target() {
            Err(e) => Err(e),
            Ok(ty) => match ty.size() {
                Err(e) => Err(e),
                Ok(size) => to_usize(size),
            },
        }
    }

    /// The value pointed to, given the bytes that lie at the address of
    /// the pointer. They must be no fewer than the type pointed to
    /// declares.
    pub fn deref(&self, target: &'value [u8]) -> (r: Result<Value<'value, 'dwarf>, ErrorKind>)
        ensures
            match r {
                Ok(value) => Self::spec_deref(self@, target@) == Ok::<Laid<TypeSpec>, Failure>(
                    value@,
                ),
                Err(e) => Self::spec_deref(self@, target@) == Err::<Laid<TypeSpec>, Failure>(e@),
            },
    {
        let ty = match self.schema.target() {
            Err(e) => {
                return Err(e);
            },
            Ok(ty) => ty,
        };
        let size = match ty.size() {
            Err(e) => {
                return Err(e);
            },
            Ok(size) => size,
        };
        match part(target, 0, size) {
            Err(e) => Err(e),
            Ok(span) => Ok(Value::with_type(ty, span)),
        }
    }
}

} // verus!
