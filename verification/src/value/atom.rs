//! Values of primitive types, and their narrowing to numbers.

use crate::error::{ErrorKind, Failure};
use crate::schema::atom::{Atom as Schema, AtomKind, AtomSpec};
use crate::value::Laid;
use crate::value::bytes::{lemma_limits, signed, spec_signed, spec_unsigned, unsigned};
use vstd::prelude::*;

verus! {

/// A value of a primitive type.
#[derive(Debug)]
pub struct Atom<'value> {
    schema: Schema,
    bytes: &'value [u8],
}

impl<'value> View for Atom<'value> {
    type V = Laid<AtomSpec>;

    closed spec fn view(&self) -> Laid<AtomSpec> {
        Laid { schema: self.schema@, bytes: self.bytes@ }
    }
}

impl<'value> Atom<'value> {
    /// The bytes of a value, where it is of the kind `kind` and has the
    /// bytes of that kind: the first bytes of the span, as many as the
    /// kind takes. Anything else cannot be narrowed to the kind.
    pub open spec fn spec_narrow(this: Laid<AtomSpec>, kind: AtomKind) -> Result<Seq<u8>, Failure> {
        if this.schema.kind == kind && kind.spec_size() <= this.bytes.len() {
            Ok(this.bytes.subrange(0, kind.spec_size() as int))
        } else {
            Err(Failure::Narrowing)
        }
    }

    /// The unsigned number that a value of the kind `kind` holds.
    pub open spec fn spec_unsigned(this: Laid<AtomSpec>, kind: AtomKind) -> Result<nat, Failure> {
        match Self::spec_narrow(this, kind) {
            Err(e) => Err(e),
            Ok(span) => Ok(spec_unsigned(span, this.schema.little_endian)),
        }
    }

    /// The signed number that a value of the kind `kind` holds.
    pub open spec fn spec_signed(this: Laid<AtomSpec>, kind: AtomKind) -> Result<int, Failure> {
        match Self::spec_narrow(this, kind) {
            Err(e) => Err(e),
            Ok(span) => Ok(spec_signed(span, this.schema.little_endian)),
        }
    }

    /// The truth value that a value holds: a byte that is 0 or 1.
    pub open spec fn spec_bool(this: Laid<AtomSpec>) -> Result<bool, Failure> {
        match Self::spec_narrow(this, AtomKind::Bool) {
            Err(e) => Err(e),
            Ok(span) => if span[0] == 0 {
                Ok(false)
            } else if span[0] == 1 {
                Ok(true)
            } else {
                Err(Failure::Narrowing)
            },
        }
    }

    /// The value of the given type over the given bytes.
    pub fn new(schema: Schema, bytes: &'value [u8]) -> (atom: Atom<'value>)
        ensures
            atom@ == (Laid { schema: schema@, bytes: bytes@ }),
    {
        Atom { schema, bytes }
    }

    /// The schema of the value.
    pub fn schema(&self) -> (schema: &Schema)
        ensures
            schema@ == self@.schema,
    {
        &self.schema
    }

    /// Narrows the value to the kind `kind`.
    ///
    /// This succeeds only if the value is of exactly that kind and the
    /// span holds the bytes of such a value. What is returned starts
    /// where the span of the value starts.
    pub fn narrow(&self, kind: AtomKind) -> (r: Result<&'value [u8], ErrorKind>)
        ensures
            match r {
                Ok(span) => Self::spec_narrow(self@, kind) == Ok::<Seq<u8>, Failure>(span@),
                Err(e) => Self::spec_narrow(self@, kind) == Err::<Seq<u8>, Failure>(e@),
            },
    {
        let own = self.schema.kind();
        let same = match (own, kind) {
            (AtomKind::Bool, AtomKind::Bool) => true,
            (AtomKind::Char, AtomKind::Char) => true,
            (AtomKind::I8, AtomKind::I8) => true,
            (AtomKind::I16, AtomKind::I16) => true,
            (AtomKind::I32, AtomKind::I32) => true,
            (AtomKind::I64, AtomKind::I64) => true,
            (AtomKind::I128, AtomKind::I128) => true,
            (AtomKind::U8, AtomKind::U8) => true,
            (AtomKind::U16, AtomKind::U16) => true,
            (AtomKind::U32, AtomKind::U32) => true,
            (AtomKind::U64, AtomKind::U64) => true,
            (AtomKind::U128, AtomKind::U128) => true,
            (AtomKind::F32, AtomKind::F32) => true,
            (AtomKind::F64, AtomKind::F64) => true,
            (AtomKind::Unit, AtomKind::Unit) => true,
            _ => false,
        };
        let size = kind.size();
        if same && size <= self.bytes.len() {
            Ok(vstd::slice::slice_subrange(self.bytes, 0, size))
        } else {
            Err(ErrorKind::Narrowing)
        }
    }

    /// The value as a `bool`, if that is its type and its byte is 0 or 1.
    pub fn as_bool(&self) -> (r: Result<bool, ErrorKind>)
        ensures
            crate::entry::agrees(r, Self::spec_bool(self@)),
    {
        match self.narrow(AtomKind::Bool) {
            Err(e) => Err(e),
            Ok(span) => if span[0] == 0 {
                Ok(false)
            } else if span[0] == 1 {
                Ok(true)
            } else {
                Err(ErrorKind::Narrowing)
            },
        }
    }

    /// The value as `()`, if that is its type.
    pub fn as_unit(&self) -> (r: Result<(), ErrorKind>)
        ensures
            match r {
                Ok(()) => Self::spec_narrow(self@, AtomKind::Unit) is Ok,
                Err(e) => Self::spec_narrow(self@, AtomKind::Unit) == Err::<Seq<u8>, Failure>(e@),
            },
    {
        match self.narrow(AtomKind::Unit) {
            Err(e) => Err(e),
            Ok(_) => Ok(()),
        }
    }

    /// The scalar value of the character that the value holds, if its
    /// type is `char`.
    pub fn as_char_code(&self) -> (r: Result<u32, ErrorKind>)
        ensures
            match r {
                Ok(v) => Self::spec_unsigned(self@, AtomKind::Char) == Ok::<nat, Failure>(v as nat),
                Err(e) => Self::spec_unsigned(self@, AtomKind::Char) == Err::<nat, Failure>(e@),
            },
    {
        match self.narrow(AtomKind::Char) {
            Err(e) => Err(e),
            Ok(span) => {
                proof {
                    lemma_limits();
                }
                Ok(unsigned(span, self.schema.little_endian()) as u32)
            },
        }
    }

    /// The bits of the `f32` that the value holds, if that is its type.
    pub fn as_f32_bits(&self) -> (r: Result<u32, ErrorKind>)
        ensures
            match r {
                Ok(v) => Self::spec_unsigned(self@, AtomKind::F32) == Ok::<nat, Failure>(v as nat),
                Err(e) => Self::spec_unsigned(self@, AtomKind::F32) == Err::<nat, Failure>(e@),
            },
    {
        match self.narrow(AtomKind::F32) {
            Err(e) => Err(e),
            Ok(span) => {
                proof {
                    lemma_limits();
                }
                Ok(unsigned(span, self.schema.little_endian()) as u32)
            },
        }
    }

    /// The bits of the `f64` that the value holds, if that is its type.
    pub fn as_f64_bits(&self) -> (r: Result<u64, ErrorKind>)
        ensures
            match r {
                Ok(v) => Self::spec_unsigned(self@, AtomKind::F64) == Ok::<nat, Failure>(v as nat),
                Err(e) => Self::spec_unsigned(self@, AtomKind::F64) == Err::<nat, Failure>(e@),
            },
    {
        match self.narrow(AtomKind::F64) {
            Err(e) => Err(e),
            Ok(span) => {
                proof {
                    lemma_limits();
                }
                Ok(unsigned(span, self.schema.little_endian()) as u64)
            },
        }
    }

    /// The value as a `u8`, if that is its type.
    pub fn as_u8(&self) -> (r: Result<u8, ErrorKind>)
        ensures
            match r {
                Ok(v) => Self::spec_unsigned(self@, AtomKind::U8) == Ok::<nat, Failure>(v as nat),
                Err(e) => Self::spec_unsigned(self@, AtomKind::U8) == Err::<nat, Failure>(e@),
            },
    {
        match self.narrow(AtomKind::U8) {
            Err(e) => Err(e),
            Ok(span) => {
                proof {
                    lemma_limits();
                }
                Ok(unsigned(span, self.schema.little_endian()) as u8)
            },
        }
    }

    /// The value as a `u16`, if that is its type.
    pub fn as_u16(&self) -> (r: Result<u16, ErrorKind>)
        ensures
            match r {
                Ok(v) => Self::spec_unsigned(self@, AtomKind::U16) == Ok::<nat, Failure>(v as nat),
                Err(e) => Self::spec_unsigned(self@, AtomKind::U16) == Err::<nat, Failure>(e@),
            },
    {
        match self.narrow(AtomKind::U16) {
            Err(e) => Err(e),
            Ok(span) => {
                proof {
                    lemma_limits();
                }
                Ok(unsigned(span, self.schema.little_endian()) as u16)
            },
        }
    }

    /// The value as a `u32`, if that is its type.
    pub fn as_u32(&self) -> (r: Result<u32, ErrorKind>)
        ensures
            match r {
                Ok(v) => Self::spec_unsigned(self@, AtomKind::U32) == Ok::<nat, Failure>(v as nat),
                Err(e) => Self::spec_unsigned(self@, AtomKind::U32) == Err::<nat, Failure>(e@),
            },
    {
        match self.narrow(AtomKind::U32) {
            Err(e) => Err(e),
            Ok(span) => {
                proof {
                    lemma_limits();
                }
                Ok(unsigned(span, self.schema.little_endian()) as u32)
            },
        }
    }

    /// The value as a `u64`, if that is its type.
    pub fn as_u64(&self) -> (r: Result<u64, ErrorKind>)
        ensures
            match r {
                Ok(v) => Self::spec_unsigned(self@, AtomKind::U64) == Ok::<nat, Failure>(v as nat),
                Err(e) => Self::spec_unsigned(self@, AtomKind::U64) == Err::<nat, Failure>(e@),
            },
    {
        match self.narrow(AtomKind::U64) {
            Err(e) => Err(e),
            Ok(span) => {
                proof {
                    lemma_limits();
                }
                Ok(unsigned(span, self.schema.little_endian()) as u64)
            },
        }
    }

    /// The value as a `u128`, if that is its type.
    pub fn as_u128(&self) -> (r: Result<u128, ErrorKind>)
        ensures
            match r {
                Ok(v) => Self::spec_unsigned(self@, AtomKind::U128) == Ok::<nat, Failure>(v as nat),
                Err(e) => Self::spec_unsigned(self@, AtomKind::U128) == Err::<nat, Failure>(e@),
            },
    {
        match self.narrow(AtomKind::U128) {
            Err(e) => Err(e),
            Ok(span) => {
                proof {
                    lemma_limits();
                }
                Ok(unsigned(span, self.schema.little_endian()) as u128)
            },
        }
    }

    /// The value as an `i8`, if that is its type.
    pub fn as_i8(&self) -> (r: Result<i8, ErrorKind>)
        ensures
            match r {
                Ok(v) => Self::spec_signed(self@, AtomKind::I8) == Ok::<int, Failure>(v as int),
                Err(e) => Self::spec_signed(self@, AtomKind::I8) == Err::<int, Failure>(e@),
            },
    {
        match self.narrow(AtomKind::I8) {
            Err(e) => Err(e),
            Ok(span) => {
                proof {
                    lemma_limits();
                }
                Ok(signed(span, self.schema.little_endian()) as i8)
            },
        }
    }

    /// The value as an `i16`, if that is its type.
    pub fn as_i16(&self) -> (r: Result<i16, ErrorKind>)
        ensures
            match r {
                Ok(v) => Self::spec_signed(self@, AtomKind::I16) == Ok::<int, Failure>(v as int),
                Err(e) => Self::spec_signed(self@, AtomKind::I16) == Err::<int, Failure>(e@),
            },
    {
        match self.narrow(AtomKind::I16) {
            Err(e) => Err(e),
            Ok(span) => {
                proof {
                    lemma_limits();
                }
                Ok(signed(span, self.schema.little_endian()) as i16)
            },
        }
    }

    /// The value as an `i32`, if that is its type.
    pub fn as_i32(&self) -> (r: Result<i32, ErrorKind>)
        ensures
            match r {
                Ok(v) => Self::spec_signed(self@, AtomKind::I32) == Ok::<int, Failure>(v as int),
                Err(e) => Self::spec_signed(self@, AtomKind::I32) == Err::<int, Failure>(e@),
            },
    {
        match self.narrow(AtomKind::I32) {
            Err(e) => Err(e),
            Ok(span) => {
                proof {
                    lemma_limits();
                }
                Ok(signed(span, self.schema.little_endian()) as i32)
            },
        }
    }

    /// The value as an `i64`, if that is its type.
    pub fn as_i64(&self) -> (r: Result<i64, ErrorKind>)
        ensures
            match r {
                Ok(v) => Self::spec_signed(self@, AtomKind::I64) == Ok::<int, Failure>(v as int),
                Err(e) => Self::spec_signed(self@, AtomKind::I64) == Err::<int, Failure>(e@),
            },
    {
        match self.narrow(AtomKind::I64) {
            Err(e) => Err(e),
            Ok(span) => {
                proof {
                    lemma_limits();
                }
                Ok(signed(span, self.schema.little_endian()) as i64)
            },
        }
    }

    /// The value as an `i128`, if that is its type.
    pub fn as_i128(&self) -> (r: Result<i128, ErrorKind>)
        ensures
            match r {
                Ok(v) => Self::spec_signed(self@, AtomKind::I128) == Ok::<int, Failure>(v as int),
                Err(e) => Self::spec_signed(self@, AtomKind::I128) == Err::<int, Failure>(e@),
            },
    {
        match self.narrow(AtomKind::I128) {
            Err(e) => Err(e),
            Ok(span) => {
                proof {
                    lemma_limits();
                }
                Ok(signed(span, self.schema.little_endian()) as i128)
            },
        }
    }
}

} // verus!
