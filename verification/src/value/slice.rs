//! Values of sequence types, and the enumeration of their elements.

use crate::entry::{agrees, spec_to_usize, to_usize};
use crate::error::{ErrorKind, Failure};
use crate::schema::{Type, TypeSpec};
use crate::schema::atom::AtomKind;
use crate::schema::slice::{Slice as Schema, SliceSpec};
use crate::value::{Laid, Value};
use crate::value::bytes::{spec_unsigned, unsigned};
use crate::value::reference::Ref;
use crate::value::structure::{field_value, spec_field_value};
use vstd::prelude::*;

verus! {

/// The number that a value of an unsigned integer type holds.
pub open spec fn spec_count(value: Laid<TypeSpec>) -> Result<usize, Failure> {
    match value.schema {
        TypeSpec::Atom(atom) => if (atom.kind is U8 || atom.kind is U16 || atom.kind is U32
            || atom.kind is U64) && atom.kind.spec_size() <= value.bytes.len() {
            spec_to_usize(
                spec_unsigned(
                    value.bytes.subrange(0, atom.kind.spec_size() as int),
                    atom.little_endian,
                ) as u64,
            )
        } else {
            Err(Failure::Narrowing)
        },
        _ => Err(Failure::Narrowing),
    }
}

/// Reads the number that a value of an unsigned integer type of up to
/// eight bytes holds. A value of another type cannot be narrowed to a
/// count.
pub fn count<'value, 'dwarf>(value: &Value<'value, 'dwarf>) -> (r: Result<usize, ErrorKind>)
    ensures
        agrees(r, spec_count(value@)),
{
    let atom = match value.as_atom() {
        Err(e) => {
            return Err(e);
        },
        Ok(atom) => atom,
    };
    let kind = atom.schema().kind();
    let n = match kind {
        AtomKind::U8 => match atom.as_u8() {
            Err(e) => {
                return Err(e);
            },
            Ok(n) => n as u64,
        },
        AtomKind::U16 => match atom.as_u16() {
            Err(e) => {
                return Err(e);
            },
            Ok(n) => n as u64,
        },
        AtomKind::U32 => match atom.as_u32() {
            Err(e) => {
                return Err(e);
            },
            Ok(n) => n as u64,
        },
        AtomKind::U64 => match atom.as_u64() {
            Err(e) => {
                return Err(e);
            },
            Ok(n) => n,
        },
        _ => {
            return Err(ErrorKind::Narrowing);
        },
    };
    to_usize(n)
}

/// The elements that `len` elements of `size` bytes each make of the
/// bytes `target`: the element at `i` has the bytes from `i * size` on.
pub open spec fn spec_elements(elt: TypeSpec, size: usize, len: usize, target: Seq<u8>) -> Seq<
    Laid<TypeSpec>,
> {
    Seq::new(
        len as nat,
        |i: int| Laid { schema: elt, bytes: target.subrange(i * size, i * size + size) },
    )
}

/// A value of a sequence type: a pointer to the elements and their
/// number.
#[derive(Debug)]
pub struct Slice<'value, 'dwarf> {
    value: &'value [u8],
    schema: Schema<'dwarf>,
}

impl<'value, 'dwarf> View for Slice<'value, 'dwarf> {
    type V = Laid<SliceSpec>;

    closed spec fn view(&self) -> Laid<SliceSpec> {
        Laid { schema: self.schema@, bytes: self.value@ }
    }
}

/// The views of the values.
pub open spec fn laid_values<'value, 'dwarf>(values: Seq<Value<'value, 'dwarf>>) -> Seq<
    Laid<TypeSpec>,
> {
    values.map_values(|value: Value<'value, 'dwarf>| value@)
}

impl<'value, 'dwarf> Slice<'value, 'dwarf> {
    /// The address of the first element.
    pub open spec fn spec_data_ptr(this: Laid<SliceSpec>) -> Result<u64, Failure> {
        match spec_field_value(this.schema.data_ptr, this.bytes) {
            Err(e) => Err(e),
            Ok(value) => match value.schema {
                TypeSpec::Ref(schema) => Ref::spec_as_ptr(Laid { schema, bytes: value.bytes }),
                _ => Err(Failure::Narrowing),
            },
        }
    }

    /// The number of elements.
    pub open spec fn spec_len(this: Laid<SliceSpec>) -> Result<usize, Failure> {
        match spec_field_value(this.schema.length, this.bytes) {
            Err(e) => Err(e),
            Ok(value) => spec_count(value),
        }
    }

    /// The size of an element, in bytes.
    pub open spec fn spec_elt_size(this: Laid<SliceSpec>) -> Result<usize, Failure> {
        match Type::spec_from_die(this.schema.dwarf, this.schema.unit, this.schema.elt) {
            Err(e) => Err(e),
            Ok(elt) => match Type::spec_size(elt) {
                Err(e) => Err(e),
                Ok(size) => spec_to_usize(size),
            },
        }
    }

    /// The number of bytes that the elements take: their number times the
    /// size of one. A product beyond the address space is no size.
    pub open spec fn spec_byte_len(this: Laid<SliceSpec>) -> Result<usize, Failure> {
        match Self::spec_elt_size(this) {
            Err(e) => Err(e),
            Ok(size) => match Self::spec_len(this) {
                Err(e) => Err(e),
                Ok(len) => if size * len <= usize::MAX {
                    Ok((size * len) as usize)
                } else {
                    Err(Failure::ValueMismatch)
                },
            },
        }
    }

    /// The elements, given the bytes that lie at the address of the first
    /// element.
    pub open spec fn spec_iter(this: Laid<SliceSpec>, target: Seq<u8>) -> Result<
        Seq<Laid<TypeSpec>>,
        Failure,
    > {
        match Self::spec_byte_len(this) {
            Err(e) => Err(e),
            Ok(bytes) => if bytes <= target.len() {
                Ok(
                    spec_elements(
                        Type::spec_from_die(
                            this.schema.dwarf,
                            this.schema.unit,
                            this.schema.elt,
                        )->Ok_0,
                        Self::spec_elt_size(this)->Ok_0,
                        Self::spec_len(this)->Ok_0,
                        target,
                    ),
                )
            } else {
                Err(Failure::Other(crate::value::out_of_bounds()))
            },
        }
    }

    /// The value of the given type over the given bytes.
    pub fn new(value: &'value [u8], schema: Schema<'dwarf>) -> (slice: Slice<'value, 'dwarf>)
        ensures
            slice@ == (Laid { schema: schema@, bytes: value@ }),
    {
        Slice { value, schema }
    }

    /// The schema of the value.
    pub fn schema(&self) -> (schema: &Schema<'dwarf>)
        ensures
            schema@ == self@.schema,
    {
        &self.schema
    }

    /// The address of the first element: what the pointer field holds.
    pub fn data_ptr(&self) -> (r: Result<u64, ErrorKind>)
        ensures
            agrees(r, Self::spec_data_ptr(self@)),
    {
        let value = match field_value(self.schema.data_ptr(), self.value) {
            Err(e) => {
                return Err(e);
            },
            Ok(value) => value,
        };
        match value.as_ref() {
            Err(e) => Err(e),
            Ok(pointer) => pointer.as_ptr(),
        }
    }

    /// The number of elements: what the length field holds.
    pub fn len(&self) -> (r: Result<usize, ErrorKind>)
        ensures
            agrees(r, Self::spec_len(self@)),
    {
        match field_value(self.schema.length(), self.value) {
            Err(e) => Err(e),
            Ok(value) => count(&value),
        }
    }

    /// The number of bytes that lie at the address of the first element
    /// and make up the elements.
    pub fn byte_len(&self) -> (r: Result<usize, ErrorKind>)
        ensures
            agrees(r, Self::spec_byte_len(self@)),
    {
        let elt = match self.schema.elt() {
            Err(e) => {
                return Err(e);
            },
            Ok(elt) => elt,
        };
        let size = match elt.size() {
            Err(e) => {
                return Err(e);
            },
            Ok(size) => match to_usize(size) {
                Err(e) => {
                    return Err(e);
                },
                Ok(size) => size,
            },
        };
        let len = match self.len() {
            Err(e) => {
                return Err(e);
            },
            Ok(len) => len,
        };
        match size.checked_mul(len) {
            Some(bytes) => Ok(bytes),
            None => Err(ErrorKind::ValueMismatch),
        }
    }

    /// The elements of the sequence, given the bytes that lie at the
    /// address of the first element.
    ///
    /// The length field says how many elements there are, and nothing
    /// else does: a sequence of length 0 has no elements whatever its
    /// pointer holds and whatever bytes are given. The bytes must be no
    /// fewer than the elements take; the element at `i` is laid over the
    /// bytes from `i` times the size of an element on.
    pub fn iter(&self, target: &'value [u8]) -> (r: Result<Vec<Value<'value, 'dwarf>>, ErrorKind>)
        ensures
            match r {
                Ok(values) => Self::spec_iter(self@, target@) == Ok::<
                    Seq<Laid<TypeSpec>>,
                    Failure,
                >(laid_values(values@)),
                Err(e) => Self::spec_iter(self@, target@) == Err::<Seq<Laid<TypeSpec>>, Failure>(
                    e@,
                ),
            },
    {
        let elt = match self.schema.elt() {
            Err(e) => {
                return Err(e);
            },
            Ok(elt) => elt,
        };
        let size = match elt.size() {
            Err(e) => {
                return Err(e);
            },
            Ok(size) => match to_usize(size) {
                Err(e) => {
                    return Err(e);
                },
                Ok(size) => size,
            },
        };
        let len = match self.len() {
            Err(e) => {
                return Err(e);
            },
            Ok(len) => len,
        };
        let bytes = match size.checked_mul(len) {
            Some(bytes) => bytes,
            None => {
                return Err(ErrorKind::ValueMismatch);
            },
        };
        if bytes > target.len() {
            return Err(ErrorKind::MakeAMoreSpecificVariant("Part lies outside of the value"));
        }
        let mut values: Vec<Value<'value, 'dwarf>> = Vec::new();
        let mut i: usize = 0;
        let mut pos: usize = 0;
        while i < len
            invariant
                i <= len,
                pos == i * size,
                bytes == size * len,
                bytes <= target@.len(),
                Type::spec_size(elt@) == Ok::<u64, Failure>(size as u64),
                values@.len() == i,
                forall|j: int|
                    0 <= j < i ==> (#[trigger] values@[j])@ == (Laid {
                        schema: elt@,
                        bytes: target@.subrange(j * size, j * size + size),
                    }),
            decreases len - i,
        {
            assert((i + 1) * size == i * size + size && (i + 1) * size <= size * len)
                by (nonlinear_arith)
                requires
                    i < len,
            ;
            let chunk = vstd::slice::slice_subrange(target, pos, pos + size);
            values.push(Value::with_type(elt.clone(), chunk));
            pos = pos + size;
            i += 1;
        }
        assert(laid_values(values@) =~= spec_elements(elt@, size, len, target@));
        Ok(values)
    }
}

} // verus!
