//! Reflection over raw memory, driven by the DWARF debugging information
//! that the compiler embedded in the binary.
//!
//! A [`Dwarf`] holds the debugging sections of one image and hands out its
//! [`Unit`]s. The entries of a unit are addressed by their offset. From an
//! entry, [`Type::from_die`] reads a schema: the description of a layout.
//! A schema laid over bytes is a [`Value`], which can be taken apart: a
//! product into its fields, a sum into its active variant, a sequence
//! into its elements, a pointer into what it points to.
//!
//! This library reads no memory by itself. Where a value points
//! elsewhere, it says at which address how many bytes lie, and takes
//! those bytes from its caller.

pub mod constants;
pub mod dwarf;
pub mod entry;
pub mod error;
pub mod laws;
pub mod schema;
pub mod value;

pub use crate::dwarf::{AttrValue, Dwarf, Piece, Unit};
pub use crate::entry::{
    check_tag, eval_addr, find_child, first_child, get, get_align, get_attr_ref,
    get_data_member_location, get_name, get_size, get_string, get_type, type_parameter, Location,
};
pub use crate::error::{ErrorKind, Failure};
pub use crate::schema::Type;
pub use crate::value::Value;

use crate::entry::spec_type_parameter;
use crate::schema::TypeSpec;
use crate::value::Laid;
use vstd::prelude::*;

verus! {

/// The schema of the type argument of a generic function.
pub open spec fn spec_reflect_type(dwarf: Dwarf, unit: Unit, function: usize) -> Result<
    TypeSpec,
    Failure,
> {
    match spec_type_parameter(unit, function) {
        Err(e) => Err(e),
        Ok(entry) => Type::spec_from_die(dwarf, unit, entry),
    }
}

/// Reads the schema of a type from the entry of a function that is
/// generic over that type.
///
/// `function` is the offset of the entry of the function. The type is the
/// one that the first type parameter among its immediate children names.
pub fn reflect_type<'dwarf>(dwarf: &'dwarf Dwarf, unit: &'dwarf Unit, function: usize) -> (r:
    Result<Type<'dwarf>, ErrorKind>)
    ensures
        match r {
            Ok(ty) => spec_reflect_type(*dwarf, *unit, function) == Ok::<TypeSpec, Failure>(ty@),
            Err(e) => spec_reflect_type(*dwarf, *unit, function) == Err::<TypeSpec, Failure>(e@),
        },
{
    match type_parameter(unit, function) {
        Err(e) => Err(e),
        Ok(entry) => Type::from_die(dwarf, unit, entry),
    }
}

/// The value that the bytes hold, as a value of the type argument of a
/// generic function.
pub open spec fn spec_reflect(dwarf: Dwarf, unit: Unit, function: usize, bytes: Seq<u8>) -> Result<
    Option<Laid<TypeSpec>>,
    Failure,
> {
    match spec_reflect_type(dwarf, unit, function) {
        Err(e) => Err(e),
        Ok(ty) => Value::spec_new(ty, bytes),
    }
}

/// Reflects the bytes of a value whose type is the type argument of the
/// generic function at `function`.
///
/// The result is `None` where the bytes are fewer than the type
/// declares.
pub fn reflect<'value, 'dwarf>(
    dwarf: &'dwarf Dwarf,
    unit: &'dwarf Unit,
    function: usize,
    bytes: &'value [u8],
) -> (r: Result<Option<Value<'value, 'dwarf>>, ErrorKind>)
    ensures
        match r {
            Ok(Some(value)) => spec_reflect(*dwarf, *unit, function, bytes@) == Ok::<
                Option<Laid<TypeSpec>>,
                Failure,
            >(Some(value@)),
            Ok(None) => spec_reflect(*dwarf, *unit, function, bytes@) == Ok::<
                Option<Laid<TypeSpec>>,
                Failure,
            >(None),
            Err(e) => spec_reflect(*dwarf, *unit, function, bytes@) == Err::<
                Option<Laid<TypeSpec>>,
                Failure,
            >(e@),
        },
{
    match reflect_type(dwarf, unit, function) {
        Err(e) => Err(e),
        Ok(ty) => Value::new(ty, bytes),
    }
}

} // verus!
