//! Reading one debugging entry: its tag, its attributes, its children.
//!
//! An entry is addressed by its offset in its unit. Each function here
//! either returns what the entry holds or says, with a typed error, what
//! it lacks.

use crate::constants::{
    DW_AT_alignment, DW_AT_byte_size, DW_AT_data_member_location, DW_AT_name, DW_AT_type,
    DW_TAG_template_type_parameter,
};
use crate::dwarf::{
    entry_attr, entry_children, entry_expression, entry_first_child, entry_next_sibling,
    entry_string, entry_tag, evaluate, expression_pieces, read_attr, read_children,
    read_expression, read_first_child, read_next_sibling, read_string, read_tag,
    unit_address_size, AttrValue, Dwarf, Piece, Unit, INDEX_LIMIT, MAX_ADDRESS_SIZE,
};
use crate::error::{ErrorKind, Failure};
use vstd::prelude::*;

verus! {

/// The number of operations that the evaluation of one location expression
/// may take.
pub const EVALUATION_LIMIT: u32 = 65536;

/// What is said when the entry of a generic function has no child that
/// describes its type parameter.
pub open spec fn no_type_parameter() -> Seq<char> {
    "Could not find parameter type entry"@
}

/// What is said of a unit whose addresses are wider than a location
/// expression can be evaluated for.
pub open spec fn unsupported_address_size() -> Seq<char> {
    "Unsupported address size"@
}

/// `r` is the outcome `s`: the same value, or an error of the same failure.
pub open spec fn agrees<T>(r: Result<T, ErrorKind>, s: Result<T, Failure>) -> bool {
    match r {
        Ok(v) => s == Ok::<T, Failure>(v),
        Err(e) => s == Err::<T, Failure>(e@),
    }
}

/// Where an attribute value stands for the place of a member.
#[derive(Debug)]
pub enum Location {
    /// A constant number of bytes from the start of the enclosing value.
    Offset(u64),
    /// A location expression.
    Expression(Vec<u8>),
    /// A form that cannot be evaluated.
    Other,
}

/// A [`Location`] as a mathematical value.
pub enum LocationSpec {
    Offset(u64),
    Expression(Seq<u8>),
    Other,
}

impl View for Location {
    type V = LocationSpec;

    open spec fn view(&self) -> LocationSpec {
        match *self {
            Location::Offset(offset) => LocationSpec::Offset(offset),
            Location::Expression(bytes) => LocationSpec::Expression(bytes@),
            Location::Other => LocationSpec::Other,
        }
    }
}

impl Clone for Location {
    fn clone(&self) -> (copy: Location)
        ensures
            copy@ == self@,
    {
        match self {
            Location::Offset(offset) => Location::Offset(*offset),
            Location::Expression(bytes) => Location::Expression(
                vstd::slice::slice_to_vec(bytes.as_slice()),
            ),
            Location::Other => Location::Other,
        }
    }
}

impl AttrValue {
    /// The value as an unsigned integer: that of any unsigned constant
    /// form, and that of a signed constant that is not negative.
    pub open spec fn spec_udata_value(self) -> Option<u64> {
        match self {
            AttrValue::Data1(v) => Some(v as u64),
            AttrValue::Data2(v) => Some(v as u64),
            AttrValue::Data4(v) => Some(v as u64),
            AttrValue::Data8(v) => Some(v),
            AttrValue::Udata(v) => Some(v),
            AttrValue::Sdata(v) => if v < 0 {
                None
            } else {
                Some(v as u64)
            },
            _ => None,
        }
    }

    /// The value as an unsigned integer, as `gimli` converts it.
    pub fn udata_value(&self) -> (r: Option<u64>)
        ensures
            r == self.spec_udata_value(),
    {
        match *self {
            AttrValue::Data1(v) => Some(v as u64),
            AttrValue::Data2(v) => Some(v as u64),
            AttrValue::Data4(v) => Some(v as u64),
            AttrValue::Data8(v) => Some(v),
            AttrValue::Udata(v) => Some(v),
            AttrValue::Sdata(v) => if v < 0 {
                None
            } else {
                Some(v as u64)
            },
            _ => None,
        }
    }
}

/// A number read from the debugging information, as a `usize`.
pub open spec fn spec_to_usize(n: u64) -> Result<usize, Failure> {
    if n <= usize::MAX {
        Ok(n as usize)
    } else {
        Err(Failure::ValueMismatch)
    }
}

/// A number as a `usize`; one that does not fit cannot be used.
pub fn to_usize(n: u64) -> (r: Result<usize, ErrorKind>)
    ensures
        agrees(r, spec_to_usize(n)),
{
    if n <= usize::MAX as u64 {
        Ok(n as usize)
    } else {
        Err(ErrorKind::ValueMismatch)
    }
}

/// The tag of an entry.
pub open spec fn spec_tag(unit: Unit, entry: usize) -> Result<u16, Failure> {
    match entry_tag(unit, entry) {
        Some(tag) => Ok(tag),
        None => Err(Failure::Malformed),
    }
}

/// The tag of the entry at `entry`.
pub fn tag(unit: &Unit, entry: usize) -> (r: Result<u16, ErrorKind>)
    ensures
        agrees(r, spec_tag(*unit, entry)),
{
    match read_tag(unit, entry) {
        Ok(tag) => Ok(tag),
        Err(e) => Err(ErrorKind::Gimli(e)),
    }
}

/// Whether an entry has the expected tag.
pub open spec fn spec_check_tag(unit: Unit, entry: usize, expected: u16) -> Result<(), Failure> {
    match spec_tag(unit, entry) {
        Err(e) => Err(e),
        Ok(actual) => if actual != expected {
            Err(Failure::TagMismatch { expected, actual })
        } else {
            Ok(())
        },
    }
}

/// Succeeds where the entry has the tag `expected`, and reports both tags
/// where it has another.
pub fn check_tag(unit: &Unit, entry: usize, expected: u16) -> (r: Result<(), ErrorKind>)
    ensures
        agrees(r, spec_check_tag(*unit, entry, expected)),
{
    match tag(unit, entry) {
        Err(e) => Err(e),
        Ok(actual) => if actual != expected {
            Err(ErrorKind::TagMismatch { expected, actual })
        } else {
            Ok(())
        },
    }
}

/// The value of a required attribute.
pub open spec fn spec_get(unit: Unit, entry: usize, attr: u16) -> Result<AttrValue, Failure> {
    match entry_attr(unit, entry, attr) {
        None => Err(Failure::Malformed),
        Some(None) => Err(Failure::MissingAttr { attr }),
        Some(Some(value)) => Ok(value),
    }
}

/// The value of the attribute `attr`, which the entry must have.
pub fn get(unit: &Unit, entry: usize, attr: u16) -> (r: Result<AttrValue, ErrorKind>)
    ensures
        agrees(r, spec_get(*unit, entry, attr)),
{
    match read_attr(unit, entry, attr) {
        Err(e) => Err(ErrorKind::Gimli(e)),
        Ok(None) => Err(ErrorKind::MissingAttr { attr }),
        Ok(Some(value)) => Ok(value),
    }
}

/// The value of a required attribute that holds an unsigned integer.
pub open spec fn spec_get_udata(unit: Unit, entry: usize, attr: u16) -> Result<u64, Failure> {
    match spec_get(unit, entry, attr) {
        Err(e) => Err(e),
        Ok(value) => match value.spec_udata_value() {
            Some(n) => Ok(n),
            None => Err(Failure::ValueMismatch),
        },
    }
}

/// The unsigned integer that the attribute `attr` holds.
pub fn get_udata(unit: &Unit, entry: usize, attr: u16) -> (r: Result<u64, ErrorKind>)
    ensures
        agrees(r, spec_get_udata(*unit, entry, attr)),
{
    match get(unit, entry, attr) {
        Err(e) => Err(e),
        Ok(value) => match value.udata_value() {
            Some(n) => Ok(n),
            None => Err(ErrorKind::ValueMismatch),
        },
    }
}

/// The size in bytes that an entry declares.
pub open spec fn spec_get_size(unit: Unit, entry: usize) -> Result<u64, Failure> {
    spec_get_udata(unit, entry, DW_AT_byte_size)
}

/// The size in bytes that the entry declares.
pub fn get_size(unit: &Unit, entry: usize) -> (r: Result<u64, ErrorKind>)
    ensures
        agrees(r, spec_get_size(*unit, entry)),
{
    get_udata(unit, entry, DW_AT_byte_size)
}

/// The alignment in bytes that an entry declares.
pub open spec fn spec_get_align(unit: Unit, entry: usize) -> Result<u64, Failure> {
    spec_get_udata(unit, entry, DW_AT_alignment)
}

/// The alignment in bytes that the entry declares.
pub fn get_align(unit: &Unit, entry: usize) -> (r: Result<u64, ErrorKind>)
    ensures
        agrees(r, spec_get_align(*unit, entry)),
{
    get_udata(unit, entry, DW_AT_alignment)
}

/// The entry that describes the type of an entry.
pub open spec fn spec_get_type(unit: Unit, entry: usize) -> Result<usize, Failure> {
    match spec_get(unit, entry, DW_AT_type) {
        Err(e) => Err(e),
        Ok(AttrValue::UnitRef(offset)) => Ok(offset),
        Ok(_) => Err(Failure::ValueMismatch),
    }
}

/// The offset of the entry that describes the type of this one.
pub fn get_type(unit: &Unit, entry: usize) -> (r: Result<usize, ErrorKind>)
    ensures
        agrees(r, spec_get_type(*unit, entry)),
{
    match get(unit, entry, DW_AT_type) {
        Err(e) => Err(e),
        Ok(AttrValue::UnitRef(offset)) => Ok(offset),
        Ok(_) => Err(ErrorKind::ValueMismatch),
    }
}

/// The entry that an optional attribute refers to.
pub open spec fn spec_get_attr_ref(unit: Unit, entry: usize, name: u16) -> Result<
    Option<usize>,
    Failure,
> {
    match entry_attr(unit, entry, name) {
        None => Err(Failure::Malformed),
        Some(Some(AttrValue::UnitRef(offset))) => Ok(Some(offset)),
        Some(_) => Ok(None),
    }
}

/// The offset of the entry that the attribute `name` refers to, if the
/// entry has that attribute and it is a reference into the unit.
pub fn get_attr_ref(unit: &Unit, entry: usize, name: u16) -> (r: Result<Option<usize>, ErrorKind>)
    ensures
        agrees(r, spec_get_attr_ref(*unit, entry, name)),
{
    match read_attr(unit, entry, name) {
        Err(e) => Err(ErrorKind::Gimli(e)),
        Ok(Some(AttrValue::UnitRef(offset))) => Ok(Some(offset)),
        Ok(_) => Ok(None),
    }
}

/// The string that an optional attribute of an entry stands for. An
/// attribute that is an index of [`INDEX_LIMIT`] or more into the table
/// of string offsets is a value that cannot be used.
pub open spec fn spec_get_string(dwarf: Dwarf, unit: Unit, entry: usize, attr: u16) -> Result<
    Option<Seq<char>>,
    Failure,
> {
    match entry_attr(unit, entry, attr) {
        None => Err(Failure::Malformed),
        Some(value) => if value matches Some(AttrValue::StrOffsetsIndex(index)) && index
            >= INDEX_LIMIT {
            Err(Failure::ValueMismatch)
        } else {
            match entry_string(dwarf, unit, entry, attr) {
                None => Err(Failure::Malformed),
                Some(string) => Ok(string),
            }
        },
    }
}

/// The string that the attribute `attr` of the entry stands for, resolved
/// through the string sections; `None` where the entry has no such
/// attribute.
pub fn get_string(dwarf: &Dwarf, unit: &Unit, entry: usize, attr: u16) -> (r: Result<
    Option<String>,
    ErrorKind,
>)
    ensures
        match r {
            Ok(Some(string)) => spec_get_string(*dwarf, *unit, entry, attr) == Ok::<
                Option<Seq<char>>,
                Failure,
            >(Some(string@)),
            Ok(None) => spec_get_string(*dwarf, *unit, entry, attr) == Ok::<
                Option<Seq<char>>,
                Failure,
            >(None),
            Err(e) => spec_get_string(*dwarf, *unit, entry, attr) == Err::<
                Option<Seq<char>>,
                Failure,
            >(e@),
        },
{
    match read_attr(unit, entry, attr) {
        Err(e) => {
            return Err(ErrorKind::Gimli(e));
        },
        Ok(Some(AttrValue::StrOffsetsIndex(index))) => {
            if index as u64 >= INDEX_LIMIT {
                return Err(ErrorKind::ValueMismatch);
            }
        },
        Ok(_) => {},
    }
    match read_string(dwarf, unit, entry, attr) {
        Err(e) => Err(ErrorKind::Gimli(e)),
        Ok(string) => Ok(string),
    }
}

/// The name of an entry.
pub open spec fn spec_get_name(dwarf: Dwarf, unit: Unit, entry: usize) -> Result<
    Seq<char>,
    Failure,
> {
    match spec_get_string(dwarf, unit, entry, DW_AT_name) {
        Err(e) => Err(e),
        Ok(None) => Err(Failure::MissingAttr { attr: DW_AT_name }),
        Ok(Some(name)) => Ok(name),
    }
}

/// The name of the entry, resolved through the string sections.
pub fn get_name(dwarf: &Dwarf, unit: &Unit, entry: usize) -> (r: Result<String, ErrorKind>)
    ensures
        match r {
            Ok(name) => spec_get_name(*dwarf, *unit, entry) == Ok::<Seq<char>, Failure>(name@),
            Err(e) => spec_get_name(*dwarf, *unit, entry) == Err::<Seq<char>, Failure>(e@),
        },
{
    match get_string(dwarf, unit, entry, DW_AT_name) {
        Err(e) => Err(e),
        Ok(None) => Err(ErrorKind::MissingAttr { attr: DW_AT_name }),
        Ok(Some(name)) => Ok(name),
    }
}

/// The place of a member in the value that encloses it.
pub open spec fn spec_get_data_member_location(unit: Unit, entry: usize) -> Result<
    LocationSpec,
    Failure,
> {
    match entry_expression(unit, entry, DW_AT_data_member_location) {
        None => Err(Failure::Malformed),
        Some(Some(bytes)) => Ok(LocationSpec::Expression(bytes)),
        Some(None) => match spec_get(unit, entry, DW_AT_data_member_location) {
            Err(e) => Err(e),
            Ok(AttrValue::Udata(offset)) => Ok(LocationSpec::Offset(offset)),
            Ok(_) => Ok(LocationSpec::Other),
        },
    }
}

/// The place of the member that the entry describes: an expression, a
/// constant offset, or a form that cannot be evaluated.
pub fn get_data_member_location(unit: &Unit, entry: usize) -> (r: Result<Location, ErrorKind>)
    ensures
        match r {
            Ok(location) => spec_get_data_member_location(*unit, entry) == Ok::<
                LocationSpec,
                Failure,
            >(location@),
            Err(e) => spec_get_data_member_location(*unit, entry) == Err::<LocationSpec, Failure>(
                e@,
            ),
        },
{
    match read_expression(unit, entry, DW_AT_data_member_location) {
        Err(e) => Err(ErrorKind::Gimli(e)),
        Ok(Some(bytes)) => Ok(Location::Expression(bytes)),
        Ok(None) => match get(unit, entry, DW_AT_data_member_location) {
            Err(e) => Err(e),
            Ok(AttrValue::Udata(offset)) => Ok(Location::Offset(offset)),
            Ok(_) => Ok(Location::Other),
        },
    }
}

/// The address that the result of a location expression stands for: that
/// of its only piece, where that piece is whole and lies in memory.
pub open spec fn spec_single_address(pieces: Seq<Piece>) -> Option<u64> {
    if pieces.len() == 1 && pieces[0].size_in_bits is None && pieces[0].bit_offset is None {
        pieces[0].address
    } else {
        None
    }
}

/// The address that the pieces stand for, if they are one whole piece in
/// memory.
pub fn single_address(pieces: &Vec<Piece>) -> (r: Option<u64>)
    ensures
        r == spec_single_address(pieces@),
{
    if pieces.len() == 1 {
        let piece = pieces[0];
        match (piece.size_in_bits, piece.bit_offset) {
            (None, None) => piece.address,
            _ => None,
        }
    } else {
        None
    }
}

/// The address of a member, for a value that starts at `start`.
pub open spec fn spec_eval_addr(unit: Unit, location: LocationSpec, start: u64) -> Result<
    Option<u64>,
    Failure,
> {
    match location {
        LocationSpec::Expression(bytes) => if unit_address_size(unit) > MAX_ADDRESS_SIZE {
            Err(Failure::Other(unsupported_address_size()))
        } else {
            match expression_pieces(unit, bytes, start, EVALUATION_LIMIT) {
                None => Err(Failure::Malformed),
                Some(None) => Ok(None),
                Some(Some(pieces)) => Ok(spec_single_address(pieces)),
            }
        },
        LocationSpec::Offset(offset) => if start + offset <= u64::MAX {
            Ok(Some((start + offset) as u64))
        } else {
            Ok(None)
        },
        LocationSpec::Other => Ok(None),
    }
}

/// Evaluates a location for a value that starts at the address `start`.
///
/// An expression is evaluated with `start` on the stack; a constant offset
/// is added to `start`. `None` stands for a location that has no single
/// address: an expression that asks for more than the start, a result in
/// pieces or in a register, a sum beyond the address space, another form.
/// No expression is evaluated for a unit whose addresses are wider than
/// eight bytes.
pub fn eval_addr(unit: &Unit, location: &Location, start: u64) -> (r: Result<
    Option<u64>,
    ErrorKind,
>)
    ensures
        agrees(r, spec_eval_addr(*unit, location@, start)),
{
    match location {
        Location::Expression(bytes) => if unit.address_size() > MAX_ADDRESS_SIZE {
            Err(ErrorKind::MakeAMoreSpecificVariant("Unsupported address size"))
        } else {
            match evaluate(unit, bytes.as_slice(), start, EVALUATION_LIMIT) {
                Err(e) => Err(ErrorKind::Gimli(e)),
                Ok(None) => Ok(None),
                Ok(Some(pieces)) => Ok(single_address(&pieces)),
            }
        },
        Location::Offset(offset) => Ok(start.checked_add(*offset)),
        Location::Other => Ok(None),
    }
}

/// The children of an entry.
pub open spec fn spec_children(unit: Unit, entry: usize) -> Result<Seq<usize>, Failure> {
    match entry_children(unit, entry) {
        Some(children) => Ok(children),
        None => Err(Failure::Malformed),
    }
}

/// The offsets of the children of the entry, in their order.
pub fn children(unit: &Unit, entry: usize) -> (r: Result<Vec<usize>, ErrorKind>)
    ensures
        match r {
            Ok(children) => spec_children(*unit, entry) == Ok::<Seq<usize>, Failure>(children@),
            Err(e) => spec_children(*unit, entry) == Err::<Seq<usize>, Failure>(e@),
        },
{
    match read_children(unit, entry) {
        Ok(children) => Ok(children),
        Err(e) => Err(ErrorKind::Gimli(e)),
    }
}

/// The first child of an entry.
pub open spec fn spec_first_child(unit: Unit, entry: usize) -> Result<Option<usize>, Failure> {
    match entry_first_child(unit, entry) {
        Some(child) => Ok(child),
        None => Err(Failure::Malformed),
    }
}

/// The offset of the first child of the entry, if it has a child. No
/// child but the first is read.
pub fn first_child(unit: &Unit, entry: usize) -> (r: Result<Option<usize>, ErrorKind>)
    ensures
        agrees(r, spec_first_child(*unit, entry)),
        r matches Ok(Some(child)) ==> child > entry,
{
    match read_first_child(unit, entry) {
        Ok(child) => Ok(child),
        Err(e) => Err(ErrorKind::Gimli(e)),
    }
}

/// The first entry that has the tag `tag` among the entry at `at` and
/// those that follow it among the children of its parent. Entries are
/// read one after the other up to the one that is found: what follows it
/// is not read. Each entry lies behind the one before it.
pub open spec fn spec_first_with_tag(unit: Unit, at: usize, tag: u16) -> Result<
    Option<usize>,
    Failure,
>
    decreases usize::MAX - at,
{
    match entry_tag(unit, at) {
        None => Err(Failure::Malformed),
        Some(found) => if found == tag {
            Ok(Some(at))
        } else {
            match entry_next_sibling(unit, at) {
                None => Err(Failure::Malformed),
                Some(None) => Ok(None),
                Some(Some(next)) => if next > at {
                    spec_first_with_tag(unit, next, tag)
                } else {
                    Err(Failure::Malformed)
                },
            }
        },
    }
}

/// The first child of an entry that has a given tag.
pub open spec fn spec_find_child(unit: Unit, entry: usize, tag: u16) -> Result<
    Option<usize>,
    Failure,
> {
    match entry_first_child(unit, entry) {
        None => Err(Failure::Malformed),
        Some(None) => Ok(None),
        Some(Some(child)) => spec_first_with_tag(unit, child, tag),
    }
}

/// The first immediate child of the entry that has the tag `tag`, if any.
///
/// The children are read in their order up to the one that is found. A
/// child that cannot be read before one is found fails the search; what
/// follows the one that is found is not read.
pub fn find_child(unit: &Unit, entry: usize, tag: u16) -> (r: Result<Option<usize>, ErrorKind>)
    ensures
        agrees(r, spec_find_child(*unit, entry, tag)),
{
    let mut at = match read_first_child(unit, entry) {
        Err(e) => {
            return Err(ErrorKind::Gimli(e));
        },
        Ok(None) => {
            return Ok(None);
        },
        Ok(Some(child)) => child,
    };
    loop
        invariant
            spec_find_child(*unit, entry, tag) == spec_first_with_tag(*unit, at, tag),
        decreases usize::MAX - at,
    {
        match read_tag(unit, at) {
            Err(e) => {
                return Err(ErrorKind::Gimli(e));
            },
            Ok(found) => {
                if found == tag {
                    return Ok(Some(at));
                }
            },
        }
        match read_next_sibling(unit, at) {
            Err(e) => {
                return Err(ErrorKind::Gimli(e));
            },
            Ok(None) => {
                return Ok(None);
            },
            Ok(Some(next)) => {
                at = next;
            },
        }
    }
}

/// The entry that describes the type argument of a generic function.
pub open spec fn spec_type_parameter(unit: Unit, entry: usize) -> Result<usize, Failure> {
    match spec_find_child(unit, entry, DW_TAG_template_type_parameter) {
        Err(e) => Err(e),
        Ok(None) => Err(Failure::Other(no_type_parameter())),
        Ok(Some(child)) => spec_get_type(unit, child),
    }
}

/// The type argument of the generic function that the entry describes:
/// the type of its first immediate child that is a type parameter.
///
/// The absence of such a child is reported by a failure of its own. It
/// is what debugging information without the needed detail looks like.
pub fn type_parameter(unit: &Unit, entry: usize) -> (r: Result<usize, ErrorKind>)
    ensures
        agrees(r, spec_type_parameter(*unit, entry)),
{
    match find_child(unit, entry, DW_TAG_template_type_parameter) {
        Err(e) => Err(e),
        Ok(None) => Err(ErrorKind::MakeAMoreSpecificVariant("Could not find parameter type entry")),
        Ok(Some(child)) => get_type(unit, child),
    }
}

} // verus!
