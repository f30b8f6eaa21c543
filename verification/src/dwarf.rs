//! The debugging information, as `gimli` parses it.
//!
//! Nothing in this module is an algorithm of this library. It declares the
//! two collections that `gimli` keeps, names what they hold, and wraps the
//! calls that read them. Every contract here is believed, not proved.
//!
//! A name has a value where `gimli` succeeds and is `None` where it fails.
//! Which error `gimli` reports is not named: an error can hold a position
//! in memory.

use crate::error::{ErrorKind, Failure};
use gimli::AttributeValue;
use std::rc::Rc;
use vstd::prelude::*;

verus! {

/// The DWARF sections of one image.
#[verifier::external_body]
#[derive(Debug)]
pub struct Dwarf {
    inner: gimli::Dwarf<gimli::EndianReader<gimli::RunTimeEndian, Rc<[u8]>>>,
}

/// One unit of the `.debug_info` section, with its abbreviations.
#[verifier::external_body]
#[derive(Debug)]
pub struct Unit {
    inner: gimli::Unit<gimli::EndianReader<gimli::RunTimeEndian, Rc<[u8]>>>,
    endian: gimli::RunTimeEndian,
}

/// The value of an attribute, in the forms that this library reads.
#[derive(Clone, Copy, Debug, PartialEq, Eq)]
pub enum AttrValue {
    Data1(u8),
    Data2(u16),
    Data4(u32),
    Data8(u64),
    Sdata(i64),
    Udata(u64),
    /// The offset of another entry of the same unit.
    UnitRef(usize),
    /// The encoding of a base type.
    Encoding(u8),
    /// The index of a string in the table of string offsets.
    StrOffsetsIndex(usize),
    /// Any other form.
    Other,
}

/// The least index that no table of offsets or addresses can hold: an
/// entry at such an index would lie beyond the address space.
pub const INDEX_LIMIT: u64 = 0x0100_0000_0000_0000;

/// The greatest size of an address, in bytes, that a location expression
/// can be evaluated for.
pub const MAX_ADDRESS_SIZE: u8 = 8;

/// One piece of the result of a location expression.
#[derive(Clone, Copy, Debug, PartialEq, Eq)]
pub struct Piece {
    pub size_in_bits: Option<u64>,
    pub bit_offset: Option<u64>,
    /// The address of the piece, where its location is an address.
    pub address: Option<u64>,
}

/// The sections that `gimli` holds once it has loaded the given bytes.
pub uninterp spec fn loaded_dwarf(
    debug_abbrev: Seq<u8>,
    debug_addr: Seq<u8>,
    debug_info: Seq<u8>,
    debug_line: Seq<u8>,
    debug_line_str: Seq<u8>,
    debug_str: Seq<u8>,
    debug_str_offsets: Seq<u8>,
    little_endian: bool,
) -> Dwarf;

/// The attributes of the root entry of the unit whose header stands at
/// `offset` of `.debug_info`, in their order: the name of each, and the
/// index into a table of string offsets or of addresses that its value
/// is, if it is one.
pub uninterp spec fn root_indices(dwarf: Dwarf, offset: usize) -> Option<
    Seq<(u16, Option<usize>)>,
>;

/// The unit whose header stands at `offset` of `.debug_info`.
pub uninterp spec fn dwarf_unit(dwarf: Dwarf, offset: usize) -> Option<Unit>;

/// The size in bytes of an address in the unit.
pub uninterp spec fn unit_address_size(unit: Unit) -> u8;

/// Whether the image of the unit stores the low byte of a number first.
pub uninterp spec fn unit_little_endian(unit: Unit) -> bool;

/// The tag of the entry at `offset`.
pub uninterp spec fn entry_tag(unit: Unit, offset: usize) -> Option<u16>;

/// The value of the first attribute named `name` of the entry at `offset`;
/// `Some(None)` where the entry has no such attribute.
pub uninterp spec fn entry_attr(unit: Unit, offset: usize, name: u16) -> Option<Option<AttrValue>>;

/// The bytes of the first attribute named `name` of the entry at `offset`,
/// where that attribute is a location expression or a block; `Some(None)`
/// where the entry has no such attribute, or one of another form.
pub uninterp spec fn entry_expression(unit: Unit, offset: usize, name: u16) -> Option<
    Option<Seq<u8>>,
>;

/// The offsets of the children of the entry at `offset`, in their order.
pub uninterp spec fn entry_children(unit: Unit, offset: usize) -> Option<Seq<usize>>;

/// The offset of the first child of the entry at `offset`; `Some(None)`
/// where the entry has no child.
pub uninterp spec fn entry_first_child(unit: Unit, offset: usize) -> Option<Option<usize>>;

/// The offset of the entry that follows the entry at `offset` among the
/// children of its parent; `Some(None)` where it is the last of them.
pub uninterp spec fn entry_next_sibling(unit: Unit, offset: usize) -> Option<Option<usize>>;

/// The string that the first attribute named `name` of the entry at
/// `offset` stands for; `Some(None)` where the entry has no such attribute.
pub uninterp spec fn entry_string(dwarf: Dwarf, unit: Unit, offset: usize, name: u16) -> Option<
    Option<Seq<char>>,
>;

/// The pieces that the location expression `expr` evaluates to when
/// `start` is on the stack and at most `limit` operations may run;
/// `Some(None)` where the evaluation stops to ask for a value.
pub uninterp spec fn expression_pieces(unit: Unit, expr: Seq<u8>, start: u64, limit: u32) -> Option<
    Option<Seq<Piece>>,
>;

/// Hands the seven sections to `gimli::Dwarf::load`, each as an
/// `EndianReader` over a copy of its bytes, and every other section empty.
/// The result depends on the bytes and the byte order alone.
#[verifier::external_body]
pub(crate) fn load_sections(
    debug_abbrev: &[u8],
    debug_addr: &[u8],
    debug_info: &[u8],
    debug_line: &[u8],
    debug_line_str: &[u8],
    debug_str: &[u8],
    debug_str_offsets: &[u8],
    little_endian: bool,
) -> (dwarf: Dwarf)
    ensures
        dwarf == loaded_dwarf(
            debug_abbrev@,
            debug_addr@,
            debug_info@,
            debug_line@,
            debug_line_str@,
            debug_str@,
            debug_str_offsets@,
            little_endian,
        ),
{
    let endian = if little_endian { gimli::RunTimeEndian::Little } else { gimli::RunTimeEndian::Big };
    let loaded = gimli::Dwarf::load(|id| -> Result<_, std::convert::Infallible> {
        Ok(gimli::EndianReader::new(Rc::from(match id {
            gimli::SectionId::DebugAbbrev => debug_abbrev,
            gimli::SectionId::DebugAddr => debug_addr,
            gimli::SectionId::DebugInfo => debug_info,
            gimli::SectionId::DebugLine => debug_line,
            gimli::SectionId::DebugLineStr => debug_line_str,
            gimli::SectionId::DebugStr => debug_str,
            gimli::SectionId::DebugStrOffsets => debug_str_offsets,
            _ => &[],
        }), endian))
    });
    match loaded { Ok(inner) => Dwarf { inner }, Err(e) => match e {} }
}

/// Whether each index that an attribute of a root entry carries is below
/// [`INDEX_LIMIT`].
pub open spec fn spec_indices_bounded(attrs: Seq<(u16, Option<usize>)>) -> bool {
    forall|i: int|
        0 <= i < attrs.len() ==> ((#[trigger] attrs[i]).1 matches Some(index) ==> index
            < INDEX_LIMIT)
}

/// Reads the root entry of a unit as `gimli::Unit::new` does, with
/// `DebugInfo::header_from_offset`, `Dwarf::abbreviations`,
/// `UnitHeader::entries`, `EntriesCursor::next_dfs` and `current`, and
/// hands out its attributes, `DebuggingInformationEntry::attrs`: the name
/// of each and the index that its normalized value carries. `Ok` exactly
/// where the name has a value; the view of what is returned is then that
/// value.
#[verifier::external_body]
pub(crate) fn read_root_indices(dwarf: &Dwarf, offset: usize) -> (r: Result<
    Vec<(u16, Option<usize>)>,
    gimli::Error,
>)
    ensures
        match r {
            Ok(attrs) => root_indices(*dwarf, offset) == Some(attrs@),
            Err(_) => root_indices(*dwarf, offset) is None,
        },
{
    let header = dwarf.inner.debug_info.header_from_offset(gimli::DebugInfoOffset(offset))?;
    let abbreviations = dwarf.inner.abbreviations(&header)?;
    let mut cursor = header.entries(&abbreviations);
    cursor.next_dfs()?;
    let mut attrs = cursor.current().ok_or(gimli::Error::MissingUnitDie)?.attrs();
    let mut indices = Vec::new();
    while let Some(attr) = attrs.next()? {
        indices.push((attr.name().0, match attr.value() {
            AttributeValue::DebugStrOffsetsIndex(index) => Some(index.0),
            AttributeValue::DebugAddrIndex(index) => Some(index.0),
            _ => None,
        }));
    }
    Ok(indices)
}

/// Reads a unit header with `gimli::DebugInfo::header_from_offset` and
/// builds the unit with `gimli::Dwarf::unit`. `Ok` exactly where the name
/// has a value, and then that value.
///
/// Building a unit resolves the name, the directory and the low address
/// of its root entry, and multiplies an index that one of them carries
/// by the size of a table entry: the indices must be bounded.
#[verifier::external_body]
pub(crate) fn parse_unit(dwarf: &Dwarf, offset: usize) -> (r: Result<Unit, gimli::Error>)
    requires
        root_indices(*dwarf, offset) matches Some(attrs) ==> spec_indices_bounded(attrs),
    ensures
        match r {
            Ok(unit) => dwarf_unit(*dwarf, offset) == Some(unit),
            Err(_) => dwarf_unit(*dwarf, offset) is None,
        },
{
    let header = dwarf.inner.debug_info.header_from_offset(gimli::DebugInfoOffset(offset))?;
    let endian = gimli::Reader::endian(gimli::Section::reader(&dwarf.inner.debug_info));
    Ok(Unit { inner: dwarf.inner.unit(header)?, endian })
}

/// The address size of the unit's encoding, `gimli::Unit::encoding`.
#[verifier::external_body]
pub(crate) fn read_address_size(unit: &Unit) -> (size: u8)
    ensures
        size == unit_address_size(*unit),
{
    unit.inner.encoding().address_size
}

/// The byte order that the sections of the unit were loaded with, as
/// `gimli::Endianity::is_little_endian` tells it.
#[verifier::external_body]
pub(crate) fn read_little_endian(unit: &Unit) -> (little: bool)
    ensures
        little == unit_little_endian(*unit),
{
    gimli::Endianity::is_little_endian(unit.endian)
}

/// Reads the entry at `offset` with `gimli::Unit::entry` and returns its
/// tag, `DebuggingInformationEntry::tag`. `Ok` exactly where the name has
/// a value, and then that value.
#[verifier::external_body]
pub(crate) fn read_tag(unit: &Unit, offset: usize) -> (r: Result<u16, gimli::Error>)
    ensures
        match r {
            Ok(tag) => entry_tag(*unit, offset) == Some(tag),
            Err(_) => entry_tag(*unit, offset) is None,
        },
{
    Ok(unit.inner.entry(gimli::UnitOffset(offset))?.tag().0)
}

/// Reads the entry at `offset` with `gimli::Unit::entry` and looks an
/// attribute up with `DebuggingInformationEntry::attr_value`, which
/// returns the normalized value of the first attribute of that name. `Ok`
/// exactly where the name has a value, and then that value.
#[verifier::external_body]
pub(crate) fn read_attr(unit: &Unit, offset: usize, name: u16) -> (r: Result<
    Option<AttrValue>,
    gimli::Error,
>)
    ensures
        match r {
            Ok(value) => entry_attr(*unit, offset, name) == Some(value),
            Err(_) => entry_attr(*unit, offset, name) is None,
        },
{
    let value = unit.inner.entry(gimli::UnitOffset(offset))?.attr_value(gimli::DwAt(name))?;
    Ok(value.map(|value| match value {
        AttributeValue::Data1(v) => AttrValue::Data1(v),
        AttributeValue::Data2(v) => AttrValue::Data2(v),
        AttributeValue::Data4(v) => AttrValue::Data4(v),
        AttributeValue::Data8(v) => AttrValue::Data8(v),
        AttributeValue::Sdata(v) => AttrValue::Sdata(v),
        AttributeValue::Udata(v) => AttrValue::Udata(v),
        AttributeValue::UnitRef(o) => AttrValue::UnitRef(o.0),
        AttributeValue::Encoding(e) => AttrValue::Encoding(e.0),
        AttributeValue::DebugStrOffsetsIndex(i) => AttrValue::StrOffsetsIndex(i.0),
        _ => AttrValue::Other,
    }))
}

/// Looks an attribute up as `read_attr` does and hands out the bytes that
/// `AttributeValue::exprloc_value` finds in it: those of an expression or
/// of a block. `Ok` exactly where the name has a value; the view of what
/// is returned is then that value.
#[verifier::external_body]
pub(crate) fn read_expression(unit: &Unit, offset: usize, name: u16) -> (r: Result<
    Option<Vec<u8>>,
    gimli::Error,
>)
    ensures
        match r {
            Ok(Some(bytes)) => entry_expression(*unit, offset, name) == Some(Some(bytes@)),
            Ok(None) => entry_expression(*unit, offset, name) == Some(None::<Seq<u8>>),
            Err(_) => entry_expression(*unit, offset, name) is None,
        },
{
    let value = unit.inner.entry(gimli::UnitOffset(offset))?.attr_value(gimli::DwAt(name))?;
    Ok(value.and_then(|value| value.exprloc_value()).map(|e| e.0.bytes().to_vec()))
}

/// Walks the children of the entry at `offset` with
/// `gimli::Unit::entries_tree`, `EntriesTree::root`,
/// `EntriesTreeNode::children` and `EntriesTreeIter::next`, and hands out
/// the offset of each. `Ok` exactly where the name has a value; the view
/// of what is returned is then that value.
#[verifier::external_body]
pub(crate) fn read_children(unit: &Unit, offset: usize) -> (r: Result<Vec<usize>, gimli::Error>)
    ensures
        match r {
            Ok(children) => entry_children(*unit, offset) == Some(children@),
            Err(_) => entry_children(*unit, offset) is None,
        },
{
    let mut tree = unit.inner.entries_tree(Some(gimli::UnitOffset(offset)))?;
    let mut children = tree.root()?.children();
    let mut offsets = Vec::new();
    while let Some(child) = children.next()? {
        offsets.push(child.entry().offset().0);
    }
    Ok(offsets)
}

/// Reads the first child of the entry at `offset` with
/// `gimli::Unit::entries_tree`, `EntriesTree::root`,
/// `EntriesTreeNode::children` and `EntriesTreeIter::next`. `Ok` exactly
/// where the name has a value, and then that value. The parser reads
/// forward: a child lies behind its parent.
#[verifier::external_body]
pub(crate) fn read_first_child(unit: &Unit, offset: usize) -> (r: Result<
    Option<usize>,
    gimli::Error,
>)
    ensures
        match r {
            Ok(child) => entry_first_child(*unit, offset) == Some(child),
            Err(_) => entry_first_child(*unit, offset) is None,
        },
        r matches Ok(Some(child)) ==> child > offset,
{
    let mut tree = unit.inner.entries_tree(Some(gimli::UnitOffset(offset)))?;
    let mut children = tree.root()?.children();
    Ok(children.next()?.map(|child| child.entry().offset().0))
}

/// Reads the entry at `offset` with `gimli::Unit::entries_at_offset` and
/// `EntriesCursor::next_entry`, and moves to the entry that follows it at
/// the same depth with `EntriesCursor::next_sibling`. `Ok` exactly where
/// the name has a value, and then that value. The parser reads forward,
/// and follows a sibling reference only where it points forward: the
/// entry that follows lies behind the one it follows.
#[verifier::external_body]
pub(crate) fn read_next_sibling(unit: &Unit, offset: usize) -> (r: Result<
    Option<usize>,
    gimli::Error,
>)
    ensures
        match r {
            Ok(next) => entry_next_sibling(*unit, offset) == Some(next),
            Err(_) => entry_next_sibling(*unit, offset) is None,
        },
        r matches Ok(Some(next)) ==> next > offset,
{
    let mut cursor = unit.inner.entries_at_offset(gimli::UnitOffset(offset))?;
    cursor.next_entry()?;
    Ok(cursor.next_sibling()?.map(|entry| entry.offset().0))
}

/// Looks an attribute up as `read_attr` does, resolves it with
/// `gimli::Dwarf::attr_string` and decodes the bytes with
/// `Reader::to_string_lossy`. `Ok` exactly where the name has a value; the
/// view of what is returned is then that value.
///
/// An index into the table of string offsets is multiplied by the size
/// of a table entry: it must be bounded.
#[verifier::external_body]
pub(crate) fn read_string(dwarf: &Dwarf, unit: &Unit, offset: usize, name: u16) -> (r: Result<
    Option<String>,
    gimli::Error,
>)
    requires
        entry_attr(*unit, offset, name) matches Some(Some(AttrValue::StrOffsetsIndex(index)))
            ==> index < INDEX_LIMIT,
    ensures
        match r {
            Ok(Some(s)) => entry_string(*dwarf, *unit, offset, name) == Some(Some(s@)),
            Ok(None) => entry_string(*dwarf, *unit, offset, name) == Some(None::<Seq<char>>),
            Err(_) => entry_string(*dwarf, *unit, offset, name) is None,
        },
{
    let entry = unit.inner.entry(gimli::UnitOffset(offset))?;
    match entry.attr_value(gimli::DwAt(name))? {
        Some(value) => {
            let string = dwarf.inner.attr_string(&unit.inner, value)?;
            Ok(Some(gimli::Reader::to_string_lossy(&string)?.into_owned()))
        },
        None => Ok(None),
    }
}

/// Evaluates a location expression with `gimli::Expression::evaluation`,
/// `Evaluation::set_max_iterations`, `set_initial_value`, `evaluate` and
/// `result`, under the encoding of the unit. `Ok` exactly where the name
/// has a value; the view of what is returned is then that value.
///
/// The evaluator shifts by the bits of an address and counts its steps
/// one beyond the limit: the address must be no wider than
/// [`MAX_ADDRESS_SIZE`], and the limit below the greatest number.
#[verifier::external_body]
pub(crate) fn evaluate(unit: &Unit, expr: &[u8], start: u64, limit: u32) -> (r: Result<
    Option<Vec<Piece>>,
    gimli::Error,
>)
    requires
        unit_address_size(*unit) <= MAX_ADDRESS_SIZE,
        limit < u32::MAX,
    ensures
        match r {
            Ok(Some(pieces)) => expression_pieces(*unit, expr@, start, limit) == Some(Some(pieces@)),
            Ok(None) => expression_pieces(*unit, expr@, start, limit) == Some(None::<Seq<Piece>>),
            Err(_) => expression_pieces(*unit, expr@, start, limit) is None,
        },
{
    let reader = gimli::EndianReader::new(Rc::from(expr), unit.endian);
    let mut evaluation = gimli::Expression(reader).evaluation(unit.inner.encoding());
    evaluation.set_max_iterations(limit);
    evaluation.set_initial_value(start);
    Ok(match evaluation.evaluate()? {
        gimli::EvaluationResult::Complete => Some(evaluation.result().iter().map(|piece| Piece {
            size_in_bits: piece.size_in_bits,
            bit_offset: piece.bit_offset,
            address: match piece.location { gimli::Location::Address { address } => Some(address), _ => None },
        }).collect()),
        _ => None,
    })
}

/// Whether each index that an attribute of a root entry carries is below
/// [`INDEX_LIMIT`].
pub fn indices_bounded(attrs: &Vec<(u16, Option<usize>)>) -> (r: bool)
    ensures
        r == spec_indices_bounded(attrs@),
{
    let mut i: usize = 0;
    while i < attrs.len()
        invariant
            i <= attrs.len(),
            forall|j: int|
                0 <= j < i ==> ((#[trigger] attrs@[j]).1 matches Some(index) ==> index
                    < INDEX_LIMIT),
        decreases attrs.len() - i,
    {
        match attrs[i].1 {
            Some(index) => {
                if index as u64 >= INDEX_LIMIT {
                    return false;
                }
            },
            None => {},
        }
        i += 1;
    }
    true
}

/// The unit whose header stands at an offset of `.debug_info`. A unit
/// whose root entry carries an index beyond what a table can hold is
/// refused before it is built.
pub open spec fn spec_unit(dwarf: Dwarf, offset: usize) -> Result<Unit, Failure> {
    match root_indices(dwarf, offset) {
        None => Err(Failure::Malformed),
        Some(attrs) => if !spec_indices_bounded(attrs) {
            Err(Failure::ValueMismatch)
        } else {
            match dwarf_unit(dwarf, offset) {
                Some(unit) => Ok(unit),
                None => Err(Failure::Malformed),
            }
        },
    }
}

impl Dwarf {
    /// Loads the debugging sections of an image from their bytes.
    pub fn load(
        debug_abbrev: &[u8],
        debug_addr: &[u8],
        debug_info: &[u8],
        debug_line: &[u8],
        debug_line_str: &[u8],
        debug_str: &[u8],
        debug_str_offsets: &[u8],
        little_endian: bool,
    ) -> (dwarf: Dwarf)
        ensures
            dwarf == loaded_dwarf(
                debug_abbrev@,
                debug_addr@,
                debug_info@,
                debug_line@,
                debug_line_str@,
                debug_str@,
                debug_str_offsets@,
                little_endian,
            ),
    {
        load_sections(
            debug_abbrev,
            debug_addr,
            debug_info,
            debug_line,
            debug_line_str,
            debug_str,
            debug_str_offsets,
            little_endian,
        )
    }

    /// The unit whose header stands at `offset` of `.debug_info`.
    ///
    /// The root entry of the unit is read first. If one of its attributes
    /// carries an index of [`INDEX_LIMIT`] or more, the unit is refused.
    pub fn unit(&self, offset: usize) -> (r: Result<Unit, ErrorKind>)
        ensures
            match r {
                Ok(unit) => spec_unit(*self, offset) == Ok::<Unit, Failure>(unit),
                Err(e) => spec_unit(*self, offset) == Err::<Unit, Failure>(e@),
            },
    {
        match read_root_indices(self, offset) {
            Err(e) => Err(ErrorKind::Gimli(e)),
            Ok(attrs) => if !indices_bounded(&attrs) {
                Err(ErrorKind::ValueMismatch)
            } else {
                match parse_unit(self, offset) {
                    Ok(unit) => Ok(unit),
                    Err(e) => Err(ErrorKind::Gimli(e)),
                }
            },
        }
    }
}

impl Unit {
    /// The size in bytes of an address in this unit.
    pub fn address_size(&self) -> (size: u8)
        ensures
            size == unit_address_size(*self),
    {
        read_address_size(self)
    }

    /// Whether the image stores the low byte of a number first.
    pub fn little_endian(&self) -> (little: bool)
        ensures
            little == unit_little_endian(*self),
    {
        read_little_endian(self)
    }
}

} // verus!
