use deflect::constants::{
    DW_AT_alignment, DW_AT_byte_size, DW_AT_const_value, DW_AT_data_member_location, DW_AT_discr,
    DW_AT_discr_value, DW_AT_encoding, DW_AT_name, DW_AT_type, DW_ATE_UTF, DW_ATE_boolean,
    DW_ATE_float, DW_ATE_signed, DW_ATE_unsigned, DW_ATE_unsigned_char, DW_TAG_base_type,
    DW_TAG_enumeration_type, DW_TAG_enumerator, DW_TAG_member, DW_TAG_pointer_type,
    DW_TAG_structure_type, DW_TAG_template_type_parameter, DW_TAG_variant, DW_TAG_variant_part,
};
use deflect::dwarf::{indices_bounded, INDEX_LIMIT};
use deflect::entry::{children, find_child, first_child, get_string, get_udata, single_address, tag};
use deflect::schema::discriminant::discriminant_value;
use deflect::schema::{
    Atom, AtomKind, Discriminant, DiscriminantType, DiscriminantValue, Enum, Field, Ref, RefKind,
    Slice, Struct,
};
use deflect::value::bytes::{signed, unsigned};
use deflect::value::select_variant;
use deflect::value::text::{atom_text, decimal, signed_decimal, text};
use deflect::{
    check_tag, eval_addr, get, get_align, get_attr_ref, get_data_member_location, get_name,
    get_size, get_type, reflect, reflect_type, type_parameter, AttrValue, Dwarf, ErrorKind,
    Location, Piece, Type, Unit, Value,
};
use gimli::write::{AttributeValue, EndianVec, Expression, LineProgram, Sections, UnitEntryId, UnitId};

struct Builder {
    dwarf: gimli::write::Dwarf,
    id: UnitId,
    broken: Vec<UnitEntryId>,
}

fn encoding(address_size: u8) -> gimli::Encoding {
    gimli::Encoding { format: gimli::Format::Dwarf32, version: 4, address_size }
}

fn load(info: &[u8], abbrev: &[u8], line: &[u8], strings: &[u8], offsets: &[u8]) -> Dwarf {
    Dwarf::load(abbrev, &[], info, line, &[], strings, offsets, true)
}

struct Image {
    dwarf: Dwarf,
    unit: Unit,
    base: usize,
    first: usize,
    offsets: gimli::write::DebugInfoOffsets,
    id: UnitId,
}

impl Builder {
    fn new() -> Builder {
        Builder::with_address_size(8)
    }

    fn with_address_size(address_size: u8) -> Builder {
        Builder::with_line_program(address_size, LineProgram::none())
    }

    fn with_line_program(address_size: u8, program: LineProgram) -> Builder {
        let mut dwarf = gimli::write::Dwarf::new();
        let id = dwarf.units.add(gimli::write::Unit::new(encoding(address_size), program));
        Builder { dwarf, id, broken: Vec::new() }
    }

    /// Makes the entry one that the parser cannot read.
    fn spoil(&mut self, entry: UnitEntryId) {
        self.broken.push(entry);
    }

    fn root(&self) -> UnitEntryId {
        self.dwarf.units.get(self.id).root()
    }

    fn add(&mut self, parent: UnitEntryId, tag: u16) -> UnitEntryId {
        self.dwarf.units.get_mut(self.id).add(parent, gimli::DwTag(tag))
    }

    fn set(&mut self, entry: UnitEntryId, name: u16, value: AttributeValue) {
        self.dwarf.units.get_mut(self.id).get_mut(entry).set(gimli::DwAt(name), value);
    }

    fn named(&mut self, parent: UnitEntryId, tag: u16, name: &str) -> UnitEntryId {
        let entry = self.add(parent, tag);
        self.set(entry, DW_AT_name, AttributeValue::String(name.as_bytes().to_vec()));
        entry
    }

    fn base(&mut self, name: &str, encoding: u8, size: u64) -> UnitEntryId {
        let root = self.root();
        let entry = self.named(root, DW_TAG_base_type, name);
        self.set(entry, DW_AT_encoding, AttributeValue::Encoding(gimli::DwAte(encoding)));
        self.set(entry, DW_AT_byte_size, AttributeValue::Udata(size));
        entry
    }

    fn structure(&mut self, parent: UnitEntryId, name: &str, size: u64, align: u64) -> UnitEntryId {
        let entry = self.named(parent, DW_TAG_structure_type, name);
        self.set(entry, DW_AT_byte_size, AttributeValue::Udata(size));
        self.set(entry, DW_AT_alignment, AttributeValue::Udata(align));
        entry
    }

    fn member(&mut self, parent: UnitEntryId, name: &str, offset: u64, ty: UnitEntryId) -> UnitEntryId {
        let entry = self.named(parent, DW_TAG_member, name);
        self.set(entry, DW_AT_type, AttributeValue::UnitRef(ty));
        self.set(entry, DW_AT_data_member_location, AttributeValue::Udata(offset));
        entry
    }

    fn pointer(&mut self, name: &str, target: UnitEntryId) -> UnitEntryId {
        let root = self.root();
        let entry = self.named(root, DW_TAG_pointer_type, name);
        self.set(entry, DW_AT_type, AttributeValue::UnitRef(target));
        entry
    }

    fn build_with(mut self, little_endian: bool) -> Image {
        let endian = if little_endian { gimli::RunTimeEndian::Little } else { gimli::RunTimeEndian::Big };
        let mut sections = Sections::new(EndianVec::new(endian));
        let line_strings = self.dwarf.line_strings.write(&mut sections.debug_line_str).unwrap();
        let strings = self.dwarf.strings.write(&mut sections.debug_str).unwrap();
        let offsets = self.dwarf.units.write(&mut sections, &line_strings, &strings).unwrap();
        let mut info = sections.debug_info.slice().to_vec();
        for entry in &self.broken {
            info[offsets.entry(self.id, *entry).0] = 0x7f;
        }
        let dwarf = Dwarf::load(
            sections.debug_abbrev.slice(),
            &[],
            &info,
            sections.debug_line.slice(),
            sections.debug_line_str.slice(),
            sections.debug_str.slice(),
            &[],
            little_endian,
        );
        let base = offsets.unit(self.id).0;
        let unit = dwarf.unit(base).unwrap();
        Image { dwarf, unit, base, first: 0, offsets, id: self.id }
    }

    fn build(self) -> Image {
        self.build_with(true)
    }
}

impl Image {
    fn at(&self, entry: UnitEntryId) -> usize {
        self.offsets.entry(self.id, entry).0 - self.base
    }
}

fn other(kind: ErrorKind) -> &'static str {
    match kind {
        ErrorKind::MakeAMoreSpecificVariant(what) => what,
        kind => panic!("{:?}", kind),
    }
}

#[test]
fn it_works() {
    let result = 2 + 2;
    assert_eq!(result, 4);
}

#[test]
fn constants_are_those_of_the_parser() {
    assert_eq!(DW_TAG_base_type, gimli::DW_TAG_base_type.0);
    assert_eq!(DW_TAG_enumeration_type, gimli::DW_TAG_enumeration_type.0);
    assert_eq!(DW_TAG_enumerator, gimli::DW_TAG_enumerator.0);
    assert_eq!(DW_TAG_member, gimli::DW_TAG_member.0);
    assert_eq!(DW_TAG_pointer_type, gimli::DW_TAG_pointer_type.0);
    assert_eq!(DW_TAG_structure_type, gimli::DW_TAG_structure_type.0);
    assert_eq!(DW_TAG_template_type_parameter, gimli::DW_TAG_template_type_parameter.0);
    assert_eq!(DW_TAG_variant, gimli::DW_TAG_variant.0);
    assert_eq!(DW_TAG_variant_part, gimli::DW_TAG_variant_part.0);
    assert_eq!(DW_AT_alignment, gimli::DW_AT_alignment.0);
    assert_eq!(DW_AT_byte_size, gimli::DW_AT_byte_size.0);
    assert_eq!(DW_AT_const_value, gimli::DW_AT_const_value.0);
    assert_eq!(DW_AT_data_member_location, gimli::DW_AT_data_member_location.0);
    assert_eq!(DW_AT_discr, gimli::DW_AT_discr.0);
    assert_eq!(DW_AT_discr_value, gimli::DW_AT_discr_value.0);
    assert_eq!(DW_AT_encoding, gimli::DW_AT_encoding.0);
    assert_eq!(DW_AT_name, gimli::DW_AT_name.0);
    assert_eq!(DW_AT_type, gimli::DW_AT_type.0);
    assert_eq!(DW_ATE_boolean, gimli::DW_ATE_boolean.0);
    assert_eq!(DW_ATE_float, gimli::DW_ATE_float.0);
    assert_eq!(DW_ATE_signed, gimli::DW_ATE_signed.0);
    assert_eq!(DW_ATE_unsigned, gimli::DW_ATE_unsigned.0);
    assert_eq!(DW_ATE_unsigned_char, gimli::DW_ATE_unsigned_char.0);
    assert_eq!(DW_ATE_UTF, gimli::DW_ATE_UTF.0);
}

#[test]
fn unit_is_found_at_its_offset_only() {
    let image = Builder::new().build();
    assert!(image.dwarf.unit(image.base).is_ok());
    assert!(matches!(image.dwarf.unit(1 << 20), Err(ErrorKind::Gimli(_))));
    assert_eq!(image.unit.address_size(), 8);
    assert!(image.unit.little_endian());
    assert!(!Builder::new().build_with(false).unit.little_endian());
}

#[test]
fn tag_of_an_entry_is_read() {
    let mut b = Builder::new();
    let root = b.root();
    let s = b.structure(root, "S", 4, 4);
    let image = b.build();
    assert_eq!(tag(&image.unit, image.at(s)), Ok(DW_TAG_structure_type));
    assert!(matches!(tag(&image.unit, 1 << 20), Err(ErrorKind::Gimli(_))));
}

#[test]
fn check_tag_reports_both_tags() {
    let mut b = Builder::new();
    let root = b.root();
    let s = b.structure(root, "S", 4, 4);
    let image = b.build();
    assert_eq!(check_tag(&image.unit, image.at(s), DW_TAG_structure_type), Ok(()));
    assert_eq!(
        check_tag(&image.unit, image.at(s), DW_TAG_enumeration_type),
        Err(ErrorKind::TagMismatch { expected: DW_TAG_enumeration_type, actual: DW_TAG_structure_type })
    );
}

#[test]
fn get_returns_the_attribute_or_says_which_is_missing() {
    let mut b = Builder::new();
    let root = b.root();
    let s = b.structure(root, "S", 24, 8);
    let image = b.build();
    assert_eq!(get(&image.unit, image.at(s), DW_AT_byte_size), Ok(AttrValue::Udata(24)));
    assert_eq!(
        get(&image.unit, image.at(s), DW_AT_type),
        Err(ErrorKind::MissingAttr { attr: DW_AT_type })
    );
    assert_eq!(get_size(&image.unit, image.at(s)), Ok(24));
    assert_eq!(get_align(&image.unit, image.at(s)), Ok(8));
    assert_eq!(get_udata(&image.unit, image.at(s), DW_AT_byte_size), Ok(24));
}

#[test]
fn size_that_is_no_number_is_a_value_mismatch() {
    let mut b = Builder::new();
    let root = b.root();
    let u8_ = b.base("u8", DW_ATE_unsigned, 1);
    let s = b.named(root, DW_TAG_structure_type, "S");
    b.set(s, DW_AT_byte_size, AttributeValue::UnitRef(u8_));
    let t = b.named(root, DW_TAG_structure_type, "T");
    let image = b.build();
    assert_eq!(get_size(&image.unit, image.at(s)), Err(ErrorKind::ValueMismatch));
    assert_eq!(
        get_size(&image.unit, image.at(t)),
        Err(ErrorKind::MissingAttr { attr: DW_AT_byte_size })
    );
    assert_eq!(
        get_align(&image.unit, image.at(t)),
        Err(ErrorKind::MissingAttr { attr: DW_AT_alignment })
    );
}

#[test]
fn udata_value_takes_unsigned_constants() {
    assert_eq!(AttrValue::Data1(7).udata_value(), Some(7));
    assert_eq!(AttrValue::Data2(700).udata_value(), Some(700));
    assert_eq!(AttrValue::Data4(70_000).udata_value(), Some(70_000));
    assert_eq!(AttrValue::Data8(1 << 40).udata_value(), Some(1 << 40));
    assert_eq!(AttrValue::Udata(9).udata_value(), Some(9));
    assert_eq!(AttrValue::Sdata(9).udata_value(), Some(9));
    assert_eq!(AttrValue::Sdata(-1).udata_value(), None);
    assert_eq!(AttrValue::UnitRef(3).udata_value(), None);
    assert_eq!(AttrValue::Encoding(7).udata_value(), None);
    assert_eq!(AttrValue::Other.udata_value(), None);
}

#[test]
fn get_type_wants_a_reference() {
    let mut b = Builder::new();
    let root = b.root();
    let u8_ = b.base("u8", DW_ATE_unsigned, 1);
    let s = b.structure(root, "S", 1, 1);
    let m = b.member(s, "a", 0, u8_);
    let bad = b.named(s, DW_TAG_member, "b");
    b.set(bad, DW_AT_type, AttributeValue::Udata(3));
    let image = b.build();
    assert_eq!(get_type(&image.unit, image.at(m)), Ok(image.at(u8_)));
    assert_eq!(get_type(&image.unit, image.at(bad)), Err(ErrorKind::ValueMismatch));
    assert_eq!(
        get_type(&image.unit, image.at(s)),
        Err(ErrorKind::MissingAttr { attr: DW_AT_type })
    );
    assert_eq!(get_attr_ref(&image.unit, image.at(m), DW_AT_type), Ok(Some(image.at(u8_))));
    assert_eq!(get_attr_ref(&image.unit, image.at(bad), DW_AT_type), Ok(None));
    assert_eq!(get_attr_ref(&image.unit, image.at(s), DW_AT_type), Ok(None));
}

#[test]
fn name_is_resolved_inline_and_through_the_string_section() {
    let mut b = Builder::new();
    let root = b.root();
    let inline = b.structure(root, "Inline", 0, 1);
    let through = b.add(root, DW_TAG_structure_type);
    let id = b.dwarf.strings.add("Through");
    b.set(through, DW_AT_name, AttributeValue::StringRef(id));
    let nameless = b.add(root, DW_TAG_structure_type);
    let wrong = b.add(root, DW_TAG_structure_type);
    b.set(wrong, DW_AT_name, AttributeValue::Udata(1));
    let image = b.build();
    assert_eq!(get_name(&image.dwarf, &image.unit, image.at(inline)), Ok("Inline".to_string()));
    assert_eq!(get_name(&image.dwarf, &image.unit, image.at(through)), Ok("Through".to_string()));
    assert_eq!(
        get_name(&image.dwarf, &image.unit, image.at(nameless)),
        Err(ErrorKind::MissingAttr { attr: DW_AT_name })
    );
    assert!(matches!(
        get_name(&image.dwarf, &image.unit, image.at(wrong)),
        Err(ErrorKind::Gimli(_))
    ));
}

#[test]
fn children_come_in_their_order() {
    let mut b = Builder::new();
    let root = b.root();
    let u8_ = b.base("u8", DW_ATE_unsigned, 1);
    let s = b.structure(root, "S", 2, 1);
    let first = b.member(s, "a", 0, u8_);
    let second = b.member(s, "b", 1, u8_);
    let image = b.build();
    assert_eq!(children(&image.unit, image.at(s)), Ok(vec![image.at(first), image.at(second)]));
    assert_eq!(children(&image.unit, image.at(first)), Ok(vec![]));
    assert_eq!(find_child(&image.unit, image.at(s), DW_TAG_member), Ok(Some(image.at(first))));
    assert_eq!(find_child(&image.unit, image.at(s), DW_TAG_variant_part), Ok(None));
}

#[test]
fn find_child_looks_at_immediate_children_only() {
    let mut b = Builder::new();
    let root = b.root();
    let u8_ = b.base("u8", DW_ATE_unsigned, 1);
    let outer = b.structure(root, "Outer", 1, 1);
    let inner = b.structure(outer, "Inner", 1, 1);
    let deep = b.member(inner, "deep", 0, u8_);
    let image = b.build();
    assert_eq!(find_child(&image.unit, image.at(outer), DW_TAG_member), Ok(None));
    assert_eq!(find_child(&image.unit, image.at(inner), DW_TAG_member), Ok(Some(image.at(deep))));
}

#[test]
fn type_parameter_is_the_type_of_the_first_parameter_child() {
    let mut b = Builder::new();
    let root = b.root();
    let u8_ = b.base("u8", DW_ATE_unsigned, 1);
    let u16_ = b.base("u16", DW_ATE_unsigned, 2);
    let function = b.named(root, gimli::DW_TAG_subprogram.0, "symbol_addr<u8>");
    let _local = b.named(function, gimli::DW_TAG_variable.0, "ip");
    let t = b.named(function, DW_TAG_template_type_parameter, "T");
    b.set(t, DW_AT_type, AttributeValue::UnitRef(u8_));
    let u = b.named(function, DW_TAG_template_type_parameter, "U");
    b.set(u, DW_AT_type, AttributeValue::UnitRef(u16_));
    let plain = b.named(root, gimli::DW_TAG_subprogram.0, "plain");
    let image = b.build();
    assert_eq!(type_parameter(&image.unit, image.at(function)), Ok(image.at(u8_)));
    assert_eq!(
        type_parameter(&image.unit, image.at(plain)),
        Err(ErrorKind::MakeAMoreSpecificVariant("Could not find parameter type entry"))
    );
}

#[test]
fn reflect_type_reads_the_type_argument() {
    let mut b = Builder::new();
    let root = b.root();
    let u16_ = b.base("u16", DW_ATE_unsigned, 2);
    let function = b.named(root, gimli::DW_TAG_subprogram.0, "symbol_addr<u16>");
    let t = b.named(function, DW_TAG_template_type_parameter, "T");
    b.set(t, DW_AT_type, AttributeValue::UnitRef(u16_));
    let image = b.build();
    let ty = reflect_type(&image.dwarf, &image.unit, image.at(function)).unwrap();
    assert_eq!(ty.size(), Ok(2));
    let value = reflect(&image.dwarf, &image.unit, image.at(function), &[0x34, 0x12]).unwrap().unwrap();
    assert_eq!(value.as_atom().unwrap().as_u16(), Ok(0x1234));
    assert!(reflect(&image.dwarf, &image.unit, image.at(function), &[0x34]).unwrap().is_none());
    assert!(reflect(&image.dwarf, &image.unit, image.at(u16_), &[0x34, 0x12]).is_err());
}

#[test]
fn member_location_is_an_offset_or_an_expression() {
    let mut b = Builder::new();
    let root = b.root();
    let u8_ = b.base("u8", DW_ATE_unsigned, 1);
    let s = b.structure(root, "S", 16, 1);
    let constant = b.member(s, "a", 5, u8_);
    let computed = b.named(s, DW_TAG_member, "b");
    let mut expression = Expression::new();
    expression.op_plus_uconst(9);
    b.set(computed, DW_AT_data_member_location, AttributeValue::Exprloc(expression));
    let odd = b.named(s, DW_TAG_member, "c");
    b.set(odd, DW_AT_data_member_location, AttributeValue::Flag(true));
    let none = b.named(s, DW_TAG_member, "d");
    let image = b.build();
    let unit = &image.unit;
    let constant = get_data_member_location(unit, image.at(constant)).unwrap();
    assert!(matches!(constant, Location::Offset(5)));
    assert_eq!(eval_addr(unit, &constant, 100), Ok(Some(105)));
    assert_eq!(eval_addr(unit, &constant, u64::MAX), Ok(None));
    let computed = get_data_member_location(unit, image.at(computed)).unwrap();
    assert!(matches!(computed, Location::Expression(_)));
    assert_eq!(eval_addr(unit, &computed, 100), Ok(Some(109)));
    assert_eq!(eval_addr(unit, &computed, 0), Ok(Some(9)));
    let odd = get_data_member_location(unit, image.at(odd)).unwrap();
    assert!(matches!(odd, Location::Other));
    assert_eq!(eval_addr(unit, &odd, 100), Ok(None));
    assert_eq!(
        get_data_member_location(unit, image.at(none)).unwrap_err(),
        ErrorKind::MissingAttr { attr: DW_AT_data_member_location }
    );
}

#[test]
fn expressions_without_a_single_address_have_none() {
    let image = Builder::new().build();
    let unit = &image.unit;
    // DW_OP_reg0: the value lives in a register.
    assert_eq!(eval_addr(unit, &Location::Expression(vec![0x50]), 0), Ok(None));
    // DW_OP_fbreg 0: the evaluation asks for the frame base.
    assert_eq!(eval_addr(unit, &Location::Expression(vec![0x91, 0x00]), 0), Ok(None));
    // DW_OP_plus with one item on the stack.
    assert!(matches!(
        eval_addr(unit, &Location::Expression(vec![0x22]), 0),
        Err(ErrorKind::Gimli(_))
    ));
    // DW_OP_skip -3: an expression that never ends is cut off.
    assert!(matches!(
        eval_addr(unit, &Location::Expression(vec![0x2f, 0xfd, 0xff]), 0),
        Err(ErrorKind::Gimli(_))
    ));
}

#[test]
fn single_address_wants_one_whole_piece_in_memory() {
    let whole = Piece { size_in_bits: None, bit_offset: None, address: Some(8) };
    let sized = Piece { size_in_bits: Some(8), bit_offset: None, address: Some(8) };
    let shifted = Piece { size_in_bits: None, bit_offset: Some(1), address: Some(8) };
    let elsewhere = Piece { size_in_bits: None, bit_offset: None, address: None };
    assert_eq!(single_address(&vec![whole]), Some(8));
    assert_eq!(single_address(&vec![]), None);
    assert_eq!(single_address(&vec![whole, whole]), None);
    assert_eq!(single_address(&vec![sized]), None);
    assert_eq!(single_address(&vec![shifted]), None);
    assert_eq!(single_address(&vec![elsewhere]), None);
}

#[test]
fn discriminant_type_follows_the_size() {
    assert_eq!(DiscriminantType::of_size(1), Ok(DiscriminantType::U8));
    assert_eq!(DiscriminantType::of_size(2), Ok(DiscriminantType::U16));
    assert_eq!(DiscriminantType::of_size(4), Ok(DiscriminantType::U32));
    assert_eq!(DiscriminantType::of_size(8), Ok(DiscriminantType::U64));
    assert_eq!(DiscriminantType::of_size(3), Err(ErrorKind::ValueMismatch));
    assert_eq!(DiscriminantType::of_size(0), Err(ErrorKind::ValueMismatch));
    assert_eq!(DiscriminantType::U8.size(), 1);
    assert_eq!(DiscriminantType::U16.size(), 2);
    assert_eq!(DiscriminantType::U32.size(), 4);
    assert_eq!(DiscriminantType::U64.size(), 8);
    let mut b = Builder::new();
    let root = b.root();
    let u32_ = b.base("u32", DW_ATE_unsigned, 4);
    let s = b.structure(root, "S", 4, 4);
    let image = b.build();
    assert_eq!(DiscriminantType::from_die(&image.unit, image.at(u32_)), Ok(DiscriminantType::U32));
    assert_eq!(
        DiscriminantType::from_die(&image.unit, image.at(s)),
        Err(ErrorKind::TagMismatch { expected: DW_TAG_base_type, actual: DW_TAG_structure_type })
    );
}

#[test]
fn discriminant_value_keeps_constants_as_written() {
    assert_eq!(DiscriminantValue::from_attr(AttrValue::Data1(3)), Ok(DiscriminantValue::U8(3)));
    assert_eq!(DiscriminantValue::from_attr(AttrValue::Data2(300)), Ok(DiscriminantValue::U16(300)));
    assert_eq!(DiscriminantValue::from_attr(AttrValue::Data4(70_000)), Ok(DiscriminantValue::U32(70_000)));
    assert_eq!(DiscriminantValue::from_attr(AttrValue::Data8(1 << 40)), Ok(DiscriminantValue::U64(1 << 40)));
    assert_eq!(DiscriminantValue::from_attr(AttrValue::Udata(400)), Ok(DiscriminantValue::U64(400)));
    assert_eq!(DiscriminantValue::from_attr(AttrValue::Sdata(5)), Ok(DiscriminantValue::U64(5)));
    assert_eq!(DiscriminantValue::from_attr(AttrValue::Sdata(-5)), Err(ErrorKind::ValueMismatch));
    assert_eq!(DiscriminantValue::from_attr(AttrValue::UnitRef(5)), Err(ErrorKind::ValueMismatch));
    assert_eq!(DiscriminantValue::from_attr(AttrValue::Other), Err(ErrorKind::ValueMismatch));
    assert_eq!(DiscriminantValue::U8(3).value(), 3);
    assert_eq!(DiscriminantValue::U16(300).value(), 300);
    assert_eq!(DiscriminantValue::U32(70_000).value(), 70_000);
    assert_eq!(DiscriminantValue::U64(1 << 40).value(), 1 << 40);
}

fn c_like(b: &mut Builder) -> (UnitEntryId, [UnitEntryId; 3]) {
    let root = b.root();
    let u64_ = b.base("u64", DW_ATE_unsigned, 8);
    let e = b.named(root, DW_TAG_enumeration_type, "TestCLikeEnum");
    b.set(e, DW_AT_type, AttributeValue::UnitRef(u64_));
    b.set(e, DW_AT_byte_size, AttributeValue::Udata(8));
    b.set(e, DW_AT_alignment, AttributeValue::Udata(8));
    let a = b.named(e, DW_TAG_enumerator, "A");
    b.set(a, DW_AT_const_value, AttributeValue::Udata(400));
    let bb = b.named(e, DW_TAG_enumerator, "B");
    b.set(bb, DW_AT_const_value, AttributeValue::Udata(401));
    let c = b.named(e, DW_TAG_enumerator, "C");
    b.set(c, DW_AT_const_value, AttributeValue::Udata(402));
    (e, [a, bb, c])
}

struct Union {
    e: UnitEntryId,
    part: UnitEntryId,
    a: UnitEntryId,
    b: UnitEntryId,
    rest: UnitEntryId,
}

fn tagged_union(b: &mut Builder, with_default: bool, location: AttributeValue) -> Union {
    let root = b.root();
    let u8_ = b.base("u8", DW_ATE_unsigned, 1);
    let u32_ = b.base("u32", DW_ATE_unsigned, 4);
    let e = b.structure(root, "E", 8, 4);
    let part = b.add(e, DW_TAG_variant_part);
    let tag = b.add(part, DW_TAG_member);
    b.set(tag, DW_AT_type, AttributeValue::UnitRef(u32_));
    b.set(tag, DW_AT_data_member_location, location);
    b.set(part, DW_AT_discr, AttributeValue::UnitRef(tag));
    let a = b.structure(e, "A", 8, 4);
    b.member(a, "__0", 4, u8_);
    let bb = b.structure(e, "B", 8, 4);
    b.member(bb, "__0", 4, u32_);
    let rest = b.structure(e, "Rest", 8, 4);
    let va = b.add(part, DW_TAG_variant);
    b.set(va, DW_AT_discr_value, AttributeValue::Udata(0));
    b.member(va, "A", 0, a);
    let vb = b.add(part, DW_TAG_variant);
    b.set(vb, DW_AT_discr_value, AttributeValue::Data1(1));
    b.member(vb, "B", 0, bb);
    if with_default {
        let vr = b.add(part, DW_TAG_variant);
        b.member(vr, "Rest", 0, rest);
    }
    Union { e, part, a, b: bb, rest }
}

#[test]
fn discriminant_of_an_enumeration_is_its_own_bytes() {
    let mut b = Builder::new();
    let (e, _) = c_like(&mut b);
    let image = b.build();
    let d = Discriminant::from_dw_tag_enumeration_type(&image.unit, image.at(e)).unwrap();
    assert_eq!(*d.ty(), DiscriminantType::U64);
    assert_eq!(d.alignment(), 8);
    assert!(matches!(d.location(), Location::Offset(0)));
    let copy = d.clone();
    assert_eq!(*copy.ty(), DiscriminantType::U64);
    assert_eq!(copy.alignment(), 8);
    assert!(matches!(copy.location(), Location::Offset(0)));
}

#[test]
fn discriminant_of_an_enumeration_wants_an_enumeration() {
    let mut b = Builder::new();
    let root = b.root();
    let s = b.structure(root, "S", 1, 1);
    let bare = b.named(root, DW_TAG_enumeration_type, "Bare");
    let image = b.build();
    assert_eq!(
        Discriminant::from_dw_tag_enumeration_type(&image.unit, image.at(s)).unwrap_err(),
        ErrorKind::TagMismatch { expected: DW_TAG_enumeration_type, actual: DW_TAG_structure_type }
    );
    assert_eq!(
        Discriminant::from_dw_tag_enumeration_type(&image.unit, image.at(bare)).unwrap_err(),
        ErrorKind::MissingAttr { attr: DW_AT_type }
    );
}

#[test]
fn discriminant_of_a_variant_part_is_its_member() {
    let mut b = Builder::new();
    let u = tagged_union(&mut b, false, AttributeValue::Udata(0));
    let image = b.build();
    let d = Discriminant::from_dw_tag_variant_part(&image.unit, image.at(u.part)).unwrap();
    assert_eq!(*d.ty(), DiscriminantType::U32);
    assert_eq!(d.alignment(), 1);
    assert!(matches!(d.location(), Location::Offset(0)));
    assert_eq!(
        Discriminant::from_dw_tag_variant_part(&image.unit, image.at(u.e)).unwrap_err(),
        ErrorKind::TagMismatch { expected: DW_TAG_variant_part, actual: DW_TAG_structure_type }
    );
}

#[test]
fn variant_part_declares_its_alignment_or_has_one() {
    let mut b = Builder::new();
    let u = tagged_union(&mut b, false, AttributeValue::Udata(0));
    b.set(u.part, DW_AT_alignment, AttributeValue::Udata(4));
    let image = b.build();
    let d = Discriminant::from_dw_tag_variant_part(&image.unit, image.at(u.part)).unwrap();
    assert_eq!(d.alignment(), 4);
}

#[test]
fn variant_part_without_discriminant_lacks_the_attribute() {
    let mut b = Builder::new();
    let root = b.root();
    let e = b.structure(root, "E", 8, 4);
    let part = b.add(e, DW_TAG_variant_part);
    b.set(part, DW_AT_alignment, AttributeValue::Udata(4));
    let image = b.build();
    assert_eq!(
        Discriminant::from_dw_tag_variant_part(&image.unit, image.at(part)).unwrap_err(),
        ErrorKind::MissingAttr { attr: DW_AT_discr }
    );
}

#[test]
fn optional_discriminant_value_is_read() {
    let mut b = Builder::new();
    let root = b.root();
    let with = b.add(root, DW_TAG_variant);
    b.set(with, DW_AT_discr_value, AttributeValue::Data2(7));
    let without = b.add(root, DW_TAG_variant);
    b.set(without, DW_AT_alignment, AttributeValue::Udata(1));
    let wrong = b.add(root, DW_TAG_variant);
    b.set(wrong, DW_AT_discr_value, AttributeValue::Flag(true));
    let image = b.build();
    assert_eq!(
        discriminant_value(&image.unit, image.at(with), DW_AT_discr_value),
        Ok(Some(DiscriminantValue::U16(7)))
    );
    assert_eq!(discriminant_value(&image.unit, image.at(without), DW_AT_discr_value), Ok(None));
    assert_eq!(
        discriminant_value(&image.unit, image.at(wrong), DW_AT_discr_value),
        Err(ErrorKind::ValueMismatch)
    );
}

#[test]
fn enumeration_lists_its_constants_in_order() {
    let mut b = Builder::new();
    let (e, enumerators) = c_like(&mut b);
    let image = b.build();
    let schema = Enum::from_dw_tag_enumeration_type(&image.dwarf, &image.unit, image.at(e)).unwrap();
    assert_eq!(schema.name(), "TestCLikeEnum");
    assert_eq!(schema.size(), Ok(8));
    assert_eq!(schema.align(), Ok(8));
    assert_eq!(schema.entry(), image.at(e));
    assert!(std::ptr::eq(schema.dwarf(), &image.dwarf));
    assert!(std::ptr::eq(schema.unit(), &image.unit));
    assert_eq!(*schema.discriminant().ty(), DiscriminantType::U64);
    let variants = schema.variants().unwrap();
    assert_eq!(variants.len(), 3);
    let values: Vec<u64> = variants.iter().map(|v| v.discriminant_value().unwrap().value()).collect();
    assert_eq!(values, vec![400, 401, 402]);
    let names: Vec<String> = variants.iter().map(|v| v.name().unwrap()).collect();
    assert_eq!(names, vec!["A", "B", "C"]);
    for (variant, enumerator) in variants.iter().zip(enumerators) {
        assert_eq!(variant.entry(), image.at(enumerator));
        assert_eq!(*variant.discriminant().ty(), DiscriminantType::U64);
        assert!(variant.fields().unwrap().is_empty());
    }
}

#[test]
fn enumeration_is_not_re_sorted() {
    let mut b = Builder::new();
    let root = b.root();
    let u8_ = b.base("u8", DW_ATE_unsigned, 1);
    let e = b.named(root, DW_TAG_enumeration_type, "Order");
    b.set(e, DW_AT_type, AttributeValue::UnitRef(u8_));
    b.set(e, DW_AT_byte_size, AttributeValue::Udata(1));
    b.set(e, DW_AT_alignment, AttributeValue::Udata(1));
    for (name, value) in [("High", 9u8), ("Low", 2), ("Mid", 5)] {
        let entry = b.named(e, DW_TAG_enumerator, name);
        b.set(entry, DW_AT_const_value, AttributeValue::Data1(value));
    }
    let image = b.build();
    let schema = Enum::from_dw_tag_enumeration_type(&image.dwarf, &image.unit, image.at(e)).unwrap();
    let values: Vec<DiscriminantValue> =
        schema.variants().unwrap().iter().map(|v| v.discriminant_value().unwrap()).collect();
    assert_eq!(
        values,
        vec![DiscriminantValue::U8(9), DiscriminantValue::U8(2), DiscriminantValue::U8(5)]
    );
}

#[test]
fn enumeration_wants_enumerators_with_constants() {
    let mut b = Builder::new();
    let root = b.root();
    let u8_ = b.base("u8", DW_ATE_unsigned, 1);
    let e = b.named(root, DW_TAG_enumeration_type, "Odd");
    b.set(e, DW_AT_type, AttributeValue::UnitRef(u8_));
    b.set(e, DW_AT_alignment, AttributeValue::Udata(1));
    b.named(e, DW_TAG_member, "stray");
    let f = b.named(root, DW_TAG_enumeration_type, "Bare");
    b.set(f, DW_AT_type, AttributeValue::UnitRef(u8_));
    b.set(f, DW_AT_alignment, AttributeValue::Udata(1));
    b.named(f, DW_TAG_enumerator, "NoValue");
    let image = b.build();
    let odd = Enum::from_dw_tag_enumeration_type(&image.dwarf, &image.unit, image.at(e)).unwrap();
    assert_eq!(
        odd.variants().unwrap_err(),
        ErrorKind::TagMismatch { expected: DW_TAG_enumerator, actual: DW_TAG_member }
    );
    assert_eq!(odd.size(), Err(ErrorKind::MissingAttr { attr: DW_AT_byte_size }));
    let bare = Enum::from_dw_tag_enumeration_type(&image.dwarf, &image.unit, image.at(f)).unwrap();
    assert_eq!(bare.variants().unwrap_err(), ErrorKind::MissingAttr { attr: DW_AT_const_value });
}

#[test]
fn enumeration_constructor_wants_an_enumeration() {
    let mut b = Builder::new();
    let (e, _) = c_like(&mut b);
    let image = b.build();
    assert_eq!(
        Enum::from_dw_tag_structure_type(&image.dwarf, &image.unit, image.at(e)).unwrap_err(),
        ErrorKind::TagMismatch { expected: DW_TAG_structure_type, actual: DW_TAG_enumeration_type }
    );
}

#[test]
fn tagged_union_lists_its_variants() {
    let mut b = Builder::new();
    let u = tagged_union(&mut b, true, AttributeValue::Udata(0));
    let image = b.build();
    let schema = Enum::from_dw_tag_structure_type(&image.dwarf, &image.unit, image.at(u.e)).unwrap();
    assert_eq!(schema.name(), "E");
    assert_eq!(schema.size(), Ok(8));
    assert_eq!(schema.align(), Ok(4));
    assert_eq!(*schema.discriminant().ty(), DiscriminantType::U32);
    let variants = schema.variants().unwrap();
    assert_eq!(variants.len(), 3);
    assert_eq!(variants[0].discriminant_value(), Some(DiscriminantValue::U64(0)));
    assert_eq!(variants[1].discriminant_value(), Some(DiscriminantValue::U8(1)));
    assert_eq!(variants[2].discriminant_value(), None);
    assert_eq!(variants[0].entry(), image.at(u.a));
    assert_eq!(variants[1].entry(), image.at(u.b));
    assert_eq!(variants[2].entry(), image.at(u.rest));
    assert_eq!(variants[1].name(), Ok("B".to_string()));
    let fields = variants[1].fields().unwrap();
    assert_eq!(fields.len(), 1);
    assert_eq!(fields[0].name(), "__0");
    assert_eq!(fields[0].offset(), 4);
}

#[test]
fn structure_without_variant_part_is_no_sum_type() {
    let mut b = Builder::new();
    let root = b.root();
    let u8_ = b.base("u8", DW_ATE_unsigned, 1);
    let s = b.structure(root, "Plain", 1, 1);
    b.member(s, "a", 0, u8_);
    let hidden = b.structure(s, "Nested", 1, 1);
    b.add(hidden, DW_TAG_variant_part);
    let (e, _) = c_like(&mut b);
    let image = b.build();
    assert_eq!(
        Enum::from_dw_tag_structure_type(&image.dwarf, &image.unit, image.at(s)).unwrap_err(),
        ErrorKind::MissingChild { tag: DW_TAG_variant_part }
    );
    assert_eq!(
        Enum::from_dw_tag_enumeration_type(&image.dwarf, &image.unit, image.at(s)).unwrap_err(),
        ErrorKind::TagMismatch { expected: DW_TAG_enumeration_type, actual: DW_TAG_structure_type }
    );
    assert!(Enum::from_dw_tag_enumeration_type(&image.dwarf, &image.unit, image.at(e)).is_ok());
}

#[test]
fn variant_without_payload_lacks_a_child() {
    let mut b = Builder::new();
    let root = b.root();
    let u32_ = b.base("u32", DW_ATE_unsigned, 4);
    let e = b.structure(root, "E", 4, 4);
    let part = b.add(e, DW_TAG_variant_part);
    let tag = b.add(part, DW_TAG_member);
    b.set(tag, DW_AT_type, AttributeValue::UnitRef(u32_));
    b.set(tag, DW_AT_data_member_location, AttributeValue::Udata(0));
    b.set(part, DW_AT_discr, AttributeValue::UnitRef(tag));
    let v = b.add(part, DW_TAG_variant);
    b.set(v, DW_AT_discr_value, AttributeValue::Udata(0));
    let image = b.build();
    let schema = Enum::from_dw_tag_structure_type(&image.dwarf, &image.unit, image.at(e)).unwrap();
    assert_eq!(schema.variants().unwrap_err(), ErrorKind::MissingChild { tag: DW_TAG_member });
}

#[test]
fn atoms_follow_encoding_and_size() {
    let kinds = [
        (DW_ATE_boolean, 1, AtomKind::Bool),
        (DW_ATE_UTF, 4, AtomKind::Char),
        (DW_ATE_unsigned_char, 4, AtomKind::Char),
        (DW_ATE_signed, 1, AtomKind::I8),
        (DW_ATE_signed, 2, AtomKind::I16),
        (DW_ATE_signed, 4, AtomKind::I32),
        (DW_ATE_signed, 8, AtomKind::I64),
        (DW_ATE_signed, 16, AtomKind::I128),
        (DW_ATE_unsigned, 0, AtomKind::Unit),
        (DW_ATE_unsigned, 1, AtomKind::U8),
        (DW_ATE_unsigned, 2, AtomKind::U16),
        (DW_ATE_unsigned, 4, AtomKind::U32),
        (DW_ATE_unsigned, 8, AtomKind::U64),
        (DW_ATE_unsigned, 16, AtomKind::U128),
        (DW_ATE_float, 4, AtomKind::F32),
        (DW_ATE_float, 8, AtomKind::F64),
    ];
    for (encoding, size, kind) in kinds {
        assert_eq!(AtomKind::of(encoding, size), Ok(kind));
        assert_eq!(kind.size() as u64, size);
        assert_eq!(kind.align() as u64, if size == 0 { 1 } else { size });
    }
    assert_eq!(AtomKind::of(DW_ATE_boolean, 2), Err(ErrorKind::ValueMismatch));
    assert_eq!(AtomKind::of(DW_ATE_float, 2), Err(ErrorKind::ValueMismatch));
    assert_eq!(AtomKind::of(DW_ATE_signed, 0), Err(ErrorKind::ValueMismatch));
    assert_eq!(AtomKind::of(DW_ATE_unsigned, 3), Err(ErrorKind::ValueMismatch));
    assert_eq!(AtomKind::of(0x7f, 1), Err(ErrorKind::ValueMismatch));
}

#[test]
fn atom_is_read_from_a_base_type() {
    let mut b = Builder::new();
    let root = b.root();
    let i16_ = b.base("i16", DW_ATE_signed, 2);
    let s = b.structure(root, "S", 1, 1);
    let odd = b.named(root, DW_TAG_base_type, "odd");
    b.set(odd, DW_AT_encoding, AttributeValue::Udata(1 << 20));
    b.set(odd, DW_AT_byte_size, AttributeValue::Udata(2));
    let image = b.build();
    let atom = Atom::from_dw_tag_base_type(&image.dwarf, &image.unit, image.at(i16_)).unwrap();
    assert_eq!(atom.name(), "i16");
    assert_eq!(atom.kind(), AtomKind::I16);
    assert_eq!(atom.size(), 2);
    assert!(atom.little_endian());
    let copy = atom.clone();
    assert_eq!(copy.name(), "i16");
    assert_eq!(copy.kind(), AtomKind::I16);
    assert_eq!(
        Atom::from_dw_tag_base_type(&image.dwarf, &image.unit, image.at(s)).unwrap_err(),
        ErrorKind::TagMismatch { expected: DW_TAG_base_type, actual: DW_TAG_structure_type }
    );
    assert_eq!(
        Atom::from_dw_tag_base_type(&image.dwarf, &image.unit, image.at(odd)).unwrap_err(),
        ErrorKind::ValueMismatch
    );
}

#[test]
fn struct_lists_its_fields() {
    let mut b = Builder::new();
    let root = b.root();
    let u8_ = b.base("u8", DW_ATE_unsigned, 1);
    let u32_ = b.base("u32", DW_ATE_unsigned, 4);
    let s = b.structure(root, "Pair", 8, 4);
    let first = b.member(s, "first", 0, u32_);
    b.structure(s, "Nested", 0, 1);
    let second = b.member(s, "second", 4, u8_);
    let image = b.build();
    let schema = Struct::from_dw_tag_structure_type(&image.dwarf, &image.unit, image.at(s)).unwrap();
    assert_eq!(schema.name(), "Pair");
    assert_eq!(schema.size(), Ok(8));
    assert_eq!(schema.align(), Ok(4));
    let fields = schema.fields().unwrap();
    assert_eq!(fields.len(), 2);
    assert_eq!(fields[0].name(), "first");
    assert_eq!(fields[0].offset(), 0);
    assert_eq!(fields[0].type_entry(), image.at(u32_));
    assert_eq!(fields[1].name(), "second");
    assert_eq!(fields[1].offset(), 4);
    assert!(matches!(fields[1].ty(), Ok(Type::Atom(_))));
    let field = Field::from_dw_tag_member(&image.dwarf, &image.unit, image.at(first)).unwrap();
    assert_eq!(field.name(), "first");
    assert_eq!(
        Field::from_dw_tag_member(&image.dwarf, &image.unit, image.at(s)).unwrap_err(),
        ErrorKind::TagMismatch { expected: DW_TAG_member, actual: DW_TAG_structure_type }
    );
    assert_eq!(
        Struct::from_dw_tag_structure_type(&image.dwarf, &image.unit, image.at(second)).unwrap_err(),
        ErrorKind::TagMismatch { expected: DW_TAG_structure_type, actual: DW_TAG_member }
    );
}

#[test]
fn field_with_a_computed_offset_is_refused() {
    let mut b = Builder::new();
    let root = b.root();
    let u8_ = b.base("u8", DW_ATE_unsigned, 1);
    let s = b.structure(root, "S", 1, 1);
    let m = b.named(s, DW_TAG_member, "a");
    b.set(m, DW_AT_type, AttributeValue::UnitRef(u8_));
    let mut expression = Expression::new();
    expression.op_plus_uconst(0);
    b.set(m, DW_AT_data_member_location, AttributeValue::Exprloc(expression));
    let image = b.build();
    let schema = Struct::from_dw_tag_structure_type(&image.dwarf, &image.unit, image.at(s)).unwrap();
    assert_eq!(schema.fields().unwrap_err(), ErrorKind::ValueMismatch);
}

#[test]
fn pointers_tell_their_kind_by_their_name() {
    let mut b = Builder::new();
    let u8_ = b.base("u8", DW_ATE_unsigned, 1);
    let shared = b.pointer("&u8", u8_);
    let unique = b.pointer("&mut u8", u8_);
    let raw = b.pointer("*const u8", u8_);
    let root = b.root();
    let nameless = b.add(root, DW_TAG_pointer_type);
    b.set(nameless, DW_AT_type, AttributeValue::UnitRef(u8_));
    let sized = b.pointer("&u8", u8_);
    b.set(sized, DW_AT_byte_size, AttributeValue::Udata(4));
    let void = b.named(root, DW_TAG_pointer_type, "*const ()");
    let image = b.build();
    let read = |entry| Ref::from_dw_tag_pointer_type(&image.dwarf, &image.unit, image.at(entry));
    let shared = read(shared).unwrap();
    assert_eq!(shared.kind(), RefKind::Shared);
    assert_eq!(shared.name().as_deref(), Some("&u8"));
    assert_eq!(shared.target_entry(), image.at(u8_));
    assert_eq!(shared.size(), Ok(8));
    assert!(matches!(shared.target(), Ok(Type::Atom(_))));
    assert_eq!(read(unique).unwrap().kind(), RefKind::Unique);
    assert_eq!(read(raw).unwrap().kind(), RefKind::Raw);
    let nameless = read(nameless).unwrap();
    assert_eq!(nameless.kind(), RefKind::Raw);
    assert_eq!(*nameless.name(), None);
    assert_eq!(read(sized).unwrap().size(), Ok(4));
    assert_eq!(read(void).unwrap_err(), ErrorKind::MissingAttr { attr: DW_AT_type });
    assert_eq!(
        read(u8_).unwrap_err(),
        ErrorKind::TagMismatch { expected: DW_TAG_pointer_type, actual: DW_TAG_base_type }
    );
    assert_eq!(RefKind::of_name(&Some("&mut".to_string())), RefKind::Shared);
    assert_eq!(RefKind::of_name(&Some("".to_string())), RefKind::Raw);
    assert_eq!(RefKind::of_name(&None), RefKind::Raw);
}

fn slice_of_u16(b: &mut Builder) -> (UnitEntryId, UnitEntryId) {
    let root = b.root();
    let u16_ = b.base("u16", DW_ATE_unsigned, 2);
    let usize_ = b.base("usize", DW_ATE_unsigned, 8);
    let pointer = b.pointer("*const u16", u16_);
    let s = b.structure(root, "&[u16]", 16, 8);
    b.member(s, "data_ptr", 0, pointer);
    b.member(s, "length", 8, usize_);
    (s, u16_)
}

#[test]
fn slice_schema_finds_its_fields_by_name() {
    let mut b = Builder::new();
    let (s, u16_) = slice_of_u16(&mut b);
    let image = b.build();
    let schema = Slice::from_dw_tag_structure_type(&image.dwarf, &image.unit, image.at(s)).unwrap();
    assert_eq!(schema.name(), "&[u16]");
    assert_eq!(schema.entry(), image.at(s));
    assert_eq!(schema.data_ptr().name(), "data_ptr");
    assert_eq!(schema.data_ptr().offset(), 0);
    assert_eq!(schema.length().name(), "length");
    assert_eq!(schema.length().offset(), 8);
    assert_eq!(schema.elt_entry(), image.at(u16_));
    assert_eq!(schema.elt().unwrap().size(), Ok(2));
}

#[test]
fn slice_schema_without_a_field_lacks_an_attribute() {
    let mut b = Builder::new();
    let root = b.root();
    let u16_ = b.base("u16", DW_ATE_unsigned, 2);
    let usize_ = b.base("usize", DW_ATE_unsigned, 8);
    let pointer = b.pointer("*const u16", u16_);
    let no_length = b.structure(root, "&[u16]", 16, 8);
    b.member(no_length, "data_ptr", 0, pointer);
    let no_pointer = b.structure(root, "&[u16]", 16, 8);
    b.member(no_pointer, "length", 8, usize_);
    let void = b.named(root, DW_TAG_pointer_type, "*const ()");
    let no_element = b.structure(root, "&[()]", 16, 8);
    b.member(no_element, "data_ptr", 0, void);
    b.member(no_element, "length", 8, usize_);
    let no_indirection = b.structure(root, "&[u16]", 16, 8);
    b.member(no_indirection, "data_ptr", 0, u16_);
    b.member(no_indirection, "length", 8, usize_);
    let image = b.build();
    let read = |entry| Slice::from_dw_tag_structure_type(&image.dwarf, &image.unit, image.at(entry));
    assert_eq!(read(no_length).unwrap_err(), ErrorKind::MissingAttr { attr: DW_AT_name });
    assert_eq!(read(no_pointer).unwrap_err(), ErrorKind::MissingAttr { attr: DW_AT_name });
    assert_eq!(read(no_element).unwrap_err(), ErrorKind::MissingAttr { attr: DW_AT_type });
    assert_eq!(
        read(no_indirection).unwrap_err(),
        ErrorKind::TagMismatch { expected: DW_TAG_pointer_type, actual: DW_TAG_base_type }
    );
}

#[test]
fn schema_is_told_by_the_tag() {
    let mut b = Builder::new();
    let root = b.root();
    let u8_ = b.base("u8", DW_ATE_unsigned, 1);
    let pointer = b.pointer("&u8", u8_);
    let plain = b.structure(root, "Plain", 1, 1);
    b.member(plain, "a", 0, u8_);
    let (slice, _) = slice_of_u16(&mut b);
    let (c_like, _) = c_like(&mut b);
    let union = tagged_union(&mut b, false, AttributeValue::Udata(0));
    let function = b.named(root, gimli::DW_TAG_subprogram.0, "f");
    let image = b.build();
    let read = |entry| Type::from_die(&image.dwarf, &image.unit, image.at(entry));
    assert!(matches!(read(u8_), Ok(Type::Atom(_))));
    assert!(matches!(read(pointer), Ok(Type::Ref(_))));
    assert!(matches!(read(plain), Ok(Type::Struct(_))));
    assert!(matches!(read(slice), Ok(Type::Slice(_))));
    assert!(matches!(read(c_like), Ok(Type::Enum(_))));
    assert!(matches!(read(union.e), Ok(Type::Enum(_))));
    assert_eq!(other(read(function).unwrap_err()), "Unsupported type entry");
    assert!(matches!(Type::from_die(&image.dwarf, &image.unit, 1 << 20), Err(ErrorKind::Gimli(_))));
    assert_eq!(read(u8_).unwrap().size(), Ok(1));
    assert_eq!(read(pointer).unwrap().size(), Ok(8));
    assert_eq!(read(plain).unwrap().size(), Ok(1));
    assert_eq!(read(slice).unwrap().size(), Ok(16));
    assert_eq!(read(c_like).unwrap().size(), Ok(8));
    assert_eq!(read(union.e).unwrap().size(), Ok(8));
}

#[test]
fn schema_is_the_same_when_read_again() {
    let mut b = Builder::new();
    let u = tagged_union(&mut b, true, AttributeValue::Udata(0));
    let image = b.build();
    let read = || match Type::from_die(&image.dwarf, &image.unit, image.at(u.e)).unwrap() {
        Type::Enum(e) => e,
        other => panic!("{:?}", other),
    };
    let (first, second) = (read(), read());
    assert_eq!(first.name(), second.name());
    assert_eq!(first.entry(), second.entry());
    assert_eq!(first.size(), second.size());
    let values = |e: &Enum| -> Vec<(usize, Option<DiscriminantValue>)> {
        e.variants().unwrap().iter().map(|v| (v.entry(), v.discriminant_value())).collect()
    };
    assert_eq!(values(&first), values(&second));
    let ty = Type::Enum(first);
    let one = Value::with_type(ty.clone(), &[0, 0, 0, 0, 7, 0, 0, 0]);
    let two = Value::with_type(ty.clone(), &[1, 0, 0, 0, 8, 0, 0, 0]);
    assert_eq!(values(one.as_enum().unwrap().schema()), values(&second));
    assert_eq!(values(two.as_enum().unwrap().schema()), values(&second));
    assert_eq!(one.bytes(), &[0, 0, 0, 0, 7, 0, 0, 0]);
    assert_eq!(two.bytes(), &[1, 0, 0, 0, 8, 0, 0, 0]);
}

#[test]
fn numbers_are_read_in_either_byte_order() {
    assert_eq!(unsigned(&[], true), 0);
    assert_eq!(unsigned(&[0x12], true), 0x12);
    assert_eq!(unsigned(&[0x12], false), 0x12);
    assert_eq!(unsigned(&[0x34, 0x12], true), 0x1234);
    assert_eq!(unsigned(&[0x34, 0x12], false), 0x3412);
    assert_eq!(unsigned(&[1, 2, 3, 4, 5, 6, 7, 8], true), 0x0807060504030201);
    assert_eq!(unsigned(&[1, 2, 3, 4, 5, 6, 7, 8], false), 0x0102030405060708);
    assert_eq!(unsigned(&[0xff; 16], true), u128::MAX);
    assert_eq!(unsigned(&[0xff; 16], false), u128::MAX);
    assert_eq!(unsigned(&0x0123_4567_89ab_cdef_u64.to_le_bytes(), true), 0x0123_4567_89ab_cdef);
    assert_eq!(unsigned(&0x0123_4567_89ab_cdef_u64.to_be_bytes(), false), 0x0123_4567_89ab_cdef);
    assert_eq!(signed(&[0xff], true), -1);
    assert_eq!(signed(&[0x7f], true), 127);
    assert_eq!(signed(&[0x80], true), -128);
    assert_eq!(signed(&[0xfe, 0xff], true), -2);
    assert_eq!(signed(&[0xff, 0xfe], false), -2);
    assert_eq!(signed(&(-123456789i32).to_le_bytes(), true), -123456789);
    assert_eq!(signed(&i64::MIN.to_be_bytes(), false), i64::MIN as i128);
    assert_eq!(signed(&i128::MIN.to_le_bytes(), true), i128::MIN);
    assert_eq!(signed(&i128::MAX.to_le_bytes(), true), i128::MAX);
    assert_eq!(signed(&(-1i128).to_be_bytes(), false), -1);
}

fn atom(kind: AtomKind, bytes: &[u8]) -> deflect::value::Atom<'_> {
    deflect::value::Atom::new(Atom::new("atom".to_string(), kind, true), bytes)
}

#[test]
fn atoms_narrow_to_their_own_type() {
    assert_eq!(atom(AtomKind::Bool, &[1]).as_bool(), Ok(true));
    assert_eq!(atom(AtomKind::Bool, &[0]).as_bool(), Ok(false));
    assert_eq!(atom(AtomKind::Bool, &[2]).as_bool(), Err(ErrorKind::Narrowing));
    assert_eq!(atom(AtomKind::Unit, &[]).as_unit(), Ok(()));
    assert_eq!(atom(AtomKind::Char, &('λ' as u32).to_le_bytes()).as_char_code(), Ok('λ' as u32));
    assert_eq!(atom(AtomKind::U8, &[42]).as_u8(), Ok(42));
    assert_eq!(atom(AtomKind::U16, &4242u16.to_le_bytes()).as_u16(), Ok(4242));
    assert_eq!(atom(AtomKind::U32, &424242u32.to_le_bytes()).as_u32(), Ok(424242));
    assert_eq!(atom(AtomKind::U64, &u64::MAX.to_le_bytes()).as_u64(), Ok(u64::MAX));
    assert_eq!(atom(AtomKind::U128, &u128::MAX.to_le_bytes()).as_u128(), Ok(u128::MAX));
    assert_eq!(atom(AtomKind::I8, &(-42i8).to_le_bytes()).as_i8(), Ok(-42));
    assert_eq!(atom(AtomKind::I16, &(-4242i16).to_le_bytes()).as_i16(), Ok(-4242));
    assert_eq!(atom(AtomKind::I32, &i32::MIN.to_le_bytes()).as_i32(), Ok(i32::MIN));
    assert_eq!(atom(AtomKind::I64, &i64::MAX.to_le_bytes()).as_i64(), Ok(i64::MAX));
    assert_eq!(atom(AtomKind::I128, &i128::MIN.to_le_bytes()).as_i128(), Ok(i128::MIN));
    assert_eq!(atom(AtomKind::F32, &1.5f32.to_le_bytes()).as_f32_bits().map(f32::from_bits), Ok(1.5));
    assert_eq!(atom(AtomKind::F64, &(-0.25f64).to_le_bytes()).as_f64_bits().map(f64::from_bits), Ok(-0.25));
}

#[test]
fn atoms_narrow_to_no_other_type() {
    let value = atom(AtomKind::U16, &[1, 2]);
    assert_eq!(value.as_u8(), Err(ErrorKind::Narrowing));
    assert_eq!(value.as_i16(), Err(ErrorKind::Narrowing));
    assert_eq!(value.as_u32(), Err(ErrorKind::Narrowing));
    assert_eq!(value.as_bool(), Err(ErrorKind::Narrowing));
    assert_eq!(value.as_unit(), Err(ErrorKind::Narrowing));
    assert_eq!(value.as_char_code(), Err(ErrorKind::Narrowing));
    assert_eq!(value.as_f32_bits(), Err(ErrorKind::Narrowing));
    assert_eq!(value.as_u16(), Ok(0x0201));
    assert_eq!(atom(AtomKind::U16, &[1]).as_u16(), Err(ErrorKind::Narrowing));
}

#[test]
fn narrowing_returns_the_start_of_the_span() {
    let bytes = [7u8, 8, 9, 10];
    let value = atom(AtomKind::U16, &bytes);
    let span = value.narrow(AtomKind::U16).unwrap();
    assert_eq!(span, &[7, 8]);
    assert!(std::ptr::eq(span.as_ptr(), bytes.as_ptr()));
    assert_eq!(value.narrow(AtomKind::I16), Err(ErrorKind::Narrowing));
    assert_eq!(value.schema().kind(), AtomKind::U16);
}

#[test]
fn atoms_of_a_big_endian_image_are_read_high_byte_first() {
    let mut b = Builder::new();
    let u16_ = b.base("u16", DW_ATE_unsigned, 2);
    let image = b.build_with(false);
    let ty = Type::from_die(&image.dwarf, &image.unit, image.at(u16_)).unwrap();
    let value = Value::with_type(ty, &[0x12, 0x34]);
    assert_eq!(value.as_atom().unwrap().as_u16(), Ok(0x1234));
}

#[test]
fn value_is_of_one_kind() {
    let mut b = Builder::new();
    let u8_ = b.base("u8", DW_ATE_unsigned, 1);
    let image = b.build();
    let ty = Type::from_die(&image.dwarf, &image.unit, image.at(u8_)).unwrap();
    let value = Value::with_type(ty, &[42]);
    assert!(value.as_atom().is_ok());
    assert_eq!(value.as_struct().unwrap_err(), ErrorKind::Narrowing);
    assert_eq!(value.as_enum().unwrap_err(), ErrorKind::Narrowing);
    assert_eq!(value.as_slice().unwrap_err(), ErrorKind::Narrowing);
    assert_eq!(value.as_ref().unwrap_err(), ErrorKind::Narrowing);
    assert!(matches!(value.schema(), Type::Atom(_)));
}

#[test]
fn value_wants_the_bytes_of_its_type() {
    let mut b = Builder::new();
    let u32_ = b.base("u32", DW_ATE_unsigned, 4);
    let root = b.root();
    let sizeless = b.named(root, DW_TAG_structure_type, "Sizeless");
    let image = b.build();
    let ty = || Type::from_die(&image.dwarf, &image.unit, image.at(u32_)).unwrap();
    assert!(Value::new(ty(), &[1, 2, 3, 4]).unwrap().is_some());
    assert!(Value::new(ty(), &[1, 2, 3, 4, 5]).unwrap().is_some());
    assert!(Value::new(ty(), &[1, 2, 3]).unwrap().is_none());
    let sizeless = Type::from_die(&image.dwarf, &image.unit, image.at(sizeless)).unwrap();
    assert_eq!(
        Value::new(sizeless, &[]).unwrap_err(),
        ErrorKind::MissingAttr { attr: DW_AT_byte_size }
    );
}

#[test]
fn unit_struct_has_a_name_and_no_fields() {
    let mut b = Builder::new();
    let root = b.root();
    let s = b.structure(root, "UnitStruct", 0, 1);
    let phantom = b.structure(root, "PhantomData<usize>", 0, 1);
    let image = b.build();
    for (entry, name) in [(s, "UnitStruct"), (phantom, "PhantomData<usize>")] {
        let ty = Type::from_die(&image.dwarf, &image.unit, image.at(entry)).unwrap();
        let value = Value::with_type(ty, &[]).as_struct().unwrap();
        assert_eq!(value.name(), name);
        assert_eq!(value.schema().name(), name);
        assert!(value.fields().unwrap().is_empty());
    }
}

#[test]
fn tuple_struct_projects_its_field() {
    let mut b = Builder::new();
    let root = b.root();
    let u8_ = b.base("u8", DW_ATE_unsigned, 1);
    let s = b.structure(root, "TupleStruct", 1, 1);
    b.member(s, "__0", 0, u8_);
    let image = b.build();
    let ty = Type::from_die(&image.dwarf, &image.unit, image.at(s)).unwrap();
    let value = Value::with_type(ty, &[42]).as_struct().unwrap();
    assert_eq!(value.name(), "TupleStruct");
    let fields = value.fields().unwrap();
    assert_eq!(fields.len(), 1);
    assert_eq!(fields[0].name(), "__0");
    assert_eq!(fields[0].schema().offset(), 0);
    assert_eq!(fields[0].value().unwrap().as_atom().unwrap().as_u8(), Ok(42));
}

#[test]
fn braced_struct_projects_its_fields_at_their_offsets() {
    let mut b = Builder::new();
    let root = b.root();
    let u8_ = b.base("u8", DW_ATE_unsigned, 1);
    let i32_ = b.base("i32", DW_ATE_signed, 4);
    let s = b.structure(root, "BracedStruct", 8, 4);
    b.member(s, "foo", 4, u8_);
    b.member(s, "bar", 0, i32_);
    let image = b.build();
    let ty = Type::from_die(&image.dwarf, &image.unit, image.at(s)).unwrap();
    let bytes = [0xfe, 0xff, 0xff, 0xff, 42, 0, 0, 0];
    let value = Value::with_type(ty, &bytes).as_struct().unwrap();
    let fields = value.fields().unwrap();
    assert_eq!(fields[0].name(), "foo");
    let foo = fields[0].value().unwrap();
    assert_eq!(foo.bytes(), &[42]);
    assert!(std::ptr::eq(foo.bytes().as_ptr(), &bytes[4]));
    assert_eq!(foo.as_atom().unwrap().as_u8(), Ok(42));
    assert_eq!(fields[1].name(), "bar");
    assert_eq!(fields[1].value().unwrap().as_atom().unwrap().as_i32(), Ok(-2));
}

#[test]
fn field_beyond_its_parent_has_no_value() {
    let mut b = Builder::new();
    let root = b.root();
    let u32_ = b.base("u32", DW_ATE_unsigned, 4);
    let s = b.structure(root, "Short", 4, 4);
    b.member(s, "a", 2, u32_);
    let image = b.build();
    let ty = Type::from_die(&image.dwarf, &image.unit, image.at(s)).unwrap();
    let value = Value::with_type(ty, &[0; 4]).as_struct().unwrap();
    let fields = value.fields().unwrap();
    assert_eq!(other(fields[0].value().unwrap_err()), "Part lies outside of the value");
}

fn variant(value: Option<u64>) -> deflect::schema::Variant<'static> {
    let image: &'static Image = Box::leak(Box::new(c_like_image()));
    let discriminant =
        Discriminant::from_dw_tag_enumeration_type(&image.unit, image.first).unwrap();
    deflect::schema::Variant::new(
        &image.dwarf,
        &image.unit,
        0,
        discriminant,
        value.map(DiscriminantValue::U64),
    )
}

fn c_like_image() -> Image {
    let mut b = Builder::new();
    let (e, _) = c_like(&mut b);
    let mut image = b.build();
    image.first = image.at(e);
    image
}

#[test]
fn active_variant_is_the_one_declared_with_the_discriminant() {
    let variants = vec![variant(Some(400)), variant(Some(401)), variant(Some(402))];
    assert_eq!(select_variant(&variants, 400), Ok(0));
    assert_eq!(select_variant(&variants, 401), Ok(1));
    assert_eq!(select_variant(&variants, 402), Ok(2));
    assert_eq!(select_variant(&variants, 0), Err(ErrorKind::NoVariant { discriminant: 0 }));
    assert_eq!(select_variant(&variants, 403), Err(ErrorKind::NoVariant { discriminant: 403 }));
    assert_eq!(select_variant(&vec![], 0), Err(ErrorKind::NoVariant { discriminant: 0 }));
}

#[test]
fn default_variant_is_tried_last() {
    let variants = vec![variant(None), variant(Some(1)), variant(None), variant(Some(2))];
    assert_eq!(select_variant(&variants, 1), Ok(1));
    assert_eq!(select_variant(&variants, 2), Ok(3));
    assert_eq!(select_variant(&variants, 3), Ok(0));
    assert_eq!(select_variant(&variants, 0), Ok(0));
}

#[test]
fn discriminant_declared_twice_selects_no_variant() {
    let variants = vec![variant(Some(1)), variant(Some(2)), variant(Some(1)), variant(None)];
    assert_eq!(select_variant(&variants, 1), Err(ErrorKind::NoVariant { discriminant: 1 }));
    assert_eq!(select_variant(&variants, 2), Ok(1));
    assert_eq!(select_variant(&variants, 9), Ok(3));
}

#[test]
fn variants_of_different_widths_compare_by_their_number() {
    let image: &'static Image = Box::leak(Box::new(c_like_image()));
    let discriminant =
        || Discriminant::from_dw_tag_enumeration_type(&image.unit, image.first).unwrap();
    let make = |value| deflect::schema::Variant::new(&image.dwarf, &image.unit, 0, discriminant(), Some(value));
    let variants = vec![
        make(DiscriminantValue::U8(1)),
        make(DiscriminantValue::U16(2)),
        make(DiscriminantValue::U32(3)),
        make(DiscriminantValue::U64(4)),
    ];
    for d in 1..=4u64 {
        assert_eq!(select_variant(&variants, d), Ok(d as usize - 1));
    }
}

#[test]
fn c_like_value_resolves_its_variant() {
    let mut b = Builder::new();
    let (e, enumerators) = c_like(&mut b);
    let image = b.build();
    let ty = || Type::from_die(&image.dwarf, &image.unit, image.at(e)).unwrap();
    for (d, name, enumerator) in [(400u64, "A", 0), (401, "B", 1), (402, "C", 2)] {
        let bytes = d.to_le_bytes();
        let value = Value::with_type(ty(), &bytes).as_enum().unwrap();
        assert_eq!(value.discriminant(), Ok(d));
        let variant = value.variant().unwrap();
        assert_eq!(variant.schema().name(), Ok(name.to_string()));
        assert_eq!(variant.schema().entry(), image.at(enumerators[enumerator]));
        assert!(variant.fields().unwrap().is_empty());
    }
    let bytes = 403u64.to_le_bytes();
    let value = Value::with_type(ty(), &bytes).as_enum().unwrap();
    assert_eq!(value.variant().unwrap_err(), ErrorKind::NoVariant { discriminant: 403 });
    assert_eq!(value.schema().name(), "TestCLikeEnum");
}

#[test]
fn tagged_union_value_resolves_its_variant_and_payload() {
    let mut b = Builder::new();
    let u = tagged_union(&mut b, false, AttributeValue::Udata(0));
    let image = b.build();
    let ty = || Type::from_die(&image.dwarf, &image.unit, image.at(u.e)).unwrap();
    let value = Value::with_type(ty(), &[1, 0, 0, 0, 0x78, 0x56, 0x34, 0x12]).as_enum().unwrap();
    assert_eq!(value.discriminant(), Ok(1));
    let variant = value.variant().unwrap();
    assert_eq!(variant.schema().entry(), image.at(u.b));
    let fields = variant.fields().unwrap();
    assert_eq!(fields[0].value().unwrap().as_atom().unwrap().as_u32(), Ok(0x12345678));
    let value = Value::with_type(ty(), &[0, 0, 0, 0, 9, 0, 0, 0]).as_enum().unwrap();
    let variant = value.variant().unwrap();
    assert_eq!(variant.schema().entry(), image.at(u.a));
    assert_eq!(variant.fields().unwrap()[0].value().unwrap().as_atom().unwrap().as_u8(), Ok(9));
    let value = Value::with_type(ty(), &[2, 0, 0, 0, 9, 0, 0, 0]).as_enum().unwrap();
    assert_eq!(value.variant().unwrap_err(), ErrorKind::NoVariant { discriminant: 2 });
}

#[test]
fn tagged_union_value_falls_back_to_its_default() {
    let mut b = Builder::new();
    let u = tagged_union(&mut b, true, AttributeValue::Udata(0));
    let image = b.build();
    let ty = Type::from_die(&image.dwarf, &image.unit, image.at(u.e)).unwrap();
    let value = Value::with_type(ty, &[7, 0, 0, 0, 0, 0, 0, 0]).as_enum().unwrap();
    assert_eq!(value.variant().unwrap().schema().entry(), image.at(u.rest));
}

#[test]
fn discriminant_is_found_through_an_expression() {
    let mut b = Builder::new();
    let mut expression = Expression::new();
    expression.op_plus_uconst(4);
    let u = tagged_union(&mut b, false, AttributeValue::Exprloc(expression));
    let image = b.build();
    let ty = Type::from_die(&image.dwarf, &image.unit, image.at(u.e)).unwrap();
    let value = Value::with_type(ty, &[9, 9, 9, 9, 1, 0, 0, 0]).as_enum().unwrap();
    assert_eq!(value.discriminant(), Ok(1));
    assert_eq!(value.variant().unwrap().schema().entry(), image.at(u.b));
}

#[test]
fn discriminant_that_cannot_be_located_is_refused() {
    let mut b = Builder::new();
    let u = tagged_union(&mut b, false, AttributeValue::Flag(true));
    let beyond = tagged_union(&mut b, false, AttributeValue::Udata(6));
    let image = b.build();
    let ty = Type::from_die(&image.dwarf, &image.unit, image.at(u.e)).unwrap();
    let value = Value::with_type(ty, &[0; 8]).as_enum().unwrap();
    assert_eq!(value.discriminant(), Err(ErrorKind::ValueMismatch));
    assert_eq!(value.variant().unwrap_err(), ErrorKind::ValueMismatch);
    let ty = Type::from_die(&image.dwarf, &image.unit, image.at(beyond.e)).unwrap();
    let value = Value::with_type(ty, &[0; 8]).as_enum().unwrap();
    assert_eq!(other(value.discriminant().unwrap_err()), "Part lies outside of the value");
}

fn fat(pointer: u64, length: u64) -> Vec<u8> {
    let mut bytes = pointer.to_le_bytes().to_vec();
    bytes.extend_from_slice(&length.to_le_bytes());
    bytes
}

#[test]
fn slice_value_reads_pointer_and_length() {
    let mut b = Builder::new();
    let (s, _) = slice_of_u16(&mut b);
    let image = b.build();
    let ty = Type::from_die(&image.dwarf, &image.unit, image.at(s)).unwrap();
    let bytes = fat(0x1000, 3);
    let value = Value::with_type(ty, &bytes).as_slice().unwrap();
    assert_eq!(value.data_ptr(), Ok(0x1000));
    assert_eq!(value.len(), Ok(3));
    assert_eq!(value.byte_len(), Ok(6));
    assert_eq!(value.schema().name(), "&[u16]");
    let target = [1, 0, 2, 0, 3, 0, 4, 0];
    let elements = value.iter(&target).unwrap();
    assert_eq!(elements.len(), 3);
    let numbers: Vec<u16> = elements.iter().map(|e| e.as_atom().unwrap().as_u16().unwrap()).collect();
    assert_eq!(numbers, vec![1, 2, 3]);
    assert!(std::ptr::eq(elements[2].bytes().as_ptr(), &target[4]));
    assert_eq!(other(value.iter(&target[..5]).unwrap_err()), "Part lies outside of the value");
}

#[test]
fn empty_slice_has_no_elements_wherever_it_points() {
    let mut b = Builder::new();
    let (s, _) = slice_of_u16(&mut b);
    let image = b.build();
    let ty = || Type::from_die(&image.dwarf, &image.unit, image.at(s)).unwrap();
    for pointer in [0u64, 1, 2, 0xdead_beef, u64::MAX] {
        let bytes = fat(pointer, 0);
        let value = Value::with_type(ty(), &bytes).as_slice().unwrap();
        assert_eq!(value.data_ptr(), Ok(pointer));
        assert_eq!(value.len(), Ok(0));
        assert_eq!(value.byte_len(), Ok(0));
        assert!(value.iter(&[]).unwrap().is_empty());
        assert!(value.iter(&[1, 2, 3, 4]).unwrap().is_empty());
    }
}

#[test]
fn slice_that_is_too_long_has_no_size() {
    let mut b = Builder::new();
    let (s, _) = slice_of_u16(&mut b);
    let image = b.build();
    let ty = Type::from_die(&image.dwarf, &image.unit, image.at(s)).unwrap();
    let bytes = fat(0x1000, u64::MAX);
    let value = Value::with_type(ty, &bytes).as_slice().unwrap();
    assert_eq!(value.byte_len(), Err(ErrorKind::ValueMismatch));
    assert_eq!(value.iter(&[]).unwrap_err(), ErrorKind::ValueMismatch);
}

#[test]
fn slice_of_values_without_bytes_has_its_length() {
    let mut b = Builder::new();
    let root = b.root();
    let unit_ = b.base("()", DW_ATE_unsigned, 0);
    let usize_ = b.base("usize", DW_ATE_unsigned, 8);
    let pointer = b.pointer("*const ()", unit_);
    let s = b.structure(root, "&[()]", 16, 8);
    b.member(s, "data_ptr", 0, pointer);
    b.member(s, "length", 8, usize_);
    let image = b.build();
    let ty = Type::from_die(&image.dwarf, &image.unit, image.at(s)).unwrap();
    let bytes = fat(1, 5);
    let value = Value::with_type(ty, &bytes).as_slice().unwrap();
    assert_eq!(value.byte_len(), Ok(0));
    let elements = value.iter(&[]).unwrap();
    assert_eq!(elements.len(), 5);
    assert_eq!(elements[4].as_atom().unwrap().as_unit(), Ok(()));
}

#[test]
fn reference_holds_an_address_and_is_followed() {
    let mut b = Builder::new();
    let u16_ = b.base("u16", DW_ATE_unsigned, 2);
    let pointer = b.pointer("&u16", u16_);
    let narrow = b.pointer("&u16", u16_);
    b.set(narrow, DW_AT_byte_size, AttributeValue::Udata(4));
    let wide = b.pointer("&u16", u16_);
    b.set(wide, DW_AT_byte_size, AttributeValue::Udata(16));
    let image = b.build();
    let ty = |entry| Type::from_die(&image.dwarf, &image.unit, image.at(entry)).unwrap();
    let bytes = 0x0000_7fff_dead_beef_u64.to_le_bytes();
    let value = Value::with_type(ty(pointer), &bytes).as_ref().unwrap();
    assert_eq!(value.as_ptr(), Ok(0x0000_7fff_dead_beef));
    assert_eq!(value.target_size(), Ok(2));
    assert_eq!(value.schema().kind(), RefKind::Shared);
    let target = [0x34, 0x12, 0xff];
    let pointee = value.deref(&target).unwrap();
    assert_eq!(pointee.bytes(), &[0x34, 0x12]);
    assert_eq!(pointee.as_atom().unwrap().as_u16(), Ok(0x1234));
    assert_eq!(other(value.deref(&target[..1]).unwrap_err()), "Part lies outside of the value");
    let value = Value::with_type(ty(narrow), &bytes).as_ref().unwrap();
    assert_eq!(value.as_ptr(), Ok(0xdead_beef));
    let long = [0u8; 16];
    let value = Value::with_type(ty(wide), &long).as_ref().unwrap();
    assert_eq!(value.as_ptr(), Err(ErrorKind::ValueMismatch));
}

#[test]
fn error_kinds_convert_from_the_parser() {
    let kind: ErrorKind = gimli::Error::Io.into();
    assert_eq!(kind, ErrorKind::Gimli(gimli::Error::Io));
}

fn reflected<'a>(image: &'a Image, entry: UnitEntryId, bytes: &'a [u8]) -> Value<'a, 'a> {
    Value::with_type(Type::from_die(&image.dwarf, &image.unit, image.at(entry)).unwrap(), bytes)
}

/// Adds the entry of a function that is generic over the type.
fn generic_over(b: &mut Builder, name: &str, ty: UnitEntryId) -> UnitEntryId {
    let root = b.root();
    let function = b.named(root, gimli::DW_TAG_subprogram.0, name);
    let parameter = b.named(function, DW_TAG_template_type_parameter, "T");
    b.set(parameter, DW_AT_type, AttributeValue::UnitRef(ty));
    function
}

#[test]
fn phantom_data() {
    let mut b = Builder::new();
    let root = b.root();
    let s = b.structure(root, "PhantomData<usize>", 0, 1);
    let function = generic_over(&mut b, "symbol_addr<PhantomData<usize>>", s);
    let image = b.build();
    let value = reflect(&image.dwarf, &image.unit, image.at(function), &[]).unwrap().unwrap();
    assert!(value.as_struct().is_ok());
    assert_eq!(value.to_string().unwrap(), "PhantomData<usize>");
}

#[test]
fn unit_struct() {
    let mut b = Builder::new();
    let root = b.root();
    let s = b.structure(root, "UnitStruct", 0, 1);
    let function = generic_over(&mut b, "symbol_addr<UnitStruct>", s);
    let image = b.build();
    let value = reflect(&image.dwarf, &image.unit, image.at(function), &[]).unwrap().unwrap();
    assert_eq!(value.to_string().unwrap(), "UnitStruct");
}

#[test]
fn reflect_unit_struct() {
    let mut b = Builder::new();
    let root = b.root();
    let s = b.structure(root, "UnitStruct", 0, 1);
    let function = generic_over(&mut b, "symbol_addr<UnitStruct>", s);
    let image = b.build();
    let value = reflect(&image.dwarf, &image.unit, image.at(function), &[]).unwrap().unwrap();
    assert_eq!(value.to_string().unwrap(), "UnitStruct");
}

#[test]
fn tuple_struct() {
    let mut b = Builder::new();
    let root = b.root();
    let u8_ = b.base("u8", DW_ATE_unsigned, 1);
    let s = b.structure(root, "TupleStruct", 1, 1);
    b.member(s, "__0", 0, u8_);
    let function = generic_over(&mut b, "symbol_addr<TupleStruct>", s);
    let image = b.build();
    let value = reflect(&image.dwarf, &image.unit, image.at(function), &[42]).unwrap().unwrap();
    assert_eq!(value.to_string().unwrap(), "TupleStruct { __0: 42 }");
    let fields = value.as_struct().unwrap().fields().unwrap();
    assert_eq!(fields[0].value().unwrap().to_string().unwrap(), "42");
}

#[test]
fn braced_struct() {
    let mut b = Builder::new();
    let root = b.root();
    let u8_ = b.base("u8", DW_ATE_unsigned, 1);
    let s = b.structure(root, "BracedStruct", 1, 1);
    b.member(s, "foo", 0, u8_);
    let function = generic_over(&mut b, "symbol_addr<BracedStruct>", s);
    let image = b.build();
    let value = reflect(&image.dwarf, &image.unit, image.at(function), &[42]).unwrap().unwrap();
    assert_eq!(value.to_string().unwrap(), "BracedStruct { foo: 42 }");
}

/// Reflects `bytes` as a value of the primitive type of the given name,
/// encoding and size, and gives its text.
fn reflected_text(name: &str, encoding: u8, bytes: &[u8]) -> String {
    let mut b = Builder::new();
    let ty = b.base(name, encoding, bytes.len() as u64);
    let function = generic_over(&mut b, "symbol_addr<T>", ty);
    let image = b.build();
    reflect(&image.dwarf, &image.unit, image.at(function), bytes).unwrap().unwrap().to_string().unwrap()
}

#[test]
fn reflected_atoms_are_written_as_their_values_are() {
    assert_eq!(reflected_text("()", DW_ATE_unsigned, &[]), "()");
    for n in [false, true] {
        assert_eq!(reflected_text("bool", DW_ATE_boolean, &[n as u8]), n.to_string());
    }
    for n in ['a', '\u{0}', 'λ', '\u{10FFFF}'] {
        assert_eq!(reflected_text("char", DW_ATE_UTF, &(n as u32).to_le_bytes()), n.to_string());
    }
    for n in [0u8, 1, 42, 128, u8::MAX] {
        assert_eq!(reflected_text("u8", DW_ATE_unsigned, &n.to_le_bytes()), n.to_string());
        assert_eq!(reflected_text("i8", DW_ATE_signed, &n.to_le_bytes()), (n as i8).to_string());
    }
    for n in [0u16, 1, 4242, 0x8000, u16::MAX] {
        assert_eq!(reflected_text("u16", DW_ATE_unsigned, &n.to_le_bytes()), n.to_string());
        assert_eq!(reflected_text("i16", DW_ATE_signed, &n.to_le_bytes()), (n as i16).to_string());
    }
    for n in [0u32, 1, 424242, 0x8000_0000, u32::MAX] {
        assert_eq!(reflected_text("u32", DW_ATE_unsigned, &n.to_le_bytes()), n.to_string());
        assert_eq!(reflected_text("i32", DW_ATE_signed, &n.to_le_bytes()), (n as i32).to_string());
    }
    for n in [0u64, 1, 42424242424242, 1 << 63, u64::MAX] {
        assert_eq!(reflected_text("u64", DW_ATE_unsigned, &n.to_le_bytes()), n.to_string());
        assert_eq!(reflected_text("usize", DW_ATE_unsigned, &n.to_le_bytes()), (n as usize).to_string());
        assert_eq!(reflected_text("i64", DW_ATE_signed, &n.to_le_bytes()), (n as i64).to_string());
        assert_eq!(reflected_text("isize", DW_ATE_signed, &n.to_le_bytes()), (n as isize).to_string());
    }
    for n in [0u128, 1, 1 << 100, 1 << 127, u128::MAX] {
        assert_eq!(reflected_text("u128", DW_ATE_unsigned, &n.to_le_bytes()), n.to_string());
        assert_eq!(reflected_text("i128", DW_ATE_signed, &n.to_le_bytes()), (n as i128).to_string());
    }
}

#[test]
fn struct_of_structs_is_written_with_its_fields_in_order() {
    let mut b = Builder::new();
    let root = b.root();
    let i16_ = b.base("i16", DW_ATE_signed, 2);
    let bool_ = b.base("bool", DW_ATE_boolean, 1);
    let unit_ = b.base("()", DW_ATE_unsigned, 0);
    let inner = b.structure(root, "Inner", 3, 1);
    b.member(inner, "flag", 2, bool_);
    b.member(inner, "n", 0, i16_);
    let empty = b.structure(root, "Empty", 0, 1);
    let outer = b.structure(root, "Outer", 4, 2);
    b.member(outer, "inner", 0, inner);
    b.member(outer, "empty", 3, empty);
    b.member(outer, "unit", 3, unit_);
    let image = b.build();
    let value = reflected(&image, outer, &[0xff, 0xff, 1, 0]);
    assert_eq!(
        value.to_string().unwrap(),
        "Outer { inner: Inner { flag: true, n: -1 }, empty: Empty, unit: () }"
    );
    assert_eq!(text(&value, 2).unwrap(), value.to_string().unwrap());
    assert_eq!(other(text(&value, 1).unwrap_err()), "Value is nested too deeply");
    assert_eq!(other(text(&value, 0).unwrap_err()), "Value is nested too deeply");
}

#[test]
fn sum_type_is_written_as_its_active_variant() {
    let mut b = Builder::new();
    let (e, _) = c_like(&mut b);
    let u = tagged_union(&mut b, true, AttributeValue::Udata(0));
    let image = b.build();
    assert_eq!(reflected(&image, e, &401u64.to_le_bytes()).to_string().unwrap(), "B");
    assert_eq!(
        reflected(&image, e, &7u64.to_le_bytes()).to_string().unwrap_err(),
        ErrorKind::NoVariant { discriminant: 7 }
    );
    assert_eq!(reflected(&image, u.e, &[0, 0, 0, 0, 9, 0, 0, 0]).to_string().unwrap(), "A { __0: 9 }");
    assert_eq!(
        reflected(&image, u.e, &[1, 0, 0, 0, 1, 1, 0, 0]).to_string().unwrap(),
        "B { __0: 257 }"
    );
    assert_eq!(reflected(&image, u.e, &[5, 0, 0, 0, 1, 1, 0, 0]).to_string().unwrap(), "Rest");
}

#[test]
fn numbers_are_written_as_the_standard_library_writes_them() {
    for n in [0u128, 1, 9, 10, 11, 99, 100, 255, 256, 1000, 65535, 1 << 32, u64::MAX as u128, u128::MAX] {
        assert_eq!(decimal(n), n.to_string());
    }
    for n in [0i128, 1, -1, 9, -9, 10, -10, 127, -128, i64::MIN as i128, i128::MAX, i128::MIN] {
        assert_eq!(signed_decimal(n), n.to_string());
    }
}

#[test]
fn atoms_are_written_as_their_values_are() {
    let text_of = |kind, bytes: &[u8]| atom_text(&atom(kind, bytes)).unwrap();
    assert_eq!(text_of(AtomKind::Unit, &[]), "()");
    for n in [true, false] {
        assert_eq!(text_of(AtomKind::Bool, &[n as u8]), n.to_string());
    }
    for n in ['a', 'Z', '0', ' ', 'λ', '\u{10FFFF}', '\0', '\u{D7FF}', '\u{E000}'] {
        assert_eq!(text_of(AtomKind::Char, &(n as u32).to_le_bytes()), n.to_string());
    }
    for n in [0u8, 1, 42, 127, 128, 255] {
        assert_eq!(text_of(AtomKind::U8, &n.to_le_bytes()), n.to_string());
        assert_eq!(text_of(AtomKind::I8, &(n as i8).to_le_bytes()), (n as i8).to_string());
    }
    for n in [0u16, 1, 4242, 0x7fff, 0x8000, u16::MAX] {
        assert_eq!(text_of(AtomKind::U16, &n.to_le_bytes()), n.to_string());
        assert_eq!(text_of(AtomKind::I16, &(n as i16).to_le_bytes()), (n as i16).to_string());
    }
    for n in [0u32, 1, 424242, 0x7fff_ffff, 0x8000_0000, u32::MAX] {
        assert_eq!(text_of(AtomKind::U32, &n.to_le_bytes()), n.to_string());
        assert_eq!(text_of(AtomKind::I32, &(n as i32).to_le_bytes()), (n as i32).to_string());
    }
    for n in [0u64, 1, 42424242424242, i64::MAX as u64, 1 << 63, u64::MAX] {
        assert_eq!(text_of(AtomKind::U64, &n.to_le_bytes()), n.to_string());
        assert_eq!(text_of(AtomKind::I64, &(n as i64).to_le_bytes()), (n as i64).to_string());
    }
    for n in [0u128, 1, 1 << 100, i128::MAX as u128, 1 << 127, u128::MAX] {
        assert_eq!(text_of(AtomKind::U128, &n.to_le_bytes()), n.to_string());
        assert_eq!(text_of(AtomKind::I128, &(n as i128).to_le_bytes()), (n as i128).to_string());
    }
}

#[test]
fn some_values_have_no_text() {
    let no_text = "Value has no text of its own";
    assert_eq!(other(atom_text(&atom(AtomKind::F32, &1.5f32.to_le_bytes())).unwrap_err()), no_text);
    assert_eq!(other(atom_text(&atom(AtomKind::F64, &1.5f64.to_le_bytes())).unwrap_err()), no_text);
    assert_eq!(atom_text(&atom(AtomKind::Bool, &[2])).unwrap_err(), ErrorKind::Narrowing);
    assert_eq!(
        atom_text(&atom(AtomKind::Char, &0xD800u32.to_le_bytes())).unwrap_err(),
        ErrorKind::Narrowing
    );
    assert_eq!(
        atom_text(&atom(AtomKind::Char, &0x110000u32.to_le_bytes())).unwrap_err(),
        ErrorKind::Narrowing
    );
    assert_eq!(atom_text(&atom(AtomKind::U32, &[1, 2])).unwrap_err(), ErrorKind::Narrowing);
    let mut b = Builder::new();
    let u8_ = b.base("u8", DW_ATE_unsigned, 1);
    let pointer = b.pointer("&u8", u8_);
    let (slice, _) = slice_of_u16(&mut b);
    let image = b.build();
    assert_eq!(other(reflected(&image, pointer, &[0; 8]).to_string().unwrap_err()), no_text);
    assert_eq!(other(reflected(&image, slice, &[0; 16]).to_string().unwrap_err()), no_text);
}

#[test]
fn pointer_has_the_size_of_an_address_of_its_unit() {
    let mut b = Builder::with_address_size(4);
    let u8_ = b.base("u8", DW_ATE_unsigned, 1);
    let pointer = b.pointer("&u8", u8_);
    let image = b.build();
    assert_eq!(image.unit.address_size(), 4);
    let value = reflected(&image, pointer, &[0x78, 0x56, 0x34, 0x12, 0xff, 0xff, 0xff, 0xff]);
    assert_eq!(value.schema().size(), Ok(4));
    assert_eq!(value.as_ref().unwrap().as_ptr(), Ok(0x12345678));
    assert!(Value::new(
        Type::from_die(&image.dwarf, &image.unit, image.at(pointer)).unwrap(),
        &[0, 0, 0]
    )
    .unwrap()
    .is_none());
}

#[test]
fn exclusive_slice_is_a_sequence_too() {
    let mut b = Builder::new();
    let root = b.root();
    let u8_ = b.base("u8", DW_ATE_unsigned, 1);
    let usize_ = b.base("usize", DW_ATE_unsigned, 8);
    let pointer = b.pointer("*mut u8", u8_);
    let s = b.structure(root, "&mut [u8]", 16, 8);
    b.member(s, "length", 8, usize_);
    b.member(s, "data_ptr", 0, pointer);
    let plain = b.structure(root, "&str", 16, 8);
    b.member(plain, "data_ptr", 0, pointer);
    b.member(plain, "length", 8, usize_);
    let image = b.build();
    let bytes = fat(0x2000, 2);
    let value = reflected(&image, s, &bytes);
    let sequence = value.as_slice().unwrap();
    assert_eq!(sequence.data_ptr(), Ok(0x2000));
    assert_eq!(sequence.len(), Ok(2));
    let elements = sequence.iter(&[7, 9]).unwrap();
    assert_eq!(elements[0].to_string().unwrap(), "7");
    assert_eq!(elements[1].to_string().unwrap(), "9");
    assert!(reflected(&image, plain, &bytes).as_struct().is_ok());
}

#[test]
fn discriminant_of_a_big_endian_image_is_read_high_byte_first() {
    let mut b = Builder::new();
    let u = tagged_union(&mut b, false, AttributeValue::Udata(0));
    let image = b.build_with(false);
    let value = reflected(&image, u.e, &[0, 0, 0, 1, 0x12, 0x34, 0x56, 0x78]);
    let sum = value.as_enum().unwrap();
    assert_eq!(sum.discriminant(), Ok(1));
    let variant = sum.variant().unwrap();
    assert_eq!(variant.schema().entry(), image.at(u.b));
    assert_eq!(variant.fields().unwrap()[0].value().unwrap().as_atom().unwrap().as_u32(), Ok(0x12345678));
    assert_eq!(value.to_string().unwrap(), "B { __0: 305419896 }");
}

#[test]
fn slice_length_must_be_an_unsigned_number() {
    let mut b = Builder::new();
    let root = b.root();
    let u8_ = b.base("u8", DW_ATE_unsigned, 1);
    let isize_ = b.base("isize", DW_ATE_signed, 8);
    let pointer = b.pointer("*const u8", u8_);
    let signed_length = b.structure(root, "&[u8]", 16, 8);
    b.member(signed_length, "data_ptr", 0, pointer);
    b.member(signed_length, "length", 8, isize_);
    let no_pointer = b.structure(root, "&[u8]", 16, 8);
    b.member(no_pointer, "data_ptr", 0, pointer);
    b.member(no_pointer, "length", 8, pointer);
    let image = b.build();
    let bytes = fat(0x1000, 1);
    let value = reflected(&image, signed_length, &bytes);
    assert_eq!(value.as_slice().unwrap().len(), Err(ErrorKind::Narrowing));
    assert_eq!(value.as_slice().unwrap().iter(&[1]).unwrap_err(), ErrorKind::Narrowing);
    let value = reflected(&image, no_pointer, &bytes);
    assert_eq!(value.as_slice().unwrap().len(), Err(ErrorKind::Narrowing));
    assert_eq!(value.as_slice().unwrap().data_ptr(), Ok(0x1000));
}

#[test]
fn unit_with_a_line_program_is_loaded() {
    let mut program = LineProgram::new(
        encoding(8),
        gimli::LineEncoding::default(),
        gimli::write::LineString::String(b"/src".to_vec()),
        gimli::write::LineString::String(b"main.rs".to_vec()),
        None,
    );
    program.begin_sequence(Some(gimli::write::Address::Constant(0x1000)));
    program.row().line = 1;
    program.generate_row();
    program.end_sequence(4);
    let mut b = Builder::with_line_program(8, program);
    let root = b.root();
    b.set(root, DW_AT_name, AttributeValue::String(b"main.rs".to_vec()));
    b.set(root, gimli::DW_AT_comp_dir.0, AttributeValue::String(b"/src".to_vec()));
    b.set(root, gimli::DW_AT_low_pc.0, AttributeValue::Address(gimli::write::Address::Constant(0x1000)));
    let u8_ = b.base("u8", DW_ATE_unsigned, 1);
    let s = b.structure(root, "TupleStruct", 1, 1);
    b.member(s, "__0", 0, u8_);
    let function = generic_over(&mut b, "symbol_addr<TupleStruct>", s);

    let mut sections = Sections::new(EndianVec::new(gimli::RunTimeEndian::Little));
    let line_strings = b.dwarf.line_strings.write(&mut sections.debug_line_str).unwrap();
    let strings = b.dwarf.strings.write(&mut sections.debug_str).unwrap();
    let offsets = b.dwarf.units.write(&mut sections, &line_strings, &strings).unwrap();
    assert!(!sections.debug_line.slice().is_empty());
    let (info, abbrev) = (sections.debug_info.slice(), sections.debug_abbrev.slice());
    let base = offsets.unit(b.id).0;

    let dwarf = load(info, abbrev, sections.debug_line.slice(), sections.debug_str.slice(), &[]);
    let unit = dwarf.unit(base).unwrap();
    let function = offsets.entry(b.id, function).0 - base;
    let value = reflect(&dwarf, &unit, function, &[42]).unwrap().unwrap();
    assert_eq!(value.to_string().unwrap(), "TupleStruct { __0: 42 }");

    let without_lines = load(info, abbrev, &[], sections.debug_str.slice(), &[]);
    assert!(matches!(without_lines.unit(base), Err(ErrorKind::Gimli(_))));
}

#[test]
fn search_for_a_child_reads_no_further_than_the_child() {
    let mut b = Builder::new();
    let root = b.root();
    let u8_ = b.base("u8", DW_ATE_unsigned, 1);
    let s = b.structure(root, "S", 1, 1);
    let first = b.member(s, "a", 0, u8_);
    let part = b.add(s, DW_TAG_variant_part);
    let last = b.named(s, DW_TAG_member, "spoiled");
    b.spoil(last);
    let image = b.build();
    let unit = &image.unit;
    assert_eq!(find_child(unit, image.at(s), DW_TAG_member), Ok(Some(image.at(first))));
    assert_eq!(find_child(unit, image.at(s), DW_TAG_variant_part), Ok(Some(image.at(part))));
    assert!(matches!(find_child(unit, image.at(s), DW_TAG_enumerator), Err(ErrorKind::Gimli(_))));
    assert!(matches!(children(unit, image.at(s)), Err(ErrorKind::Gimli(_))));
    assert_eq!(first_child(unit, image.at(s)), Ok(Some(image.at(first))));
    assert_eq!(first_child(unit, image.at(first)), Ok(None));
    assert!(matches!(first_child(unit, image.at(last)), Err(ErrorKind::Gimli(_))));
}

#[test]
fn search_for_a_child_passes_over_the_children_of_children() {
    let mut b = Builder::new();
    let root = b.root();
    let u8_ = b.base("u8", DW_ATE_unsigned, 1);
    let s = b.structure(root, "S", 1, 1);
    let nested = b.structure(s, "Nested", 1, 1);
    b.member(nested, "deep", 0, u8_);
    let deeper = b.structure(nested, "Deeper", 1, 1);
    b.add(deeper, DW_TAG_variant_part);
    let member = b.member(s, "a", 0, u8_);
    let part = b.add(s, DW_TAG_variant_part);
    let image = b.build();
    let unit = &image.unit;
    assert_eq!(find_child(unit, image.at(s), DW_TAG_structure_type), Ok(Some(image.at(nested))));
    assert_eq!(find_child(unit, image.at(s), DW_TAG_member), Ok(Some(image.at(member))));
    assert_eq!(find_child(unit, image.at(s), DW_TAG_variant_part), Ok(Some(image.at(part))));
    assert_eq!(find_child(unit, image.at(s), DW_TAG_enumerator), Ok(None));
    assert_eq!(find_child(unit, image.at(member), DW_TAG_member), Ok(None));
}

#[test]
fn expression_is_not_evaluated_for_addresses_wider_than_eight_bytes() {
    let mut b = Builder::with_address_size(9);
    let u8_ = b.base("u8", DW_ATE_unsigned, 1);
    let pointer = b.pointer("&u8", u8_);
    let image = b.build();
    assert_eq!(image.unit.address_size(), 9);
    assert_eq!(
        other(eval_addr(&image.unit, &Location::Expression(vec![]), 0).unwrap_err()),
        "Unsupported address size"
    );
    assert_eq!(
        other(eval_addr(&image.unit, &Location::Expression(vec![0x23, 0x04]), 0).unwrap_err()),
        "Unsupported address size"
    );
    assert_eq!(eval_addr(&image.unit, &Location::Offset(4), 1), Ok(Some(5)));
    let value = reflected(&image, pointer, &[0; 9]);
    assert_eq!(value.as_ref().unwrap().as_ptr(), Err(ErrorKind::ValueMismatch));
    let narrow = Builder::with_address_size(8).build();
    assert_eq!(eval_addr(&narrow.unit, &Location::Expression(vec![0x23, 0x04]), 0), Ok(Some(4)));
}

/// A unit of version 5 with a root and one structure whose name has the
/// form of an index into the table of string offsets.
fn indexed(root_index: Option<&[u8]>, name_index: &[u8]) -> (Vec<u8>, Vec<u8>) {
    let mut abbrev = vec![0x01, 0x11, 0x01];
    if root_index.is_some() {
        abbrev.extend_from_slice(&[0x03, 0x1a]);
    }
    abbrev.extend_from_slice(&[0x00, 0x00, 0x02, 0x13, 0x00, 0x03, 0x1a, 0x00, 0x00, 0x00]);
    let mut entries = vec![0x01];
    entries.extend_from_slice(root_index.unwrap_or(&[]));
    entries.push(0x02);
    entries.extend_from_slice(name_index);
    entries.push(0x00);
    let mut info = ((8 + entries.len()) as u32).to_le_bytes().to_vec();
    info.extend_from_slice(&[0x05, 0x00, 0x01, 0x08, 0x00, 0x00, 0x00, 0x00]);
    info.extend_from_slice(&entries);
    (info, abbrev)
}

const HUGE: [u8; 9] = [0x80, 0x80, 0x80, 0x80, 0x80, 0x80, 0x80, 0x80, 0x40];

#[test]
fn name_is_resolved_through_the_table_of_string_offsets() {
    let (info, abbrev) = indexed(None, &[0x01]);
    let mut offsets = 0u32.to_le_bytes().to_vec();
    offsets.extend_from_slice(&4u32.to_le_bytes());
    let dwarf = load(&info, &abbrev, &[], b"one\0two\0", &offsets);
    let unit = dwarf.unit(0).unwrap();
    assert_eq!(get(&unit, 13, DW_AT_name), Ok(AttrValue::StrOffsetsIndex(1)));
    assert_eq!(get_name(&dwarf, &unit, 13), Ok("two".to_string()));
    let short = load(&info, &abbrev, &[], b"one\0two\0", &offsets[..4]);
    assert!(matches!(get_name(&short, &short.unit(0).unwrap(), 13), Err(ErrorKind::Gimli(_))));
}

#[test]
fn index_beyond_any_table_is_refused() {
    let (info, abbrev) = indexed(None, &HUGE);
    let dwarf = load(&info, &abbrev, &[], &[], &[0; 16]);
    let unit = dwarf.unit(0).unwrap();
    assert_eq!(get(&unit, 13, DW_AT_name), Ok(AttrValue::StrOffsetsIndex(1 << 62)));
    assert_eq!(get_name(&dwarf, &unit, 13), Err(ErrorKind::ValueMismatch));
    assert_eq!(get_string(&dwarf, &unit, 13, DW_AT_name), Err(ErrorKind::ValueMismatch));
    assert_eq!(get_string(&dwarf, &unit, 13, DW_AT_type), Ok(None));
    assert_eq!(Type::from_die(&dwarf, &unit, 13).unwrap_err(), ErrorKind::ValueMismatch);
}

#[test]
fn unit_whose_root_has_an_index_beyond_any_table_is_refused() {
    let (info, abbrev) = indexed(Some(&HUGE), &[0x00]);
    let dwarf = load(&info, &abbrev, &[], &[], &[0; 16]);
    assert_eq!(dwarf.unit(0).unwrap_err(), ErrorKind::ValueMismatch);
    let (info, abbrev) = indexed(Some(&[0x00]), &[0x00]);
    let dwarf = load(&info, &abbrev, &[], b"root\0", &[0; 16]);
    assert!(dwarf.unit(0).is_ok());
}

#[test]
fn indices_are_bounded_below_the_limit() {
    assert!(indices_bounded(&vec![]));
    assert!(indices_bounded(&vec![(3, None), (17, Some(0)), (27, Some(INDEX_LIMIT as usize - 1))]));
    assert!(!indices_bounded(&vec![(3, None), (17, Some(INDEX_LIMIT as usize))]));
    assert!(!indices_bounded(&vec![(17, Some(usize::MAX)), (3, Some(0))]));
}
