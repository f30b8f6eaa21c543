//! The DWARF codes that this library reads.

use vstd::prelude::*;

verus! {

pub const DW_TAG_enumeration_type: u16 = 0x04;

pub const DW_TAG_member: u16 = 0x0d;

pub const DW_TAG_pointer_type: u16 = 0x0f;

pub const DW_TAG_structure_type: u16 = 0x13;

pub const DW_TAG_variant: u16 = 0x19;

pub const DW_TAG_base_type: u16 = 0x24;

pub const DW_TAG_enumerator: u16 = 0x28;

pub const DW_TAG_template_type_parameter: u16 = 0x2f;

pub const DW_TAG_variant_part: u16 = 0x33;

pub const DW_AT_name: u16 = 0x03;

pub const DW_AT_byte_size: u16 = 0x0b;

pub const DW_AT_discr: u16 = 0x15;

pub const DW_AT_discr_value: u16 = 0x16;

pub const DW_AT_const_value: u16 = 0x1c;

pub const DW_AT_data_member_location: u16 = 0x38;

pub const DW_AT_encoding: u16 = 0x3e;

pub const DW_AT_type: u16 = 0x49;

pub const DW_AT_alignment: u16 = 0x88;

pub const DW_ATE_boolean: u8 = 0x02;

pub const DW_ATE_float: u8 = 0x04;

pub const DW_ATE_signed: u8 = 0x05;

pub const DW_ATE_unsigned: u8 = 0x07;

pub const DW_ATE_unsigned_char: u8 = 0x08;

pub const DW_ATE_UTF: u8 = 0x10;

} // verus!
