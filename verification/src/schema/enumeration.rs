//! Sum types and their variants.
//!
//! The debugging information encodes a sum type in one of two ways. An
//! enumeration lists named constants, and the bytes of the value are the
//! discriminant. A tagged union is a structure with a variant part: the
//! part names the member that holds the discriminant and lists the
//! variants, each with the value that selects it and the type of its
//! payload. Both encodings give the same schema.

use crate::constants::{
    DW_AT_const_value, DW_AT_discr_value, DW_TAG_enumeration_type, DW_TAG_enumerator, DW_TAG_member,
    DW_TAG_structure_type, DW_TAG_variant, DW_TAG_variant_part,
};
use crate::dwarf::{Dwarf, Unit};
use crate::entry::{
    agrees, check_tag, children, find_child, first_child, get, get_align, get_name, get_size,
    get_type, spec_check_tag, spec_children, spec_find_child, spec_first_child, spec_get,
    spec_get_align, spec_get_name, spec_get_size, spec_get_type, spec_tag, spec_to_usize, tag,
    to_usize,
};
use crate::error::{ErrorKind, Failure};
use crate::schema::collect::{collect, collect_all, lemma_collect_fails};
use crate::schema::discriminant::{
    discriminant_value, spec_discriminant_value, Discriminant, DiscriminantSpec, DiscriminantValue,
};
use crate::schema::structure::{field_views, fields_of, spec_fields, Field, FieldSpec};
use vstd::prelude::*;

verus! {

/// A [`Variant`] as a mathematical value.
pub struct VariantSpec {
    pub dwarf: Dwarf,
    pub unit: Unit,
    pub entry: usize,
    pub discriminant: DiscriminantSpec,
    pub discriminant_value: Option<DiscriminantValue>,
}

/// One variant of a sum type: the entry that describes it, and the value
/// of the discriminant that selects it. A variant without such a value is
/// the default: it is the one that every other value selects.
#[derive(Debug)]
pub struct Variant<'dwarf> {
    dwarf: &'dwarf Dwarf,
    unit: &'dwarf Unit,
    entry: usize,
    discriminant: Discriminant,
    discriminant_value: Option<DiscriminantValue>,
}

impl<'dwarf> View for Variant<'dwarf> {
    type V = VariantSpec;

    closed spec fn view(&self) -> VariantSpec {
        VariantSpec {
            dwarf: *self.dwarf,
            unit: *self.unit,
            entry: self.entry,
            discriminant: self.discriminant@,
            discriminant_value: self.discriminant_value,
        }
    }
}

impl<'dwarf> Clone for Variant<'dwarf> {
    fn clone(&self) -> (copy: Variant<'dwarf>)
        ensures
            copy@ == self@,
    {
        Variant {
            dwarf: self.dwarf,
            unit: self.unit,
            entry: self.entry,
            discriminant: self.discriminant.clone(),
            discriminant_value: self.discriminant_value,
        }
    }
}

/// The views of the variants.
pub open spec fn variant_views<'dwarf>(variants: Seq<Variant<'dwarf>>) -> Seq<VariantSpec> {
    variants.map_values(|variant: Variant<'dwarf>| variant@)
}

impl<'dwarf> Variant<'dwarf> {
    /// The variant that the given entry describes.
    pub fn new(
        dwarf: &'dwarf Dwarf,
        unit: &'dwarf Unit,
        entry: usize,
        discriminant: Discriminant,
        discriminant_value: Option<DiscriminantValue>,
    ) -> (variant: Variant<'dwarf>)
        ensures
            variant@ == (VariantSpec {
                dwarf: *dwarf,
                unit: *unit,
                entry,
                discriminant: discriminant@,
                discriminant_value,
            }),
    {
        Variant { dwarf, unit, entry, discriminant, discriminant_value }
    }

    /// The offset of the entry that describes the variant: an enumerator,
    /// or the type of the payload.
    pub fn entry(&self) -> (entry: usize)
        ensures
            entry == self@.entry,
    {
        self.entry
    }

    /// The discriminant of the sum type.
    pub fn discriminant(&self) -> (discriminant: &Discriminant)
        ensures
            discriminant@ == self@.discriminant,
    {
        &self.discriminant
    }

    /// The value of the discriminant that selects the variant; `None` for
    /// the default variant.
    pub fn discriminant_value(&self) -> (value: Option<DiscriminantValue>)
        ensures
            value == self@.discriminant_value,
    {
        self.discriminant_value
    }

    /// The name of the variant.
    pub fn name(&self) -> (r: Result<String, ErrorKind>)
        ensures
            match r {
                Ok(name) => spec_get_name(self@.dwarf, self@.unit, self@.entry) == Ok::<
                    Seq<char>,
                    Failure,
                >(name@),
                Err(e) => spec_get_name(self@.dwarf, self@.unit, self@.entry) == Err::<
                    Seq<char>,
                    Failure,
                >(e@),
            },
    {
        get_name(self.dwarf, self.unit, self.entry)
    }

    /// The fields of the payload, in the order of their declaration. An
    /// enumerator has none.
    pub fn fields(&self) -> (r: Result<Vec<Field<'dwarf>>, ErrorKind>)
        ensures
            match r {
                Ok(fields) => spec_fields(self@.dwarf, self@.unit, self@.entry) == Ok::<
                    Seq<FieldSpec>,
                    Failure,
                >(field_views(fields@)),
                Err(e) => spec_fields(self@.dwarf, self@.unit, self@.entry) == Err::<
                    Seq<FieldSpec>,
                    Failure,
                >(e@),
            },
    {
        fields_of(self.dwarf, self.unit, self.entry)
    }
}

/// What a child of an enumeration yields: a variant without payload that
/// the constant of the enumerator selects. Every child must be an
/// enumerator with a constant.
pub open spec fn spec_enumerator(
    dwarf: Dwarf,
    unit: Unit,
    discriminant: DiscriminantSpec,
    child: usize,
) -> Result<Option<VariantSpec>, Failure> {
    match spec_check_tag(unit, child, DW_TAG_enumerator) {
        Err(e) => Err(e),
        Ok(()) => match spec_get(unit, child, DW_AT_const_value) {
            Err(e) => Err(e),
            Ok(value) => match DiscriminantValue::spec_from_attr(value) {
                Err(e) => Err(e),
                Ok(value) => Ok(
                    Some(
                        VariantSpec {
                            dwarf,
                            unit,
                            entry: child,
                            discriminant,
                            discriminant_value: Some(value),
                        },
                    ),
                ),
            },
        },
    }
}

/// What a child of a variant part yields: nothing unless it is a variant,
/// and else the variant whose payload is the type of its first child. A
/// variant without a discriminant value is the default.
pub open spec fn spec_variant(
    dwarf: Dwarf,
    unit: Unit,
    discriminant: DiscriminantSpec,
    child: usize,
) -> Result<Option<VariantSpec>, Failure> {
    match spec_tag(unit, child) {
        Err(e) => Err(e),
        Ok(found) => if found != DW_TAG_variant {
            Ok(None)
        } else {
            match spec_discriminant_value(unit, child, DW_AT_discr_value) {
                Err(e) => Err(e),
                Ok(discriminant_value) => match spec_first_child(unit, child) {
                    Err(e) => Err(e),
                    Ok(None) => Err(Failure::MissingChild { tag: DW_TAG_member }),
                    Ok(Some(member)) => {
                        match spec_get_type(unit, member) {
                            Err(e) => Err(e),
                            Ok(entry) => Ok(
                                Some(
                                    VariantSpec {
                                        dwarf,
                                        unit,
                                        entry,
                                        discriminant,
                                        discriminant_value,
                                    },
                                ),
                            ),
                        }
                    },
                },
            }
        },
    }
}

/// What a child yields, under either encoding.
pub open spec fn variant_of(
    dwarf: Dwarf,
    unit: Unit,
    discriminant: DiscriminantSpec,
    enumeration: bool,
) -> spec_fn(usize) -> Result<Option<VariantSpec>, Failure> {
    |child: usize|
        if enumeration {
            spec_enumerator(dwarf, unit, discriminant, child)
        } else {
            spec_variant(dwarf, unit, discriminant, child)
        }
}

/// Reads what a child of an enumeration yields.
fn enumerator<'dwarf>(
    dwarf: &'dwarf Dwarf,
    unit: &'dwarf Unit,
    discriminant: &Discriminant,
    child: usize,
) -> (r: Result<Option<Variant<'dwarf>>, ErrorKind>)
    ensures
        match r {
            Ok(Some(v)) => spec_enumerator(*dwarf, *unit, discriminant@, child) == Ok::<
                Option<VariantSpec>,
                Failure,
            >(Some(v@)),
            Ok(None) => spec_enumerator(*dwarf, *unit, discriminant@, child) == Ok::<
                Option<VariantSpec>,
                Failure,
            >(None),
            Err(e) => spec_enumerator(*dwarf, *unit, discriminant@, child) == Err::<
                Option<VariantSpec>,
                Failure,
            >(e@),
        },
{
    match check_tag(unit, child, DW_TAG_enumerator) {
        Err(e) => {
            return Err(e);
        },
        Ok(()) => {},
    }
    let value = match get(unit, child, DW_AT_const_value) {
        Err(e) => {
            return Err(e);
        },
        Ok(value) => value,
    };
    match DiscriminantValue::from_attr(value) {
        Err(e) => Err(e),
        Ok(value) => Ok(Some(Variant::new(dwarf, unit, child, discriminant.clone(), Some(value)))),
    }
}

/// Reads what a child of a variant part yields.
fn variant<'dwarf>(
    dwarf: &'dwarf Dwarf,
    unit: &'dwarf Unit,
    discriminant: &Discriminant,
    child: usize,
) -> (r: Result<Option<Variant<'dwarf>>, ErrorKind>)
    ensures
        match r {
            Ok(Some(v)) => spec_variant(*dwarf, *unit, discriminant@, child) == Ok::<
                Option<VariantSpec>,
                Failure,
            >(Some(v@)),
            Ok(None) => spec_variant(*dwarf, *unit, discriminant@, child) == Ok::<
                Option<VariantSpec>,
                Failure,
            >(None),
            Err(e) => spec_variant(*dwarf, *unit, discriminant@, child) == Err::<
                Option<VariantSpec>,
                Failure,
            >(e@),
        },
{
    match tag(unit, child) {
        Err(e) => {
            return Err(e);
        },
        Ok(found) => {
            if found != DW_TAG_variant {
                return Ok(None);
            }
        },
    }
    let value = match discriminant_value(unit, child, DW_AT_discr_value) {
        Err(e) => {
            return Err(e);
        },
        Ok(value) => value,
    };
    let member = match first_child(unit, child) {
        Err(e) => {
            return Err(e);
        },
        Ok(None) => {
            return Err(ErrorKind::MissingChild { tag: DW_TAG_member });
        },
        Ok(Some(member)) => member,
    };
    match get_type(unit, member) {
        Err(e) => Err(e),
        Ok(entry) => Ok(Some(Variant::new(dwarf, unit, entry, discriminant.clone(), value))),
    }
}

/// Reads the variants that the given children yield, in their order. The
/// first child that cannot be read ends the reading.
fn read_variants<'dwarf>(
    dwarf: &'dwarf Dwarf,
    unit: &'dwarf Unit,
    discriminant: &Discriminant,
    children: &Vec<usize>,
    enumeration: bool,
) -> (r: Result<Vec<Variant<'dwarf>>, ErrorKind>)
    ensures
        match r {
            Ok(variants) => collect_all(
                children@,
                variant_of(*dwarf, *unit, discriminant@, enumeration),
            ) == Ok::<Seq<VariantSpec>, Failure>(variant_views(variants@)),
            Err(e) => collect_all(
                children@,
                variant_of(*dwarf, *unit, discriminant@, enumeration),
            ) == Err::<Seq<VariantSpec>, Failure>(e@),
        },
{
    let ghost f = variant_of(*dwarf, *unit, discriminant@, enumeration);
    let mut variants: Vec<Variant<'dwarf>> = Vec::new();
    let mut i: usize = 0;
    assert(variant_views(variants@) == Seq::<VariantSpec>::empty());
    while i < children.len()
        invariant
            i <= children.len(),
            f == variant_of(*dwarf, *unit, discriminant@, enumeration),
            collect(children@, f, i as int) == Ok::<Seq<VariantSpec>, Failure>(
                variant_views(variants@),
            ),
        decreases children.len() - i,
    {
        let item = if enumeration {
            enumerator(dwarf, unit, discriminant, children[i])
        } else {
            variant(dwarf, unit, discriminant, children[i])
        };
        match item {
            Err(e) => {
                proof {
                    lemma_collect_fails(children@, f, i + 1, children@.len() as int);
                }
                return Err(e);
            },
            Ok(None) => {},
            Ok(Some(v)) => {
                assert(variant_views(variants@.push(v)) == variant_views(variants@).push(v@));
                variants.push(v);
            },
        }
        i += 1;
    }
    Ok(variants)
}

/// An [`Enum`] as a mathematical value.
pub struct EnumSpec {
    pub dwarf: Dwarf,
    pub unit: Unit,
    pub entry: usize,
    pub name: Seq<char>,
    pub discriminant: DiscriminantSpec,
}

/// A sum type; e.g., a Rust-style enum.
#[derive(Debug)]
pub struct Enum<'dwarf> {
    dwarf: &'dwarf Dwarf,
    unit: &'dwarf Unit,
    entry: usize,
    name: String,
    discriminant: Discriminant,
}

impl<'dwarf> View for Enum<'dwarf> {
    type V = EnumSpec;

    closed spec fn view(&self) -> EnumSpec {
        EnumSpec {
            dwarf: *self.dwarf,
            unit: *self.unit,
            entry: self.entry,
            name: self.name@,
            discriminant: self.discriminant@,
        }
    }
}

impl<'dwarf> Clone for Enum<'dwarf> {
    fn clone(&self) -> (copy: Enum<'dwarf>)
        ensures
            copy@ == self@,
    {
        Enum {
            dwarf: self.dwarf,
            unit: self.unit,
            entry: self.entry,
            name: self.name.clone(),
            discriminant: self.discriminant.clone(),
        }
    }
}

impl<'dwarf> Enum<'dwarf> {
    /// The sum type that an enumeration entry describes.
    pub open spec fn spec_from_dw_tag_enumeration_type(
        dwarf: Dwarf,
        unit: Unit,
        entry: usize,
    ) -> Result<EnumSpec, Failure> {
        match spec_check_tag(unit, entry, DW_TAG_enumeration_type) {
            Err(e) => Err(e),
            Ok(()) => match spec_get_name(dwarf, unit, entry) {
                Err(e) => Err(e),
                Ok(name) => match Discriminant::spec_from_dw_tag_enumeration_type(unit, entry) {
                    Err(e) => Err(e),
                    Ok(discriminant) => Ok(EnumSpec { dwarf, unit, entry, name, discriminant }),
                },
            },
        }
    }

    /// The sum type that a structure entry with a variant part describes.
    /// A structure without a variant part is no sum type: it lacks that
    /// child.
    pub open spec fn spec_from_dw_tag_structure_type(
        dwarf: Dwarf,
        unit: Unit,
        entry: usize,
    ) -> Result<EnumSpec, Failure> {
        match spec_check_tag(unit, entry, DW_TAG_structure_type) {
            Err(e) => Err(e),
            Ok(()) => match spec_get_name(dwarf, unit, entry) {
                Err(e) => Err(e),
                Ok(name) => match spec_find_child(unit, entry, DW_TAG_variant_part) {
                    Err(e) => Err(e),
                    Ok(None) => Err(Failure::MissingChild { tag: DW_TAG_variant_part }),
                    Ok(Some(part)) => match Discriminant::spec_from_dw_tag_variant_part(
                        unit,
                        part,
                    ) {
                        Err(e) => Err(e),
                        Ok(discriminant) => Ok(EnumSpec { dwarf, unit, entry, name, discriminant }),
                    },
                },
            },
        }
    }

    /// The variants of a sum type, in the order of their declaration.
    pub open spec fn spec_variants(this: EnumSpec) -> Result<Seq<VariantSpec>, Failure> {
        match spec_tag(this.unit, this.entry) {
            Err(e) => Err(e),
            Ok(found) => if found == DW_TAG_enumeration_type {
                match spec_children(this.unit, this.entry) {
                    Err(e) => Err(e),
                    Ok(children) => collect_all(
                        children,
                        variant_of(this.dwarf, this.unit, this.discriminant, true),
                    ),
                }
            } else if found == DW_TAG_structure_type {
                match spec_find_child(this.unit, this.entry, DW_TAG_variant_part) {
                    Err(e) => Err(e),
                    Ok(None) => Err(Failure::MissingChild { tag: DW_TAG_variant_part }),
                    Ok(Some(part)) => match spec_children(this.unit, part) {
                        Err(e) => Err(e),
                        Ok(children) => collect_all(
                            children,
                            variant_of(this.dwarf, this.unit, this.discriminant, false),
                        ),
                    },
                }
            } else {
                Err(Failure::TagMismatch { expected: DW_TAG_structure_type, actual: found })
            },
        }
    }

    /// The size of a sum type, in bytes.
    pub open spec fn spec_size(this: EnumSpec) -> Result<usize, Failure> {
        match spec_get_size(this.unit, this.entry) {
            Err(e) => Err(e),
            Ok(size) => spec_to_usize(size),
        }
    }

    /// The alignment of a sum type, in bytes.
    pub open spec fn spec_align(this: EnumSpec) -> Result<usize, Failure> {
        match spec_get_align(this.unit, this.entry) {
            Err(e) => Err(e),
            Ok(align) => spec_to_usize(align),
        }
    }

    /// Reads a sum type from an enumeration entry: an enumeration with a
    /// name, an underlying integer type and an alignment.
    pub fn from_dw_tag_enumeration_type(
        dwarf: &'dwarf Dwarf,
        unit: &'dwarf Unit,
        entry: usize,
    ) -> (r: Result<Enum<'dwarf>, ErrorKind>)
        ensures
            match r {
                Ok(s) => Self::spec_from_dw_tag_enumeration_type(*dwarf, *unit, entry) == Ok::<
                    EnumSpec,
                    Failure,
                >(s@),
                Err(e) => Self::spec_from_dw_tag_enumeration_type(*dwarf, *unit, entry) == Err::<
                    EnumSpec,
                    Failure,
                >(e@),
            },
    {
        match check_tag(unit, entry, DW_TAG_enumeration_type) {
            Err(e) => {
                return Err(e);
            },
            Ok(()) => {},
        }
        let name = match get_name(dwarf, unit, entry) {
            Err(e) => {
                return Err(e);
            },
            Ok(name) => name,
        };
        match Discriminant::from_dw_tag_enumeration_type(unit, entry) {
            Err(e) => Err(e),
            Ok(discriminant) => Ok(Enum { dwarf, unit, entry, name, discriminant }),
        }
    }

    /// Reads a sum type from a structure entry.
    ///
    /// The entry must be a structure with a name. Its immediate children,
    /// and no deeper entries, are searched for a variant part, from which
    /// the discriminant is read. A structure without a variant part is a
    /// plain structure or tuple, and is refused for the missing child.
    pub fn from_dw_tag_structure_type(
        dwarf: &'dwarf Dwarf,
        unit: &'dwarf Unit,
        entry: usize,
    ) -> (r: Result<Enum<'dwarf>, ErrorKind>)
        ensures
            match r {
                Ok(s) => Self::spec_from_dw_tag_structure_type(*dwarf, *unit, entry) == Ok::<
                    EnumSpec,
                    Failure,
                >(s@),
                Err(e) => Self::spec_from_dw_tag_structure_type(*dwarf, *unit, entry) == Err::<
                    EnumSpec,
                    Failure,
                >(e@),
            },
    {
        match check_tag(unit, entry, DW_TAG_structure_type) {
            Err(e) => {
                return Err(e);
            },
            Ok(()) => {},
        }
        let name = match get_name(dwarf, unit, entry) {
            Err(e) => {
                return Err(e);
            },
            Ok(name) => name,
        };
        let part = match find_child(unit, entry, DW_TAG_variant_part) {
            Err(e) => {
                return Err(e);
            },
            Ok(None) => {
                return Err(ErrorKind::MissingChild { tag: DW_TAG_variant_part });
            },
            Ok(Some(part)) => part,
        };
        match Discriminant::from_dw_tag_variant_part(unit, part) {
            Err(e) => Err(e),
            Ok(discriminant) => Ok(Enum { dwarf, unit, entry, name, discriminant }),
        }
    }

    /// The DWARF sections that this debuginfo entry belongs to.
    pub fn dwarf(&self) -> (dwarf: &'dwarf Dwarf)
        ensures
            *dwarf == self@.dwarf,
    {
        self.dwarf
    }

    /// The DWARF unit that this debuginfo entry belongs to.
    pub fn unit(&self) -> (unit: &'dwarf Unit)
        ensures
            *unit == self@.unit,
    {
        self.unit
    }

    /// The offset of the entry in its unit.
    pub fn entry(&self) -> (entry: usize)
        ensures
            entry == self@.entry,
    {
        self.entry
    }

    /// The name of the type.
    pub fn name(&self) -> (name: &String)
        ensures
            name@ == self@.name,
    {
        &self.name
    }

    /// The variants of the type, in the order of their declaration.
    ///
    /// For an enumeration, every child is an enumerator, and its constant
    /// is taken as it is written. For a tagged union, the children of the
    /// variant part that are variants are read; each gives its
    /// discriminant value, if it has one, and the type of its payload.
    pub fn variants(&self) -> (r: Result<Vec<Variant<'dwarf>>, ErrorKind>)
        ensures
            match r {
                Ok(variants) => Self::spec_variants(self@) == Ok::<Seq<VariantSpec>, Failure>(
                    variant_views(variants@),
                ),
                Err(e) => Self::spec_variants(self@) == Err::<Seq<VariantSpec>, Failure>(e@),
            },
    {
        let found = match tag(self.unit, self.entry) {
            Err(e) => {
                return Err(e);
            },
            Ok(found) => found,
        };
        if found == DW_TAG_enumeration_type {
            match children(self.unit, self.entry) {
                Err(e) => Err(e),
                Ok(children) => read_variants(
                    self.dwarf,
                    self.unit,
                    &self.discriminant,
                    &children,
                    true,
                ),
            }
        } else if found == DW_TAG_structure_type {
            let part = match find_child(self.unit, self.entry, DW_TAG_variant_part) {
                Err(e) => {
                    return Err(e);
                },
                Ok(None) => {
                    return Err(ErrorKind::MissingChild { tag: DW_TAG_variant_part });
                },
                Ok(Some(part)) => part,
            };
            match children(self.unit, part) {
                Err(e) => Err(e),
                Ok(children) => read_variants(
                    self.dwarf,
                    self.unit,
                    &self.discriminant,
                    &children,
                    false,
                ),
            }
        } else {
            Err(ErrorKind::TagMismatch { expected: DW_TAG_structure_type, actual: found })
        }
    }

    /// The size of the type, in bytes.
    pub fn size(&self) -> (r: Result<usize, ErrorKind>)
        ensures
            agrees(r, Self::spec_size(self@)),
    {
        match get_size(self.unit, self.entry) {
            Err(e) => Err(e),
            Ok(size) => to_usize(size),
        }
    }

    /// The alignment of the type, in bytes.
    pub fn align(&self) -> (r: Result<usize, ErrorKind>)
        ensures
            agrees(r, Self::spec_align(self@)),
    {
        match get_align(self.unit, self.entry) {
            Err(e) => Err(e),
            Ok(align) => to_usize(align),
        }
    }

    /// The discriminant of the type.
    pub fn discriminant(&self) -> (discriminant: &Discriminant)
        ensures
            discriminant@ == self@.discriminant,
    {
        &self.discriminant
    }
}

} // verus!
