//! Values of sum types, and the resolution of their active variant.

use crate::dwarf::unit_little_endian;
use crate::entry::{agrees, eval_addr, spec_eval_addr};
use crate::error::{ErrorKind, Failure};
use crate::schema::enumeration::{
    variant_views, Enum as Schema, EnumSpec, Variant as VariantSchema, VariantSpec,
};
use crate::schema::structure::{spec_fields, FieldSpec};
use crate::value::{part, spec_part, Laid};
use crate::value::bytes::{lemma_limit_grows, lemma_limits, spec_unsigned, unsigned};
use crate::value::structure::{laid_fields, lay, spec_lay, Field};
use vstd::prelude::*;

verus! {

/// Whether the variant at `i` is selected by the discriminant `d`: it is
/// declared with that value.
pub open spec fn selects(variants: Seq<VariantSpec>, d: u64, i: int) -> bool {
    0 <= i < variants.len() && (variants[i].discriminant_value matches Some(v) && v.spec_value()
        == d)
}

/// Whether the variant at `i` is a default: it is declared without a
/// value.
pub open spec fn is_default(variants: Seq<VariantSpec>, i: int) -> bool {
    0 <= i < variants.len() && variants[i].discriminant_value is None
}

/// Whether `i` is the variant that is active when the discriminant is
/// `d`: the only variant declared with that value, or, where no variant
/// is declared with it, the first default.
pub open spec fn is_active(variants: Seq<VariantSpec>, d: u64, i: int) -> bool {
    ||| selects(variants, d, i) && forall|j: int| selects(variants, d, j) ==> j == i
    ||| is_default(variants, i) && (forall|j: int| !selects(variants, d, j)) && forall|j: int|
        is_default(variants, j) ==> i <= j
}

/// Whether no variant is active when the discriminant is `d`: two
/// variants are declared with that value, or none is and there is no
/// default.
pub open spec fn none_active(variants: Seq<VariantSpec>, d: u64) -> bool {
    ||| exists|i: int, j: int| i != j && selects(variants, d, i) && selects(variants, d, j)
    ||| forall|j: int|
        #![trigger selects(variants, d, j)]
        #![trigger is_default(variants, j)]
        !selects(variants, d, j) && !is_default(variants, j)
}

/// Finds the variant that is active when the discriminant is
/// `discriminant`.
///
/// The variants are scanned in the order of their declaration for one
/// declared with exactly that value. If there is none, the first default
/// variant is the active one. A value that selects no variant, while
/// there is no default, shows that the memory and the debugging
/// information disagree, and so does a value that selects two: neither is
/// mapped to a variant.
pub fn select_variant<'dwarf>(variants: &Vec<VariantSchema<'dwarf>>, discriminant: u64) -> (r:
    Result<usize, ErrorKind>)
    ensures
        match r {
            Ok(i) => is_active(variant_views(variants@), discriminant, i as int),
            Err(e) => e@ == (Failure::NoVariant { discriminant }) && none_active(
                variant_views(variants@),
                discriminant,
            ),
        },
{
    let ghost views = variant_views(variants@);
    let mut found: Option<usize> = None;
    let mut fallback: Option<usize> = None;
    let mut i: usize = 0;
    while i < variants.len()
        invariant
            i <= variants.len(),
            views == variant_views(variants@),
            match found {
                Some(k) => k < i && selects(views, discriminant, k as int) && forall|j: int|
                    0 <= j < i && selects(views, discriminant, j) ==> j == k,
                None => forall|j: int| 0 <= j < i ==> !selects(views, discriminant, j),
            },
            match fallback {
                Some(k) => k < i && is_default(views, k as int) && forall|j: int|
                    0 <= j < i && is_default(views, j) ==> k <= j,
                None => forall|j: int| 0 <= j < i ==> !is_default(views, j),
            },
        decreases variants.len() - i,
    {
        assert(views[i as int] == variants@[i as int]@);
        match variants[i].discriminant_value() {
            Some(value) => {
                if value.value() == discriminant {
                    match found {
                        Some(k) => {
                            assert(k as int != i as int && selects(views, discriminant, k as int)
                                && selects(views, discriminant, i as int));
                            return Err(ErrorKind::NoVariant { discriminant });
                        },
                        None => {
                            found = Some(i);
                        },
                    }
                }
            },
            None => {
                if fallback.is_none() {
                    fallback = Some(i);
                }
            },
        }
        i += 1;
    }
    match found {
        Some(k) => Ok(k),
        None => match fallback {
            Some(k) => Ok(k),
            None => Err(ErrorKind::NoVariant { discriminant }),
        },
    }
}

/// At most one variant is active for a discriminant.
pub proof fn lemma_active_unique(variants: Seq<VariantSpec>, d: u64, i: int, j: int)
    requires
        is_active(variants, d, i),
        is_active(variants, d, j),
    ensures
        i == j,
{
}

/// A variant is active or none is, never both.
pub proof fn lemma_active_or_none(variants: Seq<VariantSpec>, d: u64, i: int)
    requires
        is_active(variants, d, i),
    ensures
        !none_active(variants, d),
{
    if none_active(variants, d) {
        if exists|a: int, b: int| a != b && selects(variants, d, a) && selects(variants, d, b) {
            let (a, b) = choose|a: int, b: int|
                a != b && selects(variants, d, a) && selects(variants, d, b);
            assert(selects(variants, d, a) && selects(variants, d, b));
        } else {
            assert(!selects(variants, d, i) && !is_default(variants, i));
        }
    }
}

/// A variant of a value: the schema of the variant, over the bytes of
/// the value of the sum type.
#[derive(Debug)]
pub struct Variant<'value, 'dwarf> {
    schema: VariantSchema<'dwarf>,
    bytes: &'value [u8],
}

impl<'value, 'dwarf> View for Variant<'value, 'dwarf> {
    type V = Laid<VariantSpec>;

    closed spec fn view(&self) -> Laid<VariantSpec> {
        Laid { schema: self.schema@, bytes: self.bytes@ }
    }
}

impl<'value, 'dwarf> Variant<'value, 'dwarf> {
    /// The fields of the payload of a variant.
    pub open spec fn spec_fields(this: Laid<VariantSpec>) -> Result<Seq<Laid<FieldSpec>>, Failure> {
        match spec_fields(this.schema.dwarf, this.schema.unit, this.schema.entry) {
            Err(e) => Err(e),
            Ok(fields) => Ok(spec_lay(fields, this.bytes)),
        }
    }

    /// The variant of the given schema, of a value that has the given
    /// bytes.
    pub fn new(schema: VariantSchema<'dwarf>, bytes: &'value [u8]) -> (variant: Variant<
        'value,
        'dwarf,
    >)
        ensures
            variant@ == (Laid { schema: schema@, bytes: bytes@ }),
    {
        Variant { schema, bytes }
    }

    /// The schema of the variant.
    pub fn schema(&self) -> (schema: &VariantSchema<'dwarf>)
        ensures
            schema@ == self@.schema,
    {
        &self.schema
    }

    /// The fields of the payload, in the order of their declaration.
    pub fn fields(&self) -> (r: Result<Vec<Field<'value, 'dwarf>>, ErrorKind>)
        ensures
            match r {
                Ok(fields) => Self::spec_fields(self@) == Ok::<Seq<Laid<FieldSpec>>, Failure>(
                    laid_fields(fields@),
                ),
                Err(e) => Self::spec_fields(self@) == Err::<Seq<Laid<FieldSpec>>, Failure>(e@),
            },
    {
        match self.schema.fields() {
            Err(e) => Err(e),
            Ok(schemas) => Ok(lay(&schemas, self.bytes)),
        }
    }
}

/// A value of a sum type.
#[derive(Debug)]
pub struct Enum<'value, 'dwarf> {
    schema: Schema<'dwarf>,
    bytes: &'value [u8],
}

impl<'value, 'dwarf> View for Enum<'value, 'dwarf> {
    type V = Laid<EnumSpec>;

    closed spec fn view(&self) -> Laid<EnumSpec> {
        Laid { schema: self.schema@, bytes: self.bytes@ }
    }
}

impl<'value, 'dwarf> Enum<'value, 'dwarf> {
    /// The discriminant that a value of a sum type holds.
    ///
    /// The place of the discriminant is evaluated for a value that starts
    /// at the address 0, so that what comes out is its offset. The bytes
    /// at that offset, as many as the type of the discriminant takes,
    /// are read as an unsigned number.
    pub open spec fn spec_discriminant(this: Laid<EnumSpec>) -> Result<u64, Failure> {
        match spec_eval_addr(this.schema.unit, this.schema.discriminant.location, 0) {
            Err(e) => Err(e),
            Ok(None) => Err(Failure::ValueMismatch),
            Ok(Some(offset)) => match spec_part(
                this.bytes,
                offset,
                this.schema.discriminant.ty.spec_size() as u64,
            ) {
                Err(e) => Err(e),
                Ok(span) => Ok(spec_unsigned(span, unit_little_endian(this.schema.unit)) as u64),
            },
        }
    }

    /// The active variant of a value of a sum type.
    pub open spec fn spec_variant(this: Laid<EnumSpec>) -> Result<Laid<VariantSpec>, Failure> {
        match Self::spec_discriminant(this) {
            Err(e) => Err(e),
            Ok(d) => match Schema::spec_variants(this.schema) {
                Err(e) => Err(e),
                Ok(variants) => if exists|i: int| is_active(variants, d, i) {
                    Ok(
                        Laid {
                            schema: variants[choose|i: int| is_active(variants, d, i)],
                            bytes: this.bytes,
                        },
                    )
                } else {
                    Err(Failure::NoVariant { discriminant: d })
                },
            },
        }
    }

    /// The value of the given type over the given bytes.
    pub fn new(schema: Schema<'dwarf>, bytes: &'value [u8]) -> (value: Enum<'value, 'dwarf>)
        ensures
            value@ == (Laid { schema: schema@, bytes: bytes@ }),
    {
        Enum { schema, bytes }
    }

    /// The schema of the value.
    pub fn schema(&self) -> (schema: &Schema<'dwarf>)
        ensures
            schema@ == self@.schema,
    {
        &self.schema
    }

    /// Reads the discriminant of the value.
    pub fn discriminant(&self) -> (r: Result<u64, ErrorKind>)
        ensures
            agrees(r, Self::spec_discriminant(self@)),
    {
        let discriminant = self.schema.discriminant();
        let offset = match eval_addr(self.schema.unit(), discriminant.location(), 0) {
            Err(e) => {
                return Err(e);
            },
            Ok(None) => {
                return Err(ErrorKind::ValueMismatch);
            },
            Ok(Some(offset)) => offset,
        };
        let width = discriminant.ty().size();
        match part(self.bytes, offset, width as u64) {
            Err(e) => Err(e),
            Ok(span) => {
                proof {
                    lemma_limits();
                    lemma_limit_grows(span@.len(), 8);
                }
                Ok(unsigned(span, self.schema.unit().little_endian()) as u64)
            },
        }
    }

    /// Resolves the active variant of the value.
    ///
    /// The discriminant is read from the bytes of the value, and the
    /// variants are searched as [`select_variant`] says. The variant that
    /// is found is laid over the bytes of the whole value.
    pub fn variant(&self) -> (r: Result<Variant<'value, 'dwarf>, ErrorKind>)
        ensures
            match r {
                Ok(variant) => Self::spec_variant(self@) == Ok::<Laid<VariantSpec>, Failure>(
                    variant@,
                ),
                Err(e) => Self::spec_variant(self@) == Err::<Laid<VariantSpec>, Failure>(e@),
            },
    {
        let d = match self.discriminant() {
            Err(e) => {
                return Err(e);
            },
            Ok(d) => d,
        };
        let variants = match self.schema.variants() {
            Err(e) => {
                return Err(e);
            },
            Ok(variants) => variants,
        };
        let ghost views = variant_views(variants@);
        match select_variant(&variants, d) {
            Err(e) => {
                proof {
                    assert forall|i: int| !is_active(views, d, i) by {
                        if is_active(views, d, i) {
                            lemma_active_or_none(views, d, i);
                        }
                    }
                }
                Err(e)
            },
            Ok(i) => {
                proof {
                    let chosen = choose|k: int| is_active(views, d, k);
                    lemma_active_unique(views, d, i as int, chosen);
                    assert(views[i as int] == variants@[i as int]@);
                }
                Ok(Variant::new(variants[i].clone(), self.bytes))
            },
        }
    }
}

} // verus!
