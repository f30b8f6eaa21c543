//! What holds of schemas and values in general.

use crate::dwarf::{Dwarf, Unit};
use crate::entry::spec_get_size;
use crate::error::Failure;
use crate::schema::{Type, TypeSpec};
use crate::schema::atom::AtomSpec;
use crate::schema::enumeration::{Enum as EnumSchema, EnumSpec, VariantSpec};
use crate::schema::reference::RefSpec;
use crate::schema::slice::SliceSpec;
use crate::schema::structure::{spec_fields, FieldSpec, StructSpec};
use crate::value::{fits, Laid, Value};
use crate::value::enumeration::{is_active, is_default, lemma_active_unique, selects, Enum};
use crate::value::reference::Ref;
use crate::value::slice::{spec_elements, Slice};
use crate::value::structure::{spec_field_value, spec_lay, Struct};
use crate::value::bytes::{
    lemma_bytes_len, lemma_limit_grows, lemma_limits, lemma_stored_number_is_read_back, limit,
    spec_be_bytes, spec_le_bytes,
};
use crate::value::text::{
    lemma_scalar, lemma_scalar_is_the_character, scalar, spec_char_of, spec_decimal,
    spec_fields_text, spec_record_text, spec_signed_decimal, spec_text,
};
use vstd::prelude::*;

verus! {

/// Whether `r` is what reading the schema of an entry may return: the
/// schema that the entry describes, or the failure to read it.
pub open spec fn read_from<'dwarf>(
    dwarf: Dwarf,
    unit: Unit,
    entry: usize,
    r: Result<Type<'dwarf>, crate::error::ErrorKind>,
) -> bool {
    match r {
        Ok(ty) => Type::spec_from_die(dwarf, unit, entry) == Ok::<TypeSpec, Failure>(ty@),
        Err(e) => Type::spec_from_die(dwarf, unit, entry) == Err::<TypeSpec, Failure>(e@),
    }
}

/// Reading the schema of an entry twice gives the same schema twice, or
/// the same failure twice.
pub proof fn lemma_schema_is_idempotent<'dwarf>(
    dwarf: Dwarf,
    unit: Unit,
    entry: usize,
    first: Result<Type<'dwarf>, crate::error::ErrorKind>,
    second: Result<Type<'dwarf>, crate::error::ErrorKind>,
)
    requires
        read_from(dwarf, unit, entry, first),
        read_from(dwarf, unit, entry, second),
    ensures
        match (first, second) {
            (Ok(a), Ok(b)) => a@ == b@,
            (Err(a), Err(b)) => a@ == b@,
            _ => false,
        },
{
}

/// Laying one schema over the bytes of several values leaves it as it
/// is: each value has that very schema, and its own bytes.
pub proof fn lemma_schema_is_shared(ty: TypeSpec, first: Seq<u8>, second: Seq<u8>)
    ensures
        Value::spec_new(ty, first) matches Ok(Some(a)) ==> a.schema == ty && a.bytes == first,
        Value::spec_new(ty, second) matches Ok(Some(b)) ==> b.schema == ty && b.bytes == second,
{
}

/// Where the bytes of a value of a sum type hold the discriminant that
/// one variant is declared with, and no other variant is declared with
/// the same discriminant, that variant is the active one.
pub proof fn lemma_declared_variant_is_resolved(
    this: Laid<EnumSpec>,
    variants: Seq<VariantSpec>,
    i: int,
)
    requires
        EnumSchema::spec_variants(this.schema) == Ok::<Seq<VariantSpec>, Failure>(variants),
        0 <= i < variants.len(),
        variants[i].discriminant_value matches Some(v) && Enum::spec_discriminant(this) == Ok::<
            u64,
            Failure,
        >(v.spec_value()),
        forall|j: int|
            0 <= j < variants.len() && j != i ==> !selects(
                variants,
                variants[i].discriminant_value->0.spec_value(),
                j,
            ),
    ensures
        Enum::spec_variant(this) == Ok::<Laid<VariantSpec>, Failure>(
            Laid { schema: variants[i], bytes: this.bytes },
        ),
{
    let d = variants[i].discriminant_value->0.spec_value();
    assert(selects(variants, d, i));
    assert(is_active(variants, d, i));
    let chosen = choose|k: int| is_active(variants, d, k);
    lemma_active_unique(variants, d, i, chosen);
}

/// A discriminant that no variant is declared with, of a sum type
/// without a default variant, resolves to no variant: it is reported as
/// such.
pub proof fn lemma_undeclared_discriminant_is_reported(
    this: Laid<EnumSpec>,
    variants: Seq<VariantSpec>,
    d: u64,
)
    requires
        EnumSchema::spec_variants(this.schema) == Ok::<Seq<VariantSpec>, Failure>(variants),
        Enum::spec_discriminant(this) == Ok::<u64, Failure>(d),
        forall|j: int| !selects(variants, d, j),
        forall|j: int| !is_default(variants, j),
    ensures
        Enum::spec_variant(this) == Err::<Laid<VariantSpec>, Failure>(
            Failure::NoVariant { discriminant: d },
        ),
{
    assert forall|i: int| !is_active(variants, d, i) by {
        assert(!selects(variants, d, i));
        assert(!is_default(variants, i));
    }
}

/// A sequence of length 0 has no elements, whatever its pointer holds
/// and whatever bytes are given for its elements.
pub proof fn lemma_empty_slice_has_no_elements(this: Laid<SliceSpec>, target: Seq<u8>)
    requires
        Slice::spec_len(this) == Ok::<usize, Failure>(0),
    ensures
        Slice::spec_iter(this, target) matches Ok(elements) ==> elements.len() == 0,
        Slice::spec_elt_size(this) is Ok ==> Slice::spec_iter(this, target) == Ok::<
            Seq<Laid<TypeSpec>>,
            Failure,
        >(Seq::empty()),
        Slice::spec_elt_size(this) is Ok ==> Slice::spec_byte_len(this) == Ok::<usize, Failure>(0),
{
    if Slice::spec_elt_size(this) is Ok {
        let size = Slice::spec_elt_size(this)->Ok_0;
        assert(size * 0 == 0);
        let elt = Type::spec_from_die(this.schema.dwarf, this.schema.unit, this.schema.elt)->Ok_0;
        assert(spec_elements(elt, size, 0, target) =~= Seq::<Laid<TypeSpec>>::empty());
    }
}

/// A field that lies within the size that its parent declares can be
/// projected out of any bytes that are enough for the parent: where the
/// types can be read, the projection does not fail.
pub proof fn lemma_field_within_parent_is_projected(
    parent: StructSpec,
    field: FieldSpec,
    bytes: Seq<u8>,
    size: u64,
    ty: TypeSpec,
    field_size: u64,
)
    requires
        spec_get_size(parent.unit, parent.entry) == Ok::<u64, Failure>(size),
        fits(TypeSpec::Struct(parent), bytes.len()),
        Type::spec_from_die(field.dwarf, field.unit, field.ty) == Ok::<TypeSpec, Failure>(ty),
        Type::spec_size(ty) == Ok::<u64, Failure>(field_size),
        field.offset + field_size <= size,
    ensures
        spec_field_value(field, bytes) == Ok::<Laid<TypeSpec>, Failure>(
            Laid {
                schema: ty,
                bytes: bytes.subrange(field.offset as int, field.offset + field_size),
            },
        ),
{
}

/// What a projection yields has the bytes that its type declares: the
/// value of a field and the value behind a pointer can be taken apart in
/// their turn.
pub proof fn lemma_projection_fits(
    field: FieldSpec,
    bytes: Seq<u8>,
    pointer: Laid<RefSpec>,
    target: Seq<u8>,
)
    ensures
        spec_field_value(field, bytes) matches Ok(value) ==> fits(value.schema, value.bytes.len()),
        Ref::spec_deref(pointer, target) matches Ok(value) ==> fits(
            value.schema,
            value.bytes.len(),
        ),
{
}

/// Each element of a sequence has the bytes that its type declares.
pub proof fn lemma_element_fits(this: Laid<SliceSpec>, target: Seq<u8>, i: int)
    requires
        Slice::spec_iter(this, target) is Ok,
        0 <= i < Slice::spec_iter(this, target)->Ok_0.len(),
    ensures
        fits(
            Slice::spec_iter(this, target)->Ok_0[i].schema,
            Slice::spec_iter(this, target)->Ok_0[i].bytes.len(),
        ),
{
    let size = Slice::spec_elt_size(this)->Ok_0;
    let len = Slice::spec_len(this)->Ok_0;
    assert(0 <= i * size && i * size + size <= size * len) by (nonlinear_arith)
        requires
            0 <= i < len,
            0 <= size,
    ;
}

/// A value of a product type without fields has no field projections,
/// and its text is the name of its type.
pub proof fn lemma_record_without_fields(s: StructSpec, bytes: Seq<u8>, depth: nat)
    requires
        spec_fields(s.dwarf, s.unit, s.entry) == Ok::<Seq<FieldSpec>, Failure>(Seq::empty()),
    ensures
        Struct::spec_fields(Laid { schema: s, bytes }) == Ok::<Seq<Laid<FieldSpec>>, Failure>(
            Seq::empty(),
        ),
        spec_text(Laid { schema: TypeSpec::Struct(s), bytes }, depth) == Ok::<Seq<char>, Failure>(
            s.name,
        ),
{
    assert(spec_lay(Seq::<FieldSpec>::empty(), bytes) =~= Seq::<Laid<FieldSpec>>::empty());
}

/// The text of a value of a product type with one field is the name of
/// the type, followed in braces by the name of the field, a colon, and
/// the text of what the field projects to.
pub proof fn lemma_record_with_one_field(
    s: StructSpec,
    field: FieldSpec,
    bytes: Seq<u8>,
    depth: nat,
    value: Laid<TypeSpec>,
    text: Seq<char>,
)
    requires
        spec_fields(s.dwarf, s.unit, s.entry) == Ok::<Seq<FieldSpec>, Failure>(seq![field]),
        spec_field_value(field, bytes) == Ok::<Laid<TypeSpec>, Failure>(value),
        spec_text(value, depth) == Ok::<Seq<char>, Failure>(text),
    ensures
        Struct::spec_fields(Laid { schema: s, bytes }) == Ok::<Seq<Laid<FieldSpec>>, Failure>(
            seq![Laid { schema: field, bytes }],
        ),
        spec_text(Laid { schema: TypeSpec::Struct(s), bytes }, depth + 1) == Ok::<
            Seq<char>,
            Failure,
        >(s.name + " { "@ + field.name + ": "@ + text + " }"@),
{
    let fields = seq![field];
    assert(spec_lay(fields, bytes) =~= seq![Laid { schema: field, bytes }]);
    assert(spec_fields_text(fields, bytes, depth, 0) == Ok::<Seq<char>, Failure>(Seq::empty()));
    let body = Seq::<char>::empty() + Seq::<char>::empty() + field.name + ": "@ + text;
    assert(spec_fields_text(fields, bytes, depth, 1) == Ok::<Seq<char>, Failure>(body));
    assert(body =~= field.name + ": "@ + text);
    assert(s.name + " { "@ + body + " }"@ =~= s.name + " { "@ + field.name + ": "@ + text
        + " }"@);
    assert(spec_record_text(Ok(s.name), Ok(fields), bytes, depth + 1) == Ok::<
        Seq<char>,
        Failure,
    >(s.name + " { "@ + body + " }"@));
}

/// Reflecting bytes that are enough for the type argument of a function
/// yields that type laid over those very bytes; the texts that follow
/// are therefore those of reflected values.
pub proof fn lemma_reflect_lays_the_type_over_the_bytes(
    dwarf: Dwarf,
    unit: Unit,
    function: usize,
    ty: TypeSpec,
    bytes: Seq<u8>,
)
    requires
        crate::spec_reflect_type(dwarf, unit, function) == Ok::<TypeSpec, Failure>(ty),
        Type::spec_size(ty) matches Ok(size) && size <= bytes.len(),
    ensures
        crate::spec_reflect(dwarf, unit, function, bytes) == Ok::<
            Option<Laid<TypeSpec>>,
            Failure,
        >(Some(Laid { schema: ty, bytes })),
{
}

/// The bytes that store a number in `len` bytes, in the given byte order.
pub open spec fn spec_stored(n: nat, len: nat, little_endian: bool) -> Seq<u8> {
    if little_endian {
        spec_le_bytes(n, len)
    } else {
        spec_be_bytes(n, len)
    }
}

/// A value of a primitive type over the bytes that store a number.
pub open spec fn spec_atom_storing(schema: AtomSpec, n: nat) -> Laid<TypeSpec> {
    Laid {
        schema: TypeSpec::Atom(schema),
        bytes: spec_stored(n, schema.kind.spec_size() as nat, schema.little_endian),
    }
}

/// The text of the empty tuple is `()`, whatever bytes it is laid over.
pub proof fn lemma_text_of_unit(schema: AtomSpec, bytes: Seq<u8>, depth: nat)
    requires
        schema.kind is Unit,
    ensures
        spec_text(Laid { schema: TypeSpec::Atom(schema), bytes }, depth) == Ok::<
            Seq<char>,
            Failure,
        >("()"@),
{
}

/// The text of a truth value is `true` or `false`, as `bool` writes it.
pub proof fn lemma_text_of_bool(schema: AtomSpec, b: bool, depth: nat)
    requires
        schema.kind is Bool,
    ensures
        spec_text(spec_atom_storing(schema, if b { 1 } else { 0 }), depth) == Ok::<
            Seq<char>,
            Failure,
        >(if b { "true"@ } else { "false"@ }),
{
    let n: nat = if b { 1 } else { 0 };
    let bytes = spec_stored(n, 1, schema.little_endian);
    reveal_with_fuel(spec_le_bytes, 2);
    reveal_with_fuel(spec_be_bytes, 2);
    assert(bytes.len() == 1 && bytes[0] == n);
    assert(bytes.subrange(0, 1) =~= bytes);
}

/// The text of a character is the character.
pub proof fn lemma_text_of_char(schema: AtomSpec, c: char, depth: nat)
    requires
        schema.kind is Char,
    ensures
        spec_text(spec_atom_storing(schema, scalar(c)), depth) == Ok::<Seq<char>, Failure>(
            seq![c],
        ),
{
    let bytes = spec_stored(scalar(c), 4, schema.little_endian);
    lemma_scalar(c);
    lemma_limits();
    lemma_bytes_len(scalar(c), 4);
    lemma_stored_number_is_read_back(scalar(c), 4);
    assert(bytes.subrange(0, 4) =~= bytes);
    assert(spec_char_of(scalar(c)) is Some);
    lemma_scalar_is_the_character(c, spec_char_of(scalar(c))->0);
}

/// The text of an unsigned number is its decimal form: what is laid over
/// the bytes that store `n` is written as `n`.
pub proof fn lemma_text_of_unsigned(schema: AtomSpec, n: nat, depth: nat)
    requires
        schema.kind is U8 || schema.kind is U16 || schema.kind is U32 || schema.kind is U64
            || schema.kind is U128,
        n < limit(schema.kind.spec_size() as nat),
    ensures
        spec_text(spec_atom_storing(schema, n), depth) == Ok::<Seq<char>, Failure>(
            spec_decimal(n),
        ),
{
    let size = schema.kind.spec_size() as nat;
    let bytes = spec_stored(n, size, schema.little_endian);
    lemma_bytes_len(n, size);
    lemma_stored_number_is_read_back(n, size);
    assert(bytes.subrange(0, size as int) =~= bytes);
}

/// The number that stores the signed number `n` in `len` bytes, in two's
/// complement.
pub open spec fn spec_twos_complement(n: int, len: nat) -> nat {
    if n < 0 {
        (n + limit(len)) as nat
    } else {
        n as nat
    }
}

/// The text of a signed number is its decimal form, with a minus sign
/// where it is negative: what is laid over the bytes that store `n` in
/// two's complement is written as `n`.
pub proof fn lemma_text_of_signed(schema: AtomSpec, n: int, depth: nat)
    requires
        schema.kind is I8 || schema.kind is I16 || schema.kind is I32 || schema.kind is I64
            || schema.kind is I128,
        -limit(schema.kind.spec_size() as nat) <= 2 * n < limit(schema.kind.spec_size() as nat),
    ensures
        spec_text(
            spec_atom_storing(schema, spec_twos_complement(n, schema.kind.spec_size() as nat)),
            depth,
        ) == Ok::<Seq<char>, Failure>(spec_signed_decimal(n)),
{
    let size = schema.kind.spec_size() as nat;
    let stored = spec_twos_complement(n, size);
    let bytes = spec_stored(stored, size, schema.little_endian);
    lemma_limit_grows(0, size);
    lemma_bytes_len(stored, size);
    lemma_stored_number_is_read_back(stored, size);
    assert(bytes.subrange(0, size as int) =~= bytes);
}

} // verus!
