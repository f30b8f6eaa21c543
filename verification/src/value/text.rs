//! The textual form of values.
//!
//! A number is written in decimal, a truth value as `true` or `false`,
//! a character as itself, the empty tuple as `()`. A value of a product
//! type is written as the name of its type, followed, if it has fields,
//! by ` { name: value, .. }`. A value of a sum type is written as its
//! active variant is. What lies behind a pointer is not part of the
//! bytes of a value, and a floating point number has no text here.

use crate::entry::spec_get_name;
use crate::error::{ErrorKind, Failure};
use crate::schema::{Type, TypeSpec};
use crate::schema::atom::{AtomKind, AtomSpec};
use crate::schema::structure::{field_views, spec_fields, Field as FieldSchema, FieldSpec};
use crate::value::{Laid, Value};
use crate::value::atom::Atom;
use crate::value::enumeration::Enum;
use crate::value::structure::{field_value, spec_field_value};
use vstd::prelude::*;

verus! {

/// How deep fields may be nested in the text of a value.
pub const TEXT_DEPTH: usize = 64;

/// What is said of a value that is nested deeper than text goes.
pub open spec fn too_deep() -> Seq<char> {
    "Value is nested too deeply"@
}

/// What is said of a value whose text needs more than its bytes.
pub open spec fn no_text() -> Seq<char> {
    "Value has no text of its own"@
}

/// Appends a character with `String::push`.
#[verifier::external_body]
fn push_char(s: &mut String, c: char)
    ensures
        final(s)@ == old(s)@.push(c),
{
    s.push(c)
}

/// Appends a string with `String::push_str`.
#[verifier::external_body]
fn push_str(s: &mut String, tail: &str)
    ensures
        final(s)@ == old(s)@ + tail@,
{
    s.push_str(tail)
}

/// Converts a number to the character of that scalar value with
/// `char::from_u32`, which returns `None` for a number that is no scalar
/// value: a surrogate, or a number beyond the last code point.
#[verifier::external_body]
fn char_from_u32(code: u32) -> (r: Option<char>)
    ensures
        match r {
            Some(c) => c as u32 == code,
            None => !(code < 0xD800 || 0xE000 <= code <= 0x10FFFF),
        },
{
    char::from_u32(code)
}

/// The scalar value of a character.
pub open spec fn scalar(c: char) -> nat {
    c as nat
}

/// The character that has the scalar value `code`, if there is one.
pub open spec fn spec_char_of(code: nat) -> Option<char> {
    if exists|c: char| #[trigger] scalar(c) == code {
        Some(choose|c: char| #[trigger] scalar(c) == code)
    } else {
        None
    }
}

/// The scalar value of a character is a code point that is no surrogate.
pub proof fn lemma_scalar(c: char)
    ensures
        scalar(c) < 0xD800 || 0xE000 <= scalar(c) <= 0x10FFFF,
        scalar(c) == (c as u32) as nat,
{
}

/// Two characters of one scalar value are one character.
pub proof fn lemma_scalar_is_the_character(a: char, b: char)
    requires
        scalar(a) == scalar(b),
    ensures
        a == b,
{
}

/// The character of a decimal digit.
pub open spec fn spec_digit(d: nat) -> char {
    if d == 0 {
        '0'
    } else if d == 1 {
        '1'
    } else if d == 2 {
        '2'
    } else if d == 3 {
        '3'
    } else if d == 4 {
        '4'
    } else if d == 5 {
        '5'
    } else if d == 6 {
        '6'
    } else if d == 7 {
        '7'
    } else if d == 8 {
        '8'
    } else {
        '9'
    }
}

/// The decimal digits of a number, the highest first.
pub open spec fn spec_decimal(n: nat) -> Seq<char>
    decreases n,
{
    if n < 10 {
        seq![spec_digit(n)]
    } else {
        spec_decimal(n / 10).push(spec_digit(n % 10))
    }
}

/// The decimal form of a signed number: a minus sign before the digits of
/// a negative one.
pub open spec fn spec_signed_decimal(n: int) -> Seq<char> {
    if n < 0 {
        seq!['-'] + spec_decimal((-n) as nat)
    } else {
        spec_decimal(n as nat)
    }
}

/// The number that a decimal digit stands for.
pub open spec fn spec_digit_value(c: char) -> nat {
    if c == '0' {
        0
    } else if c == '1' {
        1
    } else if c == '2' {
        2
    } else if c == '3' {
        3
    } else if c == '4' {
        4
    } else if c == '5' {
        5
    } else if c == '6' {
        6
    } else if c == '7' {
        7
    } else if c == '8' {
        8
    } else {
        9
    }
}

/// The number that decimal digits stand for, the highest first.
pub open spec fn spec_number(digits: Seq<char>) -> nat
    decreases digits.len(),
{
    if digits.len() == 0 {
        0
    } else {
        spec_number(digits.drop_last()) * 10 + spec_digit_value(digits.last())
    }
}

/// The decimal form of a number stands for that number, and begins with
/// a zero only where the number is zero.
pub proof fn lemma_decimal_stands_for_the_number(n: nat)
    ensures
        spec_number(spec_decimal(n)) == n,
        spec_decimal(n).len() >= 1,
        spec_decimal(n)[0] == '0' <==> n == 0,
    decreases n,
{
    if n < 10 {
        assert(spec_decimal(n).drop_last() =~= Seq::<char>::empty());
        reveal_with_fuel(spec_number, 2);
    } else {
        lemma_decimal_stands_for_the_number(n / 10);
        let digits = spec_decimal(n);
        assert(digits.drop_last() =~= spec_decimal(n / 10));
        assert(digits.last() == spec_digit(n % 10));
        assert(digits[0] == spec_decimal(n / 10)[0]);
    }
}

/// The character of a decimal digit.
fn digit(d: u128) -> (c: char)
    requires
        d < 10,
    ensures
        c == spec_digit(d as nat),
{
    if d == 0 {
        '0'
    } else if d == 1 {
        '1'
    } else if d == 2 {
        '2'
    } else if d == 3 {
        '3'
    } else if d == 4 {
        '4'
    } else if d == 5 {
        '5'
    } else if d == 6 {
        '6'
    } else if d == 7 {
        '7'
    } else if d == 8 {
        '8'
    } else {
        '9'
    }
}

/// Appends the decimal digits of a number.
fn write_decimal(out: &mut String, n: u128)
    ensures
        final(out)@ == old(out)@ + spec_decimal(n as nat),
    decreases n,
{
    if n >= 10 {
        write_decimal(out, n / 10);
    }
    push_char(out, digit(n % 10));
    assert(final(out)@ =~= old(out)@ + spec_decimal(n as nat));
}

/// The decimal form of an unsigned number.
pub fn decimal(n: u128) -> (s: String)
    ensures
        s@ == spec_decimal(n as nat),
{
    let mut s = String::new();
    write_decimal(&mut s, n);
    assert(s@ =~= spec_decimal(n as nat));
    s
}

/// The decimal form of a signed number.
pub fn signed_decimal(n: i128) -> (s: String)
    ensures
        s@ == spec_signed_decimal(n as int),
{
    let mut s = String::new();
    if n < 0 {
        push_char(&mut s, '-');
        let magnitude: u128 = ((-(n + 1)) as u128) + 1;
        write_decimal(&mut s, magnitude);
        assert(s@ =~= spec_signed_decimal(n as int));
    } else {
        write_decimal(&mut s, n as u128);
        assert(s@ =~= spec_signed_decimal(n as int));
    }
    s
}

/// The text of a value of a primitive type.
pub open spec fn spec_atom_text(this: Laid<AtomSpec>) -> Result<Seq<char>, Failure> {
    let kind = this.schema.kind;
    match kind {
        AtomKind::Bool => match Atom::spec_bool(this) {
            Err(e) => Err(e),
            Ok(true) => Ok("true"@),
            Ok(false) => Ok("false"@),
        },
        AtomKind::Unit => match Atom::spec_narrow(this, kind) {
            Err(e) => Err(e),
            Ok(_) => Ok("()"@),
        },
        AtomKind::Char => match Atom::spec_unsigned(this, kind) {
            Err(e) => Err(e),
            Ok(code) => match spec_char_of(code) {
                Some(c) => Ok(seq![c]),
                None => Err(Failure::Narrowing),
            },
        },
        AtomKind::F32 | AtomKind::F64 => Err(Failure::Other(no_text())),
        AtomKind::U8 | AtomKind::U16 | AtomKind::U32 | AtomKind::U64 | AtomKind::U128 => {
            match Atom::spec_unsigned(this, kind) {
                Err(e) => Err(e),
                Ok(n) => Ok(spec_decimal(n)),
            }
        },
        AtomKind::I8 | AtomKind::I16 | AtomKind::I32 | AtomKind::I64 | AtomKind::I128 => {
            match Atom::spec_signed(this, kind) {
                Err(e) => Err(e),
                Ok(n) => Ok(spec_signed_decimal(n)),
            }
        },
    }
}

/// The text of a value of a primitive type.
pub fn atom_text(atom: &Atom) -> (r: Result<String, ErrorKind>)
    ensures
        match r {
            Ok(s) => spec_atom_text(atom@) == Ok::<Seq<char>, Failure>(s@),
            Err(e) => spec_atom_text(atom@) == Err::<Seq<char>, Failure>(e@),
        },
{
    match atom.schema().kind() {
        AtomKind::Bool => match atom.as_bool() {
            Err(e) => Err(e),
            Ok(true) => Ok("true".to_owned()),
            Ok(false) => Ok("false".to_owned()),
        },
        AtomKind::Unit => match atom.as_unit() {
            Err(e) => Err(e),
            Ok(()) => Ok("()".to_owned()),
        },
        AtomKind::Char => match atom.as_char_code() {
            Err(e) => Err(e),
            Ok(code) => match char_from_u32(code) {
                None => {
                    assert forall|c: char| #[trigger] scalar(c) != code as nat by {
                        lemma_scalar(c);
                    }
                    Err(ErrorKind::Narrowing)
                },
                Some(c) => {
                    let mut s = String::new();
                    push_char(&mut s, c);
                    proof {
                        lemma_scalar(c);
                        assert(scalar(c) == code as nat);
                        lemma_scalar_is_the_character(c, spec_char_of(code as nat)->0);
                    }
                    assert(s@ =~= seq![c]);
                    Ok(s)
                },
            },
        },
        AtomKind::F32 | AtomKind::F64 => Err(
            ErrorKind::MakeAMoreSpecificVariant("Value has no text of its own"),
        ),
        AtomKind::U8 => match atom.as_u8() {
            Err(e) => Err(e),
            Ok(n) => Ok(decimal(n as u128)),
        },
        AtomKind::U16 => match atom.as_u16() {
            Err(e) => Err(e),
            Ok(n) => Ok(decimal(n as u128)),
        },
        AtomKind::U32 => match atom.as_u32() {
            Err(e) => Err(e),
            Ok(n) => Ok(decimal(n as u128)),
        },
        AtomKind::U64 => match atom.as_u64() {
            Err(e) => Err(e),
            Ok(n) => Ok(decimal(n as u128)),
        },
        AtomKind::U128 => match atom.as_u128() {
            Err(e) => Err(e),
            Ok(n) => Ok(decimal(n)),
        },
        AtomKind::I8 => match atom.as_i8() {
            Err(e) => Err(e),
            Ok(n) => Ok(signed_decimal(n as i128)),
        },
        AtomKind::I16 => match atom.as_i16() {
            Err(e) => Err(e),
            Ok(n) => Ok(signed_decimal(n as i128)),
        },
        AtomKind::I32 => match atom.as_i32() {
            Err(e) => Err(e),
            Ok(n) => Ok(signed_decimal(n as i128)),
        },
        AtomKind::I64 => match atom.as_i64() {
            Err(e) => Err(e),
            Ok(n) => Ok(signed_decimal(n as i128)),
        },
        AtomKind::I128 => match atom.as_i128() {
            Err(e) => Err(e),
            Ok(n) => Ok(signed_decimal(n)),
        },
    }
}

/// The text of a value, with fields nested at most `depth` deep.
pub open spec fn spec_text(value: Laid<TypeSpec>, depth: nat) -> Result<Seq<char>, Failure>
    decreases depth, 1nat, 0nat,
{
    match value.schema {
        TypeSpec::Atom(schema) => spec_atom_text(Laid { schema, bytes: value.bytes }),
        TypeSpec::Struct(s) => spec_record_text(
            Ok(s.name),
            spec_fields(s.dwarf, s.unit, s.entry),
            value.bytes,
            depth,
        ),
        TypeSpec::Enum(schema) => match Enum::spec_variant(Laid { schema, bytes: value.bytes }) {
            Err(e) => Err(e),
            Ok(variant) => spec_record_text(
                spec_get_name(variant.schema.dwarf, variant.schema.unit, variant.schema.entry),
                spec_fields(variant.schema.dwarf, variant.schema.unit, variant.schema.entry),
                value.bytes,
                depth,
            ),
        },
        TypeSpec::Slice(_) => Err(Failure::Other(no_text())),
        TypeSpec::Ref(_) => Err(Failure::Other(no_text())),
    }
}

/// The text of a record: its name, and its fields in braces if it has
/// any.
pub open spec fn spec_record_text(
    name: Result<Seq<char>, Failure>,
    fields: Result<Seq<FieldSpec>, Failure>,
    bytes: Seq<u8>,
    depth: nat,
) -> Result<Seq<char>, Failure>
    decreases depth, 0nat, 0nat,
{
    match name {
        Err(e) => Err(e),
        Ok(name) => match fields {
            Err(e) => Err(e),
            Ok(fields) => if fields.len() == 0 {
                Ok(name)
            } else if depth == 0 {
                Err(Failure::Other(too_deep()))
            } else {
                match spec_fields_text(fields, bytes, (depth - 1) as nat, fields.len()) {
                    Err(e) => Err(e),
                    Ok(body) => Ok(name + " { "@ + body + " }"@),
                }
            },
        },
    }
}

/// The text of the first `n` fields: each as `name: value`, with `, `
/// between two.
pub open spec fn spec_fields_text(
    fields: Seq<FieldSpec>,
    bytes: Seq<u8>,
    depth: nat,
    n: nat,
) -> Result<Seq<char>, Failure>
    decreases depth, 2nat, n,
{
    if n == 0 {
        Ok(Seq::empty())
    } else {
        match spec_fields_text(fields, bytes, depth, (n - 1) as nat) {
            Err(e) => Err(e),
            Ok(before) => match spec_field_value(fields[n - 1], bytes) {
                Err(e) => Err(e),
                Ok(value) => match spec_text(value, depth) {
                    Err(e) => Err(e),
                    Ok(text) => Ok(
                        before + (if n > 1 {
                            ", "@
                        } else {
                            Seq::empty()
                        }) + fields[n - 1].name + ": "@ + text,
                    ),
                },
            },
        }
    }
}

/// Once the text of the fields has failed, it fails in the same way for
/// more fields.
pub proof fn lemma_fields_text_fails(
    fields: Seq<FieldSpec>,
    bytes: Seq<u8>,
    depth: nat,
    k: nat,
    n: nat,
)
    requires
        k <= n,
        spec_fields_text(fields, bytes, depth, k) is Err,
    ensures
        spec_fields_text(fields, bytes, depth, n) == spec_fields_text(fields, bytes, depth, k),
    decreases n - k,
{
    if k < n {
        lemma_fields_text_fails(fields, bytes, depth, k, (n - 1) as nat);
    }
}

/// Writes a record: its name, and its fields in braces if it has any.
fn record_text<'value, 'dwarf>(
    name: &str,
    fields: &Vec<FieldSchema<'dwarf>>,
    bytes: &'value [u8],
    depth: usize,
) -> (r: Result<String, ErrorKind>)
    ensures
        match r {
            Ok(s) => spec_record_text(
                Ok(name@),
                Ok(field_views(fields@)),
                bytes@,
                depth as nat,
            ) == Ok::<Seq<char>, Failure>(s@),
            Err(e) => spec_record_text(
                Ok(name@),
                Ok(field_views(fields@)),
                bytes@,
                depth as nat,
            ) == Err::<Seq<char>, Failure>(e@),
        },
    decreases depth, 0nat, 0nat,
{
    let mut out = String::new();
    push_str(&mut out, name);
    assert(out@ =~= name@);
    if fields.len() == 0 {
        return Ok(out);
    }
    if depth == 0 {
        return Err(ErrorKind::MakeAMoreSpecificVariant("Value is nested too deeply"));
    }
    push_str(&mut out, " { ");
    let ghost views = field_views(fields@);
    let mut i: usize = 0;
    while i < fields.len()
        invariant
            i <= fields.len(),
            depth > 0,
            views == field_views(fields@),
            spec_fields_text(views, bytes@, (depth - 1) as nat, i as nat) matches Ok(body)
                && out@ == name@ + " { "@ + body,
        decreases fields.len() - i,
    {
        assert(views[i as int] == fields@[i as int]@);
        let value = match field_value(&fields[i], bytes) {
            Err(e) => {
                proof {
                    lemma_fields_text_fails(
                        views,
                        bytes@,
                        (depth - 1) as nat,
                        (i + 1) as nat,
                        views.len(),
                    );
                }
                return Err(e);
            },
            Ok(value) => value,
        };
        let inner = match text(&value, depth - 1) {
            Err(e) => {
                proof {
                    lemma_fields_text_fails(
                        views,
                        bytes@,
                        (depth - 1) as nat,
                        (i + 1) as nat,
                        views.len(),
                    );
                }
                return Err(e);
            },
            Ok(inner) => inner,
        };
        if i > 0 {
            push_str(&mut out, ", ");
        }
        push_str(&mut out, fields[i].name().as_str());
        push_str(&mut out, ": ");
        push_str(&mut out, inner.as_str());
        proof {
            let next = spec_fields_text(views, bytes@, (depth - 1) as nat, (i + 1) as nat)->Ok_0;
            assert(out@ =~= name@ + " { "@ + next);
        }
        i += 1;
    }
    push_str(&mut out, " }");
    Ok(out)
}

/// Writes the text of a value, with fields nested at most `depth` deep.
///
/// A value that needs deeper nesting, a pointer, a sequence and a
/// floating point number have no text.
pub fn text<'value, 'dwarf>(value: &Value<'value, 'dwarf>, depth: usize) -> (r: Result<
    String,
    ErrorKind,
>)
    ensures
        match r {
            Ok(s) => spec_text(value@, depth as nat) == Ok::<Seq<char>, Failure>(s@),
            Err(e) => spec_text(value@, depth as nat) == Err::<Seq<char>, Failure>(e@),
        },
    decreases depth, 1nat, 0nat,
{
    match value.schema() {
        Type::Atom(_) => match value.as_atom() {
            Err(e) => Err(e),
            Ok(atom) => atom_text(&atom),
        },
        Type::Struct(s) => match s.fields() {
            Err(e) => Err(e),
            Ok(fields) => record_text(s.name().as_str(), &fields, value.bytes(), depth),
        },
        Type::Enum(_) => {
            let variant = match value.as_enum() {
                Err(e) => {
                    return Err(e);
                },
                Ok(e) => match e.variant() {
                    Err(e) => {
                        return Err(e);
                    },
                    Ok(variant) => variant,
                },
            };
            let name = match variant.schema().name() {
                Err(e) => {
                    return Err(e);
                },
                Ok(name) => name,
            };
            match variant.schema().fields() {
                Err(e) => Err(e),
                Ok(fields) => record_text(name.as_str(), &fields, value.bytes(), depth),
            }
        },
        Type::Slice(_) => Err(ErrorKind::MakeAMoreSpecificVariant("Value has no text of its own")),
        Type::Ref(_) => Err(ErrorKind::MakeAMoreSpecificVariant("Value has no text of its own")),
    }
}

} // verus!
