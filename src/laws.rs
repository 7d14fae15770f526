//! Properties of descriptions that relate several types or several calls.
use vstd::prelude::*;

use crate::describe::Describe;
use crate::schema::Schema;
use crate::shape::{generic_name, joined, Shape, TypeNameView};

verus! {

/// A scalar type describes itself as the matching scalar schema, which carries
/// no payload: the only schema of that shape is the bare variant.
pub proof fn scalar_schemas(s: Schema)
    ensures
        s@ == <bool as Describe>::shape() ==> s == Schema::Bool,
        s@ == <char as Describe>::shape() ==> s == Schema::Char,
        s@ == <() as Describe>::shape() ==> s == Schema::Unit,
        s@ == <&str as Describe>::shape() ==> s == Schema::Str,
        s@ == <i8 as Describe>::shape() ==> s == Schema::I8,
        s@ == <i16 as Describe>::shape() ==> s == Schema::I16,
        s@ == <i32 as Describe>::shape() ==> s == Schema::I32,
        s@ == <i64 as Describe>::shape() ==> s == Schema::I64,
        s@ == <i128 as Describe>::shape() ==> s == Schema::I128,
        s@ == <isize as Describe>::shape() ==> s == Schema::ISize,
        s@ == <u8 as Describe>::shape() ==> s == Schema::U8,
        s@ == <u16 as Describe>::shape() ==> s == Schema::U16,
        s@ == <u32 as Describe>::shape() ==> s == Schema::U32,
        s@ == <u64 as Describe>::shape() ==> s == Schema::U64,
        s@ == <u128 as Describe>::shape() ==> s == Schema::U128,
        s@ == <usize as Describe>::shape() ==> s == Schema::USize,
{
}

/// An array of `u32` of any fixed length describes itself as an array of `U32`
/// of that length; two lengths give shapes that differ in the length alone.
pub proof fn array_shapes<const N: usize, const M: usize>()
    ensures
        <[u32; N] as Describe>::shape() == (Shape::Array { element: Box::new(Shape::U32), len: N as nat }),
        <[u32; M] as Describe>::shape()->Array_element == <[u32; N] as Describe>::shape()->Array_element,
        N != M ==> <[u32; M] as Describe>::shape() != <[u32; N] as Describe>::shape(),
{
}

/// A slice of `u32` describes itself as a slice of `U32`, which is no array of
/// any length although the element shape is the same.
pub proof fn slice_shape<const N: usize>()
    ensures
        <&[u32] as Describe>::shape() == Shape::Slice(Box::new(Shape::U32)),
        <&[u32] as Describe>::shape() != <[u32; N] as Describe>::shape(),
        <&[u32] as Describe>::shape()->Slice_0 == <[u32; N] as Describe>::shape()->Array_element,
{
}

/// A vector of `u32` describes itself as a named sequence of `U32` of no fixed
/// length, named after `Vec` applied to `u32`.
pub proof fn vec_shape()
    ensures
        <Vec<u32> as Describe>::shape() == (Shape::Sequence {
            name: <Vec<u32> as Describe>::ident(),
            element: Box::new(Shape::U32),
            len: None,
        }),
        <Vec<u32> as Describe>::ident() == generic_name("Vec"@, "alloc::vec"@, seq![TypeNameView { name: "u32"@, module: ""@ }]),
{
}

/// One generic type applied to different arguments has different identities:
/// `Vec<u32>` is not `Vec<i32>`.
pub proof fn generic_identities_differ()
    ensures
        <Vec<u32> as Describe>::ident() != <Vec<i32> as Describe>::ident(),
{
    let a = <Vec<u32> as Describe>::ident().name;
    let b = <Vec<i32> as Describe>::ident().name;
    reveal_strlit("Vec");
    reveal_strlit("<");
    reveal_strlit(">");
    reveal_strlit("u32");
    reveal_strlit("i32");
    reveal_strlit("");
    let u = TypeNameView { name: "u32"@, module: ""@ };
    let i = TypeNameView { name: "i32"@, module: ""@ };
    assert(joined(seq![u]) == "u32"@);
    assert(joined(seq![i]) == "i32"@);
    assert(a == "Vec"@ + "<"@ + "u32"@ + ">"@);
    assert(a[4] == 'u');
    assert(b[4] == 'i');
}

/// Describing one type twice gives structurally equal schemas: a description
/// depends on the type alone.
pub proof fn describe_is_deterministic<T: Describe>(first: Schema, second: Schema)
    requires
        first@ == T::shape(),
        second@ == T::shape(),
    ensures
        first@ == second@,
{
}

} // verus!
