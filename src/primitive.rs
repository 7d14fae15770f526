//! How the primitive types and the collections of the standard library
//! describe themselves.
use vstd::prelude::*;
use vstd::string::StringExecFns;

use std::collections::{BTreeMap, BTreeSet, HashMap, HashSet, VecDeque};

use crate::decimal::unsigned_text;
use crate::describe::{DescribeTuple, Describe, Describer};
use crate::shape::{decimal, generic_name, Shape, TypeNameView};
use crate::{names_view, TypeName};

verus! {

impl Describe for i8 {
    open spec fn shape() -> Shape {
        Shape::I8
    }

    open spec fn ident() -> TypeNameView {
        TypeNameView { name: "i8"@, module: ""@ }
    }

    fn typename() -> (r: TypeName) {
        TypeName::new("i8", "")
    }

    fn describe<D: Describer>(describer: D) -> (r: Result<D::Ok, D::Error>) {
        describer.describe_i8()
    }
}

impl Describe for i16 {
    open spec fn shape() -> Shape {
        Shape::I16
    }

    open spec fn ident() -> TypeNameView {
        TypeNameView { name: "i16"@, module: ""@ }
    }

    fn typename() -> (r: TypeName) {
        TypeName::new("i16", "")
    }

    fn describe<D: Describer>(describer: D) -> (r: Result<D::Ok, D::Error>) {
        describer.describe_i16()
    }
}

impl Describe for i32 {
    open spec fn shape() -> Shape {
        Shape::I32
    }

    open spec fn ident() -> TypeNameView {
        TypeNameView { name: "i32"@, module: ""@ }
    }

    fn typename() -> (r: TypeName) {
        TypeName::new("i32", "")
    }

    fn describe<D: Describer>(describer: D) -> (r: Result<D::Ok, D::Error>) {
        describer.describe_i32()
    }
}

impl Describe for i64 {
    open spec fn shape() -> Shape {
        Shape::I64
    }

    open spec fn ident() -> TypeNameView {
        TypeNameView { name: "i64"@, module: ""@ }
    }

    fn typename() -> (r: TypeName) {
        TypeName::new("i64", "")
    }

    fn describe<D: Describer>(describer: D) -> (r: Result<D::Ok, D::Error>) {
        describer.describe_i64()
    }
}

impl Describe for i128 {
    open spec fn shape() -> Shape {
        Shape::I128
    }

    open spec fn ident() -> TypeNameView {
        TypeNameView { name: "i128"@, module: ""@ }
    }

    fn typename() -> (r: TypeName) {
        TypeName::new("i128", "")
    }

    fn describe<D: Describer>(describer: D) -> (r: Result<D::Ok, D::Error>) {
        describer.describe_i128()
    }
}

impl Describe for isize {
    open spec fn shape() -> Shape {
        Shape::ISize
    }

    open spec fn ident() -> TypeNameView {
        TypeNameView { name: "isize"@, module: ""@ }
    }

    fn typename() -> (r: TypeName) {
        TypeName::new("isize", "")
    }

    fn describe<D: Describer>(describer: D) -> (r: Result<D::Ok, D::Error>) {
        describer.describe_isize()
    }
}

impl Describe for u8 {
    open spec fn shape() -> Shape {
        Shape::U8
    }

    open spec fn ident() -> TypeNameView {
        TypeNameView { name: "u8"@, module: ""@ }
    }

    fn typename() -> (r: TypeName) {
        TypeName::new("u8", "")
    }

    fn describe<D: Describer>(describer: D) -> (r: Result<D::Ok, D::Error>) {
        describer.describe_u8()
    }
}

impl Describe for u16 {
    open spec fn shape() -> Shape {
        Shape::U16
    }

    open spec fn ident() -> TypeNameView {
        TypeNameView { name: "u16"@, module: ""@ }
    }

    fn typename() -> (r: TypeName) {
        TypeName::new("u16", "")
    }

    fn describe<D: Describer>(describer: D) -> (r: Result<D::Ok, D::Error>) {
        describer.describe_u16()
    }
}

impl Describe for u32 {
    open spec fn shape() -> Shape {
        Shape::U32
    }

    open spec fn ident() -> TypeNameView {
        TypeNameView { name: "u32"@, module: ""@ }
    }

    fn typename() -> (r: TypeName) {
        TypeName::new("u32", "")
    }

    fn describe<D: Describer>(describer: D) -> (r: Result<D::Ok, D::Error>) {
        describer.describe_u32()
    }
}

impl Describe for u64 {
    open spec fn shape() -> Shape {
        Shape::U64
    }

    open spec fn ident() -> TypeNameView {
        TypeNameView { name: "u64"@, module: ""@ }
    }

    fn typename() -> (r: TypeName) {
        TypeName::new("u64", "")
    }

    fn describe<D: Describer>(describer: D) -> (r: Result<D::Ok, D::Error>) {
        describer.describe_u64()
    }
}

impl Describe for u128 {
    open spec fn shape() -> Shape {
        Shape::U128
    }

    open spec fn ident() -> TypeNameView {
        TypeNameView { name: "u128"@, module: ""@ }
    }

    fn typename() -> (r: TypeName) {
        TypeName::new("u128", "")
    }

    fn describe<D: Describer>(describer: D) -> (r: Result<D::Ok, D::Error>) {
        describer.describe_u128()
    }
}

impl Describe for usize {
    open spec fn shape() -> Shape {
        Shape::USize
    }

    open spec fn ident() -> TypeNameView {
        TypeNameView { name: "usize"@, module: ""@ }
    }

    fn typename() -> (r: TypeName) {
        TypeName::new("usize", "")
    }

    fn describe<D: Describer>(describer: D) -> (r: Result<D::Ok, D::Error>) {
        describer.describe_usize()
    }
}

impl Describe for bool {
    open spec fn shape() -> Shape {
        Shape::Bool
    }

    open spec fn ident() -> TypeNameView {
        TypeNameView { name: "bool"@, module: ""@ }
    }

    fn typename() -> (r: TypeName) {
        TypeName::new("bool", "")
    }

    fn describe<D: Describer>(describer: D) -> (r: Result<D::Ok, D::Error>) {
        describer.describe_bool()
    }
}

impl Describe for char {
    open spec fn shape() -> Shape {
        Shape::Char
    }

    open spec fn ident() -> TypeNameView {
        TypeNameView { name: "char"@, module: ""@ }
    }

    fn typename() -> (r: TypeName) {
        TypeName::new("char", "")
    }

    fn describe<D: Describer>(describer: D) -> (r: Result<D::Ok, D::Error>) {
        describer.describe_char()
    }
}

impl<T: Describe> Describe for Option<T> {
    open spec fn shape() -> Shape {
        Shape::Option(Box::new(T::shape()))
    }

    open spec fn ident() -> TypeNameView {
        generic_name("Option"@, "core::option"@, seq![T::ident()])
    }

    fn typename() -> (r: TypeName) {
        let args = vec![T::typename()];
        proof {
            assert(names_view(args@) =~= seq![T::ident()]);
        }
        TypeName::generic("Option", "core::option", args)
    }

    fn describe<D: Describer>(describer: D) -> (r: Result<D::Ok, D::Error>) {
        let inner = T::describe(describer)?;
        describer.describe_option(inner)
    }
}

impl<T: Describe> Describe for Vec<T> {
    open spec fn shape() -> Shape {
        Shape::Sequence { name: Self::ident(), element: Box::new(T::shape()), len: None }
    }

    open spec fn ident() -> TypeNameView {
        generic_name("Vec"@, "alloc::vec"@, seq![T::ident()])
    }

    fn typename() -> (r: TypeName) {
        let args = vec![T::typename()];
        proof {
            assert(names_view(args@) =~= seq![T::ident()]);
        }
        TypeName::generic("Vec", "alloc::vec", args)
    }

    fn describe<D: Describer>(describer: D) -> (r: Result<D::Ok, D::Error>) {
        let element = T::describe(describer)?;
        describer.describe_seq(Self::typename(), element, None)
    }
}

impl<T: Describe> Describe for VecDeque<T> {
    open spec fn shape() -> Shape {
        Shape::Sequence { name: Self::ident(), element: Box::new(T::shape()), len: None }
    }

    open spec fn ident() -> TypeNameView {
        generic_name("VecDeque"@, "alloc::collections::vec_deque"@, seq![T::ident()])
    }

    fn typename() -> (r: TypeName) {
        let args = vec![T::typename()];
        proof {
            assert(names_view(args@) =~= seq![T::ident()]);
        }
        TypeName::generic("VecDeque", "alloc::collections::vec_deque", args)
    }

    fn describe<D: Describer>(describer: D) -> (r: Result<D::Ok, D::Error>) {
        let element = T::describe(describer)?;
        describer.describe_seq(Self::typename(), element, None)
    }
}

impl<T: Describe> Describe for HashSet<T> {
    open spec fn shape() -> Shape {
        Shape::Sequence { name: Self::ident(), element: Box::new(T::shape()), len: None }
    }

    open spec fn ident() -> TypeNameView {
        generic_name("HashSet"@, "std::collections::hash_set::HashSet"@, seq![T::ident()])
    }

    fn typename() -> (r: TypeName) {
        let args = vec![T::typename()];
        proof {
            assert(names_view(args@) =~= seq![T::ident()]);
        }
        TypeName::generic("HashSet", "std::collections::hash_set::HashSet", args)
    }

    fn describe<D: Describer>(describer: D) -> (r: Result<D::Ok, D::Error>) {
        let element = T::describe(describer)?;
        describer.describe_seq(Self::typename(), element, None)
    }
}

impl<T: Describe> Describe for BTreeSet<T> {
    open spec fn shape() -> Shape {
        Shape::Sequence { name: Self::ident(), element: Box::new(T::shape()), len: None }
    }

    open spec fn ident() -> TypeNameView {
        generic_name("BTreeSet"@, "alloc::collections::btree_set"@, seq![T::ident()])
    }

    fn typename() -> (r: TypeName) {
        let args = vec![T::typename()];
        proof {
            assert(names_view(args@) =~= seq![T::ident()]);
        }
        TypeName::generic("BTreeSet", "alloc::collections::btree_set", args)
    }

    fn describe<D: Describer>(describer: D) -> (r: Result<D::Ok, D::Error>) {
        let element = T::describe(describer)?;
        describer.describe_seq(Self::typename(), element, None)
    }
}

impl<K: Describe, V: Describe> Describe for HashMap<K, V> {
    open spec fn shape() -> Shape {
        Shape::Mapping { name: Self::ident(), key: Box::new(K::shape()), value: Box::new(V::shape()) }
    }

    open spec fn ident() -> TypeNameView {
        generic_name("HashMap"@, "std::collections::hash_map"@, seq![K::ident(), V::ident()])
    }

    fn typename() -> (r: TypeName) {
        let args = vec![K::typename(), V::typename()];
        proof {
            assert(names_view(args@) =~= seq![K::ident(), V::ident()]);
        }
        TypeName::generic("HashMap", "std::collections::hash_map", args)
    }

    fn describe<D: Describer>(describer: D) -> (r: Result<D::Ok, D::Error>) {
        let key = K::describe(describer)?;
        let value = V::describe(describer)?;
        describer.describe_map(Self::typename(), key, value)
    }
}

impl<K: Describe, V: Describe> Describe for BTreeMap<K, V> {
    open spec fn shape() -> Shape {
        Shape::Mapping { name: Self::ident(), key: Box::new(K::shape()), value: Box::new(V::shape()) }
    }

    open spec fn ident() -> TypeNameView {
        generic_name("BTreeMap"@, "alloc::collections::btree_map"@, seq![K::ident(), V::ident()])
    }

    fn typename() -> (r: TypeName) {
        let args = vec![K::typename(), V::typename()];
        proof {
            assert(names_view(args@) =~= seq![K::ident(), V::ident()]);
        }
        TypeName::generic("BTreeMap", "alloc::collections::btree_map", args)
    }

    fn describe<D: Describer>(describer: D) -> (r: Result<D::Ok, D::Error>) {
        let key = K::describe(describer)?;
        let value = V::describe(describer)?;
        describer.describe_map(Self::typename(), key, value)
    }
}

impl<'a> Describe for &'a str {
    open spec fn shape() -> Shape {
        Shape::Str
    }

    open spec fn ident() -> TypeNameView {
        TypeNameView { name: "str"@, module: ""@ }
    }

    fn typename() -> (r: TypeName) {
        TypeName::new("str", "")
    }

    fn describe<D: Describer>(describer: D) -> (r: Result<D::Ok, D::Error>) {
        describer.describe_str()
    }
}

impl Describe for String {
    open spec fn shape() -> Shape {
        Shape::String(Self::ident())
    }

    open spec fn ident() -> TypeNameView {
        TypeNameView { name: "String"@, module: "alloc::string"@ }
    }

    fn typename() -> (r: TypeName) {
        TypeName::new("String", "alloc::string")
    }

    fn describe<D: Describer>(describer: D) -> (r: Result<D::Ok, D::Error>) {
        describer.describe_string(Self::typename())
    }
}

impl Describe for () {
    open spec fn shape() -> Shape {
        Shape::Unit
    }

    open spec fn ident() -> TypeNameView {
        TypeNameView { name: "()"@, module: ""@ }
    }

    fn typename() -> (r: TypeName) {
        TypeName::new("()", "")
    }

    fn describe<D: Describer>(describer: D) -> (r: Result<D::Ok, D::Error>) {
        describer.describe_unit()
    }
}

impl<'a, T: Describe> Describe for &'a [T] {
    open spec fn shape() -> Shape {
        Shape::Slice(Box::new(T::shape()))
    }

    open spec fn ident() -> TypeNameView {
        generic_name("[]"@, ""@, seq![T::ident()])
    }

    fn typename() -> (r: TypeName) {
        let args = vec![T::typename()];
        proof {
            assert(names_view(args@) =~= seq![T::ident()]);
        }
        TypeName::generic("[]", "", args)
    }

    fn describe<D: Describer>(describer: D) -> (r: Result<D::Ok, D::Error>) {
        let element = T::describe(describer)?;
        describer.describe_slice(element)
    }
}

/// The name of an array type of `len` elements, before its element type is
/// folded in: `[; len]`.
pub open spec fn array_name(len: nat) -> Seq<char> {
    "[; "@ + decimal(len) + "]"@
}

impl<T: Describe, const N: usize> Describe for [T; N] {
    open spec fn shape() -> Shape {
        Shape::Array { element: Box::new(T::shape()), len: N as nat }
    }

    open spec fn ident() -> TypeNameView {
        generic_name(array_name(N as nat), ""@, seq![T::ident()])
    }

    fn typename() -> (r: TypeName) {
        let mut name = String::from_str("[; ");
        name.append(unsigned_text(N as u128).as_str());
        name.append("]");
        let args = vec![T::typename()];
        proof {
            assert(names_view(args@) =~= seq![T::ident()]);
            assert(name@ =~= array_name(N as nat));
        }
        TypeName::generic(name.as_str(), "", args)
    }

    fn describe<D: Describer>(describer: D) -> (r: Result<D::Ok, D::Error>) {
        let element = T::describe(describer)?;
        describer.describe_array(element, N)
    }
}

impl<T1: Describe> Describe for (T1,) {
    open spec fn shape() -> Shape {
        Shape::Tuple(seq![T1::shape()])
    }

    open spec fn ident() -> TypeNameView {
        generic_name("()"@, ""@, seq![T1::ident()])
    }

    fn typename() -> (r: TypeName) {
        let args = vec![T1::typename()];
        proof {
            assert(names_view(args@) =~= seq![T1::ident()]);
        }
        TypeName::generic("()", "", args)
    }

    fn describe<D: Describer>(describer: D) -> (r: Result<D::Ok, D::Error>) {
        let mut tuple = describer.describe_tuple()?;
        let e1 = T1::describe(describer)?;
        proof {
            assert(<D::DescribeTuple as DescribeTuple>::describes(e1, T1::shape()));
        }
        tuple.describe_element(e1)?;
        proof {
            assert(tuple.elements() =~= seq![T1::shape()]);
        }
        tuple.end()
    }
}

impl<T1: Describe, T2: Describe> Describe for (T1, T2) {
    open spec fn shape() -> Shape {
        Shape::Tuple(seq![T1::shape(), T2::shape()])
    }

    open spec fn ident() -> TypeNameView {
        generic_name("()"@, ""@, seq![T1::ident(), T2::ident()])
    }

    fn typename() -> (r: TypeName) {
        let args = vec![T1::typename(), T2::typename()];
        proof {
            assert(names_view(args@) =~= seq![T1::ident(), T2::ident()]);
        }
        TypeName::generic("()", "", args)
    }

    fn describe<D: Describer>(describer: D) -> (r: Result<D::Ok, D::Error>) {
        let mut tuple = describer.describe_tuple()?;
        let e1 = T1::describe(describer)?;
        proof {
            assert(<D::DescribeTuple as DescribeTuple>::describes(e1, T1::shape()));
        }
        tuple.describe_element(e1)?;
        let e2 = T2::describe(describer)?;
        proof {
            assert(<D::DescribeTuple as DescribeTuple>::describes(e2, T2::shape()));
        }
        tuple.describe_element(e2)?;
        proof {
            assert(tuple.elements() =~= seq![T1::shape(), T2::shape()]);
        }
        tuple.end()
    }
}

impl<T1: Describe, T2: Describe, T3: Describe> Describe for (T1, T2, T3) {
    open spec fn shape() -> Shape {
        Shape::Tuple(seq![T1::shape(), T2::shape(), T3::shape()])
    }

    open spec fn ident() -> TypeNameView {
        generic_name("()"@, ""@, seq![T1::ident(), T2::ident(), T3::ident()])
    }

    fn typename() -> (r: TypeName) {
        let args = vec![T1::typename(), T2::typename(), T3::typename()];
        proof {
            assert(names_view(args@) =~= seq![T1::ident(), T2::ident(), T3::ident()]);
        }
        TypeName::generic("()", "", args)
    }

    fn describe<D: Describer>(describer: D) -> (r: Result<D::Ok, D::Error>) {
        let mut tuple = describer.describe_tuple()?;
        let e1 = T1::describe(describer)?;
        proof {
            assert(<D::DescribeTuple as DescribeTuple>::describes(e1, T1::shape()));
        }
        tuple.describe_element(e1)?;
        let e2 = T2::describe(describer)?;
        proof {
            assert(<D::DescribeTuple as DescribeTuple>::describes(e2, T2::shape()));
        }
        tuple.describe_element(e2)?;
        let e3 = T3::describe(describer)?;
        proof {
            assert(<D::DescribeTuple as DescribeTuple>::describes(e3, T3::shape()));
        }
        tuple.describe_element(e3)?;
        proof {
            assert(tuple.elements() =~= seq![T1::shape(), T2::shape(), T3::shape()]);
        }
        tuple.end()
    }
}

impl<T1: Describe, T2: Describe, T3: Describe, T4: Describe> Describe for (T1, T2, T3, T4) {
    open spec fn shape() -> Shape {
        Shape::Tuple(seq![T1::shape(), T2::shape(), T3::shape(), T4::shape()])
    }

    open spec fn ident() -> TypeNameView {
        generic_name("()"@, ""@, seq![T1::ident(), T2::ident(), T3::ident(), T4::ident()])
    }

    fn typename() -> (r: TypeName) {
        let args = vec![T1::typename(), T2::typename(), T3::typename(), T4::typename()];
        proof {
            assert(names_view(args@) =~= seq![T1::ident(), T2::ident(), T3::ident(), T4::ident()]);
        }
        TypeName::generic("()", "", args)
    }

    fn describe<D: Describer>(describer: D) -> (r: Result<D::Ok, D::Error>) {
        let mut tuple = describer.describe_tuple()?;
        let e1 = T1::describe(describer)?;
        proof {
            assert(<D::DescribeTuple as DescribeTuple>::describes(e1, T1::shape()));
        }
        tuple.describe_element(e1)?;
        let e2 = T2::describe(describer)?;
        proof {
            assert(<D::DescribeTuple as DescribeTuple>::describes(e2, T2::shape()));
        }
        tuple.describe_element(e2)?;
        let e3 = T3::describe(describer)?;
        proof {
            assert(<D::DescribeTuple as DescribeTuple>::describes(e3, T3::shape()));
        }
        tuple.describe_element(e3)?;
        let e4 = T4::describe(describer)?;
        proof {
            assert(<D::DescribeTuple as DescribeTuple>::describes(e4, T4::shape()));
        }
        tuple.describe_element(e4)?;
        proof {
            assert(tuple.elements() =~= seq![T1::shape(), T2::shape(), T3::shape(), T4::shape()]);
        }
        tuple.end()
    }
}

impl<T1: Describe, T2: Describe, T3: Describe, T4: Describe, T5: Describe> Describe for (T1, T2, T3, T4, T5) {
    open spec fn shape() -> Shape {
        Shape::Tuple(seq![T1::shape(), T2::shape(), T3::shape(), T4::shape(), T5::shape()])
    }

    open spec fn ident() -> TypeNameView {
        generic_name("()"@, ""@, seq![T1::ident(), T2::ident(), T3::ident(), T4::ident(), T5::ident()])
    }

    fn typename() -> (r: TypeName) {
        let args = vec![T1::typename(), T2::typename(), T3::typename(), T4::typename(), T5::typename()];
        proof {
            assert(names_view(args@) =~= seq![T1::ident(), T2::ident(), T3::ident(), T4::ident(), T5::ident()]);
        }
        TypeName::generic("()", "", args)
    }

    fn describe<D: Describer>(describer: D) -> (r: Result<D::Ok, D::Error>) {
        let mut tuple = describer.describe_tuple()?;
        let e1 = T1::describe(describer)?;
        proof {
            assert(<D::DescribeTuple as DescribeTuple>::describes(e1, T1::shape()));
        }
        tuple.describe_element(e1)?;
        let e2 = T2::describe(describer)?;
        proof {
            assert(<D::DescribeTuple as DescribeTuple>::describes(e2, T2::shape()));
        }
        tuple.describe_element(e2)?;
        let e3 = T3::describe(describer)?;
        proof {
            assert(<D::DescribeTuple as DescribeTuple>::describes(e3, T3::shape()));
        }
        tuple.describe_element(e3)?;
        let e4 = T4::describe(describer)?;
        proof {
            assert(<D::DescribeTuple as DescribeTuple>::describes(e4, T4::shape()));
        }
        tuple.describe_element(e4)?;
        let e5 = T5::describe(describer)?;
        proof {
            assert(<D::DescribeTuple as DescribeTuple>::describes(e5, T5::shape()));
        }
        tuple.describe_element(e5)?;
        proof {
            assert(tuple.elements() =~= seq![T1::shape(), T2::shape(), T3::shape(), T4::shape(), T5::shape()]);
        }
        tuple.end()
    }
}

impl<T1: Describe, T2: Describe, T3: Describe, T4: Describe, T5: Describe, T6: Describe> Describe for (T1, T2, T3, T4, T5, T6) {
    open spec fn shape() -> Shape {
        Shape::Tuple(seq![T1::shape(), T2::shape(), T3::shape(), T4::shape(), T5::shape(), T6::shape()])
    }

    open spec fn ident() -> TypeNameView {
        generic_name("()"@, ""@, seq![T1::ident(), T2::ident(), T3::ident(), T4::ident(), T5::ident(), T6::ident()])
    }

    fn typename() -> (r: TypeName) {
        let args = vec![T1::typename(), T2::typename(), T3::typename(), T4::typename(), T5::typename(), T6::typename()];
        proof {
            assert(names_view(args@) =~= seq![T1::ident(), T2::ident(), T3::ident(), T4::ident(), T5::ident(), T6::ident()]);
        }
        TypeName::generic("()", "", args)
    }

    fn describe<D: Describer>(describer: D) -> (r: Result<D::Ok, D::Error>) {
        let mut tuple = describer.describe_tuple()?;
        let e1 = T1::describe(describer)?;
        proof {
            assert(<D::DescribeTuple as DescribeTuple>::describes(e1, T1::shape()));
        }
        tuple.describe_element(e1)?;
        let e2 = T2::describe(describer)?;
        proof {
            assert(<D::DescribeTuple as DescribeTuple>::describes(e2, T2::shape()));
        }
        tuple.describe_element(e2)?;
        let e3 = T3::describe(describer)?;
        proof {
            assert(<D::DescribeTuple as DescribeTuple>::describes(e3, T3::shape()));
        }
        tuple.describe_element(e3)?;
        let e4 = T4::describe(describer)?;
        proof {
            assert(<D::DescribeTuple as DescribeTuple>::describes(e4, T4::shape()));
        }
        tuple.describe_element(e4)?;
        let e5 = T5::describe(describer)?;
        proof {
            assert(<D::DescribeTuple as DescribeTuple>::describes(e5, T5::shape()));
        }
        tuple.describe_element(e5)?;
        let e6 = T6::describe(describer)?;
        proof {
            assert(<D::DescribeTuple as DescribeTuple>::describes(e6, T6::shape()));
        }
        tuple.describe_element(e6)?;
        proof {
            assert(tuple.elements() =~= seq![T1::shape(), T2::shape(), T3::shape(), T4::shape(), T5::shape(), T6::shape()]);
        }
        tuple.end()
    }
}

impl<T1: Describe, T2: Describe, T3: Describe, T4: Describe, T5: Describe, T6: Describe, T7: Describe> Describe for (T1, T2, T3, T4, T5, T6, T7) {
    open spec fn shape() -> Shape {
        Shape::Tuple(seq![T1::shape(), T2::shape(), T3::shape(), T4::shape(), T5::shape(), T6::shape(), T7::shape()])
    }

    open spec fn ident() -> TypeNameView {
        generic_name("()"@, ""@, seq![T1::ident(), T2::ident(), T3::ident(), T4::ident(), T5::ident(), T6::ident(), T7::ident()])
    }

    fn typename() -> (r: TypeName) {
        let args = vec![T1::typename(), T2::typename(), T3::typename(), T4::typename(), T5::typename(), T6::typename(), T7::typename()];
        proof {
            assert(names_view(args@) =~= seq![T1::ident(), T2::ident(), T3::ident(), T4::ident(), T5::ident(), T6::ident(), T7::ident()]);
        }
        TypeName::generic("()", "", args)
    }

    fn describe<D: Describer>(describer: D) -> (r: Result<D::Ok, D::Error>) {
        let mut tuple = describer.describe_tuple()?;
        let e1 = T1::describe(describer)?;
        proof {
            assert(<D::DescribeTuple as DescribeTuple>::describes(e1, T1::shape()));
        }
        tuple.describe_element(e1)?;
        let e2 = T2::describe(describer)?;
        proof {
            assert(<D::DescribeTuple as DescribeTuple>::describes(e2, T2::shape()));
        }
        tuple.describe_element(e2)?;
        let e3 = T3::describe(describer)?;
        proof {
            assert(<D::DescribeTuple as DescribeTuple>::describes(e3, T3::shape()));
        }
        tuple.describe_element(e3)?;
        let e4 = T4::describe(describer)?;
        proof {
            assert(<D::DescribeTuple as DescribeTuple>::describes(e4, T4::shape()));
        }
        tuple.describe_element(e4)?;
        let e5 = T5::describe(describer)?;
        proof {
            assert(<D::DescribeTuple as DescribeTuple>::describes(e5, T5::shape()));
        }
        tuple.describe_element(e5)?;
        let e6 = T6::describe(describer)?;
        proof {
            assert(<D::DescribeTuple as DescribeTuple>::describes(e6, T6::shape()));
        }
        tuple.describe_element(e6)?;
        let e7 = T7::describe(describer)?;
        proof {
            assert(<D::DescribeTuple as DescribeTuple>::describes(e7, T7::shape()));
        }
        tuple.describe_element(e7)?;
        proof {
            assert(tuple.elements() =~= seq![T1::shape(), T2::shape(), T3::shape(), T4::shape(), T5::shape(), T6::shape(), T7::shape()]);
        }
        tuple.end()
    }
}

impl<T1: Describe, T2: Describe, T3: Describe, T4: Describe, T5: Describe, T6: Describe, T7: Describe, T8: Describe> Describe for (T1, T2, T3, T4, T5, T6, T7, T8) {
    open spec fn shape() -> Shape {
        Shape::Tuple(seq![T1::shape(), T2::shape(), T3::shape(), T4::shape(), T5::shape(), T6::shape(), T7::shape(), T8::shape()])
    }

    open spec fn ident() -> TypeNameView {
        generic_name("()"@, ""@, seq![T1::ident(), T2::ident(), T3::ident(), T4::ident(), T5::ident(), T6::ident(), T7::ident(), T8::ident()])
    }

    fn typename() -> (r: TypeName) {
        let args = vec![T1::typename(), T2::typename(), T3::typename(), T4::typename(), T5::typename(), T6::typename(), T7::typename(), T8::typename()];
        proof {
            assert(names_view(args@) =~= seq![T1::ident(), T2::ident(), T3::ident(), T4::ident(), T5::ident(), T6::ident(), T7::ident(), T8::ident()]);
        }
        TypeName::generic("()", "", args)
    }

    fn describe<D: Describer>(describer: D) -> (r: Result<D::Ok, D::Error>) {
        let mut tuple = describer.describe_tuple()?;
        let e1 = T1::describe(describer)?;
        proof {
            assert(<D::DescribeTuple as DescribeTuple>::describes(e1, T1::shape()));
        }
        tuple.describe_element(e1)?;
        let e2 = T2::describe(describer)?;
        proof {
            assert(<D::DescribeTuple as DescribeTuple>::describes(e2, T2::shape()));
        }
        tuple.describe_element(e2)?;
        let e3 = T3::describe(describer)?;
        proof {
            assert(<D::DescribeTuple as DescribeTuple>::describes(e3, T3::shape()));
        }
        tuple.describe_element(e3)?;
        let e4 = T4::describe(describer)?;
        proof {
            assert(<D::DescribeTuple as DescribeTuple>::describes(e4, T4::shape()));
        }
        tuple.describe_element(e4)?;
        let e5 = T5::describe(describer)?;
        proof {
            assert(<D::DescribeTuple as DescribeTuple>::describes(e5, T5::shape()));
        }
        tuple.describe_element(e5)?;
        let e6 = T6::describe(describer)?;
        proof {
            assert(<D::DescribeTuple as DescribeTuple>::describes(e6, T6::shape()));
        }
        tuple.describe_element(e6)?;
        let e7 = T7::describe(describer)?;
        proof {
            assert(<D::DescribeTuple as DescribeTuple>::describes(e7, T7::shape()));
        }
        tuple.describe_element(e7)?;
        let e8 = T8::describe(describer)?;
        proof {
            assert(<D::DescribeTuple as DescribeTuple>::describes(e8, T8::shape()));
        }
        tuple.describe_element(e8)?;
        proof {
            assert(tuple.elements() =~= seq![T1::shape(), T2::shape(), T3::shape(), T4::shape(), T5::shape(), T6::shape(), T7::shape(), T8::shape()]);
        }
        tuple.end()
    }
}

impl<T1: Describe, T2: Describe, T3: Describe, T4: Describe, T5: Describe, T6: Describe, T7: Describe, T8: Describe, T9: Describe> Describe for (T1, T2, T3, T4, T5, T6, T7, T8, T9) {
    open spec fn shape() -> Shape {
        Shape::Tuple(seq![T1::shape(), T2::shape(), T3::shape(), T4::shape(), T5::shape(), T6::shape(), T7::shape(), T8::shape(), T9::shape()])
    }

    open spec fn ident() -> TypeNameView {
        generic_name("()"@, ""@, seq![T1::ident(), T2::ident(), T3::ident(), T4::ident(), T5::ident(), T6::ident(), T7::ident(), T8::ident(), T9::ident()])
    }

    fn typename() -> (r: TypeName) {
        let args = vec![T1::typename(), T2::typename(), T3::typename(), T4::typename(), T5::typename(), T6::typename(), T7::typename(), T8::typename(), T9::typename()];
        proof {
            assert(names_view(args@) =~= seq![T1::ident(), T2::ident(), T3::ident(), T4::ident(), T5::ident(), T6::ident(), T7::ident(), T8::ident(), T9::ident()]);
        }
        TypeName::generic("()", "", args)
    }

    fn describe<D: Describer>(describer: D) -> (r: Result<D::Ok, D::Error>) {
        let mut tuple = describer.describe_tuple()?;
        let e1 = T1::describe(describer)?;
        proof {
            assert(<D::DescribeTuple as DescribeTuple>::describes(e1, T1::shape()));
        }
        tuple.describe_element(e1)?;
        let e2 = T2::describe(describer)?;
        proof {
            assert(<D::DescribeTuple as DescribeTuple>::describes(e2, T2::shape()));
        }
        tuple.describe_element(e2)?;
        let e3 = T3::describe(describer)?;
        proof {
            assert(<D::DescribeTuple as DescribeTuple>::describes(e3, T3::shape()));
        }
        tuple.describe_element(e3)?;
        let e4 = T4::describe(describer)?;
        proof {
            assert(<D::DescribeTuple as DescribeTuple>::describes(e4, T4::shape()));
        }
        tuple.describe_element(e4)?;
        let e5 = T5::describe(describer)?;
        proof {
            assert(<D::DescribeTuple as DescribeTuple>::describes(e5, T5::shape()));
        }
        tuple.describe_element(e5)?;
        let e6 = T6::describe(describer)?;
        proof {
            assert(<D::DescribeTuple as DescribeTuple>::describes(e6, T6::shape()));
        }
        tuple.describe_element(e6)?;
        let e7 = T7::describe(describer)?;
        proof {
            assert(<D::DescribeTuple as DescribeTuple>::describes(e7, T7::shape()));
        }
        tuple.describe_element(e7)?;
        let e8 = T8::describe(describer)?;
        proof {
            assert(<D::DescribeTuple as DescribeTuple>::describes(e8, T8::shape()));
        }
        tuple.describe_element(e8)?;
        let e9 = T9::describe(describer)?;
        proof {
            assert(<D::DescribeTuple as DescribeTuple>::describes(e9, T9::shape()));
        }
        tuple.describe_element(e9)?;
        proof {
            assert(tuple.elements() =~= seq![T1::shape(), T2::shape(), T3::shape(), T4::shape(), T5::shape(), T6::shape(), T7::shape(), T8::shape(), T9::shape()]);
        }
        tuple.end()
    }
}

impl<T1: Describe, T2: Describe, T3: Describe, T4: Describe, T5: Describe, T6: Describe, T7: Describe, T8: Describe, T9: Describe, T10: Describe> Describe for (T1, T2, T3, T4, T5, T6, T7, T8, T9, T10) {
    open spec fn shape() -> Shape {
        Shape::Tuple(seq![T1::shape(), T2::shape(), T3::shape(), T4::shape(), T5::shape(), T6::shape(), T7::shape(), T8::shape(), T9::shape(), T10::shape()])
    }

    open spec fn ident() -> TypeNameView {
        generic_name("()"@, ""@, seq![T1::ident(), T2::ident(), T3::ident(), T4::ident(), T5::ident(), T6::ident(), T7::ident(), T8::ident(), T9::ident(), T10::ident()])
    }

    fn typename() -> (r: TypeName) {
        let args = vec![T1::typename(), T2::typename(), T3::typename(), T4::typename(), T5::typename(), T6::typename(), T7::typename(), T8::typename(), T9::typename(), T10::typename()];
        proof {
            assert(names_view(args@) =~= seq![T1::ident(), T2::ident(), T3::ident(), T4::ident(), T5::ident(), T6::ident(), T7::ident(), T8::ident(), T9::ident(), T10::ident()]);
        }
        TypeName::generic("()", "", args)
    }

    fn describe<D: Describer>(describer: D) -> (r: Result<D::Ok, D::Error>) {
        let mut tuple = describer.describe_tuple()?;
        let e1 = T1::describe(describer)?;
        proof {
            assert(<D::DescribeTuple as DescribeTuple>::describes(e1, T1::shape()));
        }
        tuple.describe_element(e1)?;
        let e2 = T2::describe(describer)?;
        proof {
            assert(<D::DescribeTuple as DescribeTuple>::describes(e2, T2::shape()));
        }
        tuple.describe_element(e2)?;
        let e3 = T3::describe(describer)?;
        proof {
            assert(<D::DescribeTuple as DescribeTuple>::describes(e3, T3::shape()));
        }
        tuple.describe_element(e3)?;
        let e4 = T4::describe(describer)?;
        proof {
            assert(<D::DescribeTuple as DescribeTuple>::describes(e4, T4::shape()));
        }
        tuple.describe_element(e4)?;
        let e5 = T5::describe(describer)?;
        proof {
            assert(<D::DescribeTuple as DescribeTuple>::describes(e5, T5::shape()));
        }
        tuple.describe_element(e5)?;
        let e6 = T6::describe(describer)?;
        proof {
            assert(<D::DescribeTuple as DescribeTuple>::describes(e6, T6::shape()));
        }
        tuple.describe_element(e6)?;
        let e7 = T7::describe(describer)?;
        proof {
            assert(<D::DescribeTuple as DescribeTuple>::describes(e7, T7::shape()));
        }
        tuple.describe_element(e7)?;
        let e8 = T8::describe(describer)?;
        proof {
            assert(<D::DescribeTuple as DescribeTuple>::describes(e8, T8::shape()));
        }
        tuple.describe_element(e8)?;
        let e9 = T9::describe(describer)?;
        proof {
            assert(<D::DescribeTuple as DescribeTuple>::describes(e9, T9::shape()));
        }
        tuple.describe_element(e9)?;
        let e10 = T10::describe(describer)?;
        proof {
            assert(<D::DescribeTuple as DescribeTuple>::describes(e10, T10::shape()));
        }
        tuple.describe_element(e10)?;
        proof {
            assert(tuple.elements() =~= seq![T1::shape(), T2::shape(), T3::shape(), T4::shape(), T5::shape(), T6::shape(), T7::shape(), T8::shape(), T9::shape(), T10::shape()]);
        }
        tuple.end()
    }
}

impl<T1: Describe, T2: Describe, T3: Describe, T4: Describe, T5: Describe, T6: Describe, T7: Describe, T8: Describe, T9: Describe, T10: Describe, T11: Describe> Describe for (T1, T2, T3, T4, T5, T6, T7, T8, T9, T10, T11) {
    open spec fn shape() -> Shape {
        Shape::Tuple(seq![T1::shape(), T2::shape(), T3::shape(), T4::shape(), T5::shape(), T6::shape(), T7::shape(), T8::shape(), T9::shape(), T10::shape(), T11::shape()])
    }

    open spec fn ident() -> TypeNameView {
        generic_name("()"@, ""@, seq![T1::ident(), T2::ident(), T3::ident(), T4::ident(), T5::ident(), T6::ident(), T7::ident(), T8::ident(), T9::ident(), T10::ident(), T11::ident()])
    }

    fn typename() -> (r: TypeName) {
        let args = vec![T1::typename(), T2::typename(), T3::typename(), T4::typename(), T5::typename(), T6::typename(), T7::typename(), T8::typename(), T9::typename(), T10::typename(), T11::typename()];
        proof {
            assert(names_view(args@) =~= seq![T1::ident(), T2::ident(), T3::ident(), T4::ident(), T5::ident(), T6::ident(), T7::ident(), T8::ident(), T9::ident(), T10::ident(), T11::ident()]);
        }
        TypeName::generic("()", "", args)
    }

    fn describe<D: Describer>(describer: D) -> (r: Result<D::Ok, D::Error>) {
        let mut tuple = describer.describe_tuple()?;
        let e1 = T1::describe(describer)?;
        proof {
            assert(<D::DescribeTuple as DescribeTuple>::describes(e1, T1::shape()));
        }
        tuple.describe_element(e1)?;
        let e2 = T2::describe(describer)?;
        proof {
            assert(<D::DescribeTuple as DescribeTuple>::describes(e2, T2::shape()));
        }
        tuple.describe_element(e2)?;
        let e3 = T3::describe(describer)?;
        proof {
            assert(<D::DescribeTuple as DescribeTuple>::describes(e3, T3::shape()));
        }
        tuple.describe_element(e3)?;
        let e4 = T4::describe(describer)?;
        proof {
            assert(<D::DescribeTuple as DescribeTuple>::describes(e4, T4::shape()));
        }
        tuple.describe_element(e4)?;
        let e5 = T5::describe(describer)?;
        proof {
            assert(<D::DescribeTuple as DescribeTuple>::describes(e5, T5::shape()));
        }
        tuple.describe_element(e5)?;
        let e6 = T6::describe(describer)?;
        proof {
            assert(<D::DescribeTuple as DescribeTuple>::describes(e6, T6::shape()));
        }
        tuple.describe_element(e6)?;
        let e7 = T7::describe(describer)?;
        proof {
            assert(<D::DescribeTuple as DescribeTuple>::describes(e7, T7::shape()));
        }
        tuple.describe_element(e7)?;
        let e8 = T8::describe(describer)?;
        proof {
            assert(<D::DescribeTuple as DescribeTuple>::describes(e8, T8::shape()));
        }
        tuple.describe_element(e8)?;
        let e9 = T9::describe(describer)?;
        proof {
            assert(<D::DescribeTuple as DescribeTuple>::describes(e9, T9::shape()));
        }
        tuple.describe_element(e9)?;
        let e10 = T10::describe(describer)?;
        proof {
            assert(<D::DescribeTuple as DescribeTuple>::describes(e10, T10::shape()));
        }
        tuple.describe_element(e10)?;
        let e11 = T11::describe(describer)?;
        proof {
            assert(<D::DescribeTuple as DescribeTuple>::describes(e11, T11::shape()));
        }
        tuple.describe_element(e11)?;
        proof {
            assert(tuple.elements() =~= seq![T1::shape(), T2::shape(), T3::shape(), T4::shape(), T5::shape(), T6::shape(), T7::shape(), T8::shape(), T9::shape(), T10::shape(), T11::shape()]);
        }
        tuple.end()
    }
}

impl<T1: Describe, T2: Describe, T3: Describe, T4: Describe, T5: Describe, T6: Describe, T7: Describe, T8: Describe, T9: Describe, T10: Describe, T11: Describe, T12: Describe> Describe for (T1, T2, T3, T4, T5, T6, T7, T8, T9, T10, T11, T12) {
    open spec fn shape() -> Shape {
        Shape::Tuple(seq![T1::shape(), T2::shape(), T3::shape(), T4::shape(), T5::shape(), T6::shape(), T7::shape(), T8::shape(), T9::shape(), T10::shape(), T11::shape(), T12::shape()])
    }

    open spec fn ident() -> TypeNameView {
        generic_name("()"@, ""@, seq![T1::ident(), T2::ident(), T3::ident(), T4::ident(), T5::ident(), T6::ident(), T7::ident(), T8::ident(), T9::ident(), T10::ident(), T11::ident(), T12::ident()])
    }

    fn typename() -> (r: TypeName) {
        let args = vec![T1::typename(), T2::typename(), T3::typename(), T4::typename(), T5::typename(), T6::typename(), T7::typename(), T8::typename(), T9::typename(), T10::typename(), T11::typename(), T12::typename()];
        proof {
            assert(names_view(args@) =~= seq![T1::ident(), T2::ident(), T3::ident(), T4::ident(), T5::ident(), T6::ident(), T7::ident(), T8::ident(), T9::ident(), T10::ident(), T11::ident(), T12::ident()]);
        }
        TypeName::generic("()", "", args)
    }

    fn describe<D: Describer>(describer: D) -> (r: Result<D::Ok, D::Error>) {
        let mut tuple = describer.describe_tuple()?;
        let e1 = T1::describe(describer)?;
        proof {
            assert(<D::DescribeTuple as DescribeTuple>::describes(e1, T1::shape()));
        }
        tuple.describe_element(e1)?;
        let e2 = T2::describe(describer)?;
        proof {
            assert(<D::DescribeTuple as DescribeTuple>::describes(e2, T2::shape()));
        }
        tuple.describe_element(e2)?;
        let e3 = T3::describe(describer)?;
        proof {
            assert(<D::DescribeTuple as DescribeTuple>::describes(e3, T3::shape()));
        }
        tuple.describe_element(e3)?;
        let e4 = T4::describe(describer)?;
        proof {
            assert(<D::DescribeTuple as DescribeTuple>::describes(e4, T4::shape()));
        }
        tuple.describe_element(e4)?;
        let e5 = T5::describe(describer)?;
        proof {
            assert(<D::DescribeTuple as DescribeTuple>::describes(e5, T5::shape()));
        }
        tuple.describe_element(e5)?;
        let e6 = T6::describe(describer)?;
        proof {
            assert(<D::DescribeTuple as DescribeTuple>::describes(e6, T6::shape()));
        }
        tuple.describe_element(e6)?;
        let e7 = T7::describe(describer)?;
        proof {
            assert(<D::DescribeTuple as DescribeTuple>::describes(e7, T7::shape()));
        }
        tuple.describe_element(e7)?;
        let e8 = T8::describe(describer)?;
        proof {
            assert(<D::DescribeTuple as DescribeTuple>::describes(e8, T8::shape()));
        }
        tuple.describe_element(e8)?;
        let e9 = T9::describe(describer)?;
        proof {
            assert(<D::DescribeTuple as DescribeTuple>::describes(e9, T9::shape()));
        }
        tuple.describe_element(e9)?;
        let e10 = T10::describe(describer)?;
        proof {
            assert(<D::DescribeTuple as DescribeTuple>::describes(e10, T10::shape()));
        }
        tuple.describe_element(e10)?;
        let e11 = T11::describe(describer)?;
        proof {
            assert(<D::DescribeTuple as DescribeTuple>::describes(e11, T11::shape()));
        }
        tuple.describe_element(e11)?;
        let e12 = T12::describe(describer)?;
        proof {
            assert(<D::DescribeTuple as DescribeTuple>::describes(e12, T12::shape()));
        }
        tuple.describe_element(e12)?;
        proof {
            assert(tuple.elements() =~= seq![T1::shape(), T2::shape(), T3::shape(), T4::shape(), T5::shape(), T6::shape(), T7::shape(), T8::shape(), T9::shape(), T10::shape(), T11::shape(), T12::shape()]);
        }
        tuple.end()
    }
}

impl<T1: Describe, T2: Describe, T3: Describe, T4: Describe, T5: Describe, T6: Describe, T7: Describe, T8: Describe, T9: Describe, T10: Describe, T11: Describe, T12: Describe, T13: Describe> Describe for (T1, T2, T3, T4, T5, T6, T7, T8, T9, T10, T11, T12, T13) {
    open spec fn shape() -> Shape {
        Shape::Tuple(seq![T1::shape(), T2::shape(), T3::shape(), T4::shape(), T5::shape(), T6::shape(), T7::shape(), T8::shape(), T9::shape(), T10::shape(), T11::shape(), T12::shape(), T13::shape()])
    }

    open spec fn ident() -> TypeNameView {
        generic_name("()"@, ""@, seq![T1::ident(), T2::ident(), T3::ident(), T4::ident(), T5::ident(), T6::ident(), T7::ident(), T8::ident(), T9::ident(), T10::ident(), T11::ident(), T12::ident(), T13::ident()])
    }

    fn typename() -> (r: TypeName) {
        let args = vec![T1::typename(), T2::typename(), T3::typename(), T4::typename(), T5::typename(), T6::typename(), T7::typename(), T8::typename(), T9::typename(), T10::typename(), T11::typename(), T12::typename(), T13::typename()];
        proof {
            assert(names_view(args@) =~= seq![T1::ident(), T2::ident(), T3::ident(), T4::ident(), T5::ident(), T6::ident(), T7::ident(), T8::ident(), T9::ident(), T10::ident(), T11::ident(), T12::ident(), T13::ident()]);
        }
        TypeName::generic("()", "", args)
    }

    fn describe<D: Describer>(describer: D) -> (r: Result<D::Ok, D::Error>) {
        let mut tuple = describer.describe_tuple()?;
        let e1 = T1::describe(describer)?;
        proof {
            assert(<D::DescribeTuple as DescribeTuple>::describes(e1, T1::shape()));
        }
        tuple.describe_element(e1)?;
        let e2 = T2::describe(describer)?;
        proof {
            assert(<D::DescribeTuple as DescribeTuple>::describes(e2, T2::shape()));
        }
        tuple.describe_element(e2)?;
        let e3 = T3::describe(describer)?;
        proof {
            assert(<D::DescribeTuple as DescribeTuple>::describes(e3, T3::shape()));
        }
        tuple.describe_element(e3)?;
        let e4 = T4::describe(describer)?;
        proof {
            assert(<D::DescribeTuple as DescribeTuple>::describes(e4, T4::shape()));
        }
        tuple.describe_element(e4)?;
        let e5 = T5::describe(describer)?;
        proof {
            assert(<D::DescribeTuple as DescribeTuple>::describes(e5, T5::shape()));
        }
        tuple.describe_element(e5)?;
        let e6 = T6::describe(describer)?;
        proof {
            assert(<D::DescribeTuple as DescribeTuple>::describes(e6, T6::shape()));
        }
        tuple.describe_element(e6)?;
        let e7 = T7::describe(describer)?;
        proof {
            assert(<D::DescribeTuple as DescribeTuple>::describes(e7, T7::shape()));
        }
        tuple.describe_element(e7)?;
        let e8 = T8::describe(describer)?;
        proof {
            assert(<D::DescribeTuple as DescribeTuple>::describes(e8, T8::shape()));
        }
        tuple.describe_element(e8)?;
        let e9 = T9::describe(describer)?;
        proof {
            assert(<D::DescribeTuple as DescribeTuple>::describes(e9, T9::shape()));
        }
        tuple.describe_element(e9)?;
        let e10 = T10::describe(describer)?;
        proof {
            assert(<D::DescribeTuple as DescribeTuple>::describes(e10, T10::shape()));
        }
        tuple.describe_element(e10)?;
        let e11 = T11::describe(describer)?;
        proof {
            assert(<D::DescribeTuple as DescribeTuple>::describes(e11, T11::shape()));
        }
        tuple.describe_element(e11)?;
        let e12 = T12::describe(describer)?;
        proof {
            assert(<D::DescribeTuple as DescribeTuple>::describes(e12, T12::shape()));
        }
        tuple.describe_element(e12)?;
        let e13 = T13::describe(describer)?;
        proof {
            assert(<D::DescribeTuple as DescribeTuple>::describes(e13, T13::shape()));
        }
        tuple.describe_element(e13)?;
        proof {
            assert(tuple.elements() =~= seq![T1::shape(), T2::shape(), T3::shape(), T4::shape(), T5::shape(), T6::shape(), T7::shape(), T8::shape(), T9::shape(), T10::shape(), T11::shape(), T12::shape(), T13::shape()]);
        }
        tuple.end()
    }
}

impl<T1: Describe, T2: Describe, T3: Describe, T4: Describe, T5: Describe, T6: Describe, T7: Describe, T8: Describe, T9: Describe, T10: Describe, T11: Describe, T12: Describe, T13: Describe, T14: Describe> Describe for (T1, T2, T3, T4, T5, T6, T7, T8, T9, T10, T11, T12, T13, T14) {
    open spec fn shape() -> Shape {
        Shape::Tuple(seq![T1::shape(), T2::shape(), T3::shape(), T4::shape(), T5::shape(), T6::shape(), T7::shape(), T8::shape(), T9::shape(), T10::shape(), T11::shape(), T12::shape(), T13::shape(), T14::shape()])
    }

    open spec fn ident() -> TypeNameView {
        generic_name("()"@, ""@, seq![T1::ident(), T2::ident(), T3::ident(), T4::ident(), T5::ident(), T6::ident(), T7::ident(), T8::ident(), T9::ident(), T10::ident(), T11::ident(), T12::ident(), T13::ident(), T14::ident()])
    }

    fn typename() -> (r: TypeName) {
        let args = vec![T1::typename(), T2::typename(), T3::typename(), T4::typename(), T5::typename(), T6::typename(), T7::typename(), T8::typename(), T9::typename(), T10::typename(), T11::typename(), T12::typename(), T13::typename(), T14::typename()];
        proof {
            assert(names_view(args@) =~= seq![T1::ident(), T2::ident(), T3::ident(), T4::ident(), T5::ident(), T6::ident(), T7::ident(), T8::ident(), T9::ident(), T10::ident(), T11::ident(), T12::ident(), T13::ident(), T14::ident()]);
        }
        TypeName::generic("()", "", args)
    }

    fn describe<D: Describer>(describer: D) -> (r: Result<D::Ok, D::Error>) {
        let mut tuple = describer.describe_tuple()?;
        let e1 = T1::describe(describer)?;
        proof {
            assert(<D::DescribeTuple as DescribeTuple>::describes(e1, T1::shape()));
        }
        tuple.describe_element(e1)?;
        let e2 = T2::describe(describer)?;
        proof {
            assert(<D::DescribeTuple as DescribeTuple>::describes(e2, T2::shape()));
        }
        tuple.describe_element(e2)?;
        let e3 = T3::describe(describer)?;
        proof {
            assert(<D::DescribeTuple as DescribeTuple>::describes(e3, T3::shape()));
        }
        tuple.describe_element(e3)?;
        let e4 = T4::describe(describer)?;
        proof {
            assert(<D::DescribeTuple as DescribeTuple>::describes(e4, T4::shape()));
        }
        tuple.describe_element(e4)?;
        let e5 = T5::describe(describer)?;
        proof {
            assert(<D::DescribeTuple as DescribeTuple>::describes(e5, T5::shape()));
        }
        tuple.describe_element(e5)?;
        let e6 = T6::describe(describer)?;
        proof {
            assert(<D::DescribeTuple as DescribeTuple>::describes(e6, T6::shape()));
        }
        tuple.describe_element(e6)?;
        let e7 = T7::describe(describer)?;
        proof {
            assert(<D::DescribeTuple as DescribeTuple>::describes(e7, T7::shape()));
        }
        tuple.describe_element(e7)?;
        let e8 = T8::describe(describer)?;
        proof {
            assert(<D::DescribeTuple as DescribeTuple>::describes(e8, T8::shape()));
        }
        tuple.describe_element(e8)?;
        let e9 = T9::describe(describer)?;
        proof {
            assert(<D::DescribeTuple as DescribeTuple>::describes(e9, T9::shape()));
        }
        tuple.describe_element(e9)?;
        let e10 = T10::describe(describer)?;
        proof {
            assert(<D::DescribeTuple as DescribeTuple>::describes(e10, T10::shape()));
        }
        tuple.describe_element(e10)?;
        let e11 = T11::describe(describer)?;
        proof {
            assert(<D::DescribeTuple as DescribeTuple>::describes(e11, T11::shape()));
        }
        tuple.describe_element(e11)?;
        let e12 = T12::describe(describer)?;
        proof {
            assert(<D::DescribeTuple as DescribeTuple>::describes(e12, T12::shape()));
        }
        tuple.describe_element(e12)?;
        let e13 = T13::describe(describer)?;
        proof {
            assert(<D::DescribeTuple as DescribeTuple>::describes(e13, T13::shape()));
        }
        tuple.describe_element(e13)?;
        let e14 = T14::describe(describer)?;
        proof {
            assert(<D::DescribeTuple as DescribeTuple>::describes(e14, T14::shape()));
        }
        tuple.describe_element(e14)?;
        proof {
            assert(tuple.elements() =~= seq![T1::shape(), T2::shape(), T3::shape(), T4::shape(), T5::shape(), T6::shape(), T7::shape(), T8::shape(), T9::shape(), T10::shape(), T11::shape(), T12::shape(), T13::shape(), T14::shape()]);
        }
        tuple.end()
    }
}

impl<T1: Describe, T2: Describe, T3: Describe, T4: Describe, T5: Describe, T6: Describe, T7: Describe, T8: Describe, T9: Describe, T10: Describe, T11: Describe, T12: Describe, T13: Describe, T14: Describe, T15: Describe> Describe for (T1, T2, T3, T4, T5, T6, T7, T8, T9, T10, T11, T12, T13, T14, T15) {
    open spec fn shape() -> Shape {
        Shape::Tuple(seq![T1::shape(), T2::shape(), T3::shape(), T4::shape(), T5::shape(), T6::shape(), T7::shape(), T8::shape(), T9::shape(), T10::shape(), T11::shape(), T12::shape(), T13::shape(), T14::shape(), T15::shape()])
    }

    open spec fn ident() -> TypeNameView {
        generic_name("()"@, ""@, seq![T1::ident(), T2::ident(), T3::ident(), T4::ident(), T5::ident(), T6::ident(), T7::ident(), T8::ident(), T9::ident(), T10::ident(), T11::ident(), T12::ident(), T13::ident(), T14::ident(), T15::ident()])
    }

    fn typename() -> (r: TypeName) {
        let args = vec![T1::typename(), T2::typename(), T3::typename(), T4::typename(), T5::typename(), T6::typename(), T7::typename(), T8::typename(), T9::typename(), T10::typename(), T11::typename(), T12::typename(), T13::typename(), T14::typename(), T15::typename()];
        proof {
            assert(names_view(args@) =~= seq![T1::ident(), T2::ident(), T3::ident(), T4::ident(), T5::ident(), T6::ident(), T7::ident(), T8::ident(), T9::ident(), T10::ident(), T11::ident(), T12::ident(), T13::ident(), T14::ident(), T15::ident()]);
        }
        TypeName::generic("()", "", args)
    }

    fn describe<D: Describer>(describer: D) -> (r: Result<D::Ok, D::Error>) {
        let mut tuple = describer.describe_tuple()?;
        let e1 = T1::describe(describer)?;
        proof {
            assert(<D::DescribeTuple as DescribeTuple>::describes(e1, T1::shape()));
        }
        tuple.describe_element(e1)?;
        let e2 = T2::describe(describer)?;
        proof {
            assert(<D::DescribeTuple as DescribeTuple>::describes(e2, T2::shape()));
        }
        tuple.describe_element(e2)?;
        let e3 = T3::describe(describer)?;
        proof {
            assert(<D::DescribeTuple as DescribeTuple>::describes(e3, T3::shape()));
        }
        tuple.describe_element(e3)?;
        let e4 = T4::describe(describer)?;
        proof {
            assert(<D::DescribeTuple as DescribeTuple>::describes(e4, T4::shape()));
        }
        tuple.describe_element(e4)?;
        let e5 = T5::describe(describer)?;
        proof {
            assert(<D::DescribeTuple as DescribeTuple>::describes(e5, T5::shape()));
        }
        tuple.describe_element(e5)?;
        let e6 = T6::describe(describer)?;
        proof {
            assert(<D::DescribeTuple as DescribeTuple>::describes(e6, T6::shape()));
        }
        tuple.describe_element(e6)?;
        let e7 = T7::describe(describer)?;
        proof {
            assert(<D::DescribeTuple as DescribeTuple>::describes(e7, T7::shape()));
        }
        tuple.describe_element(e7)?;
        let e8 = T8::describe(describer)?;
        proof {
            assert(<D::DescribeTuple as DescribeTuple>::describes(e8, T8::shape()));
        }
        tuple.describe_element(e8)?;
        let e9 = T9::describe(describer)?;
        proof {
            assert(<D::DescribeTuple as DescribeTuple>::describes(e9, T9::shape()));
        }
        tuple.describe_element(e9)?;
        let e10 = T10::describe(describer)?;
        proof {
            assert(<D::DescribeTuple as DescribeTuple>::describes(e10, T10::shape()));
        }
        tuple.describe_element(e10)?;
        let e11 = T11::describe(describer)?;
        proof {
            assert(<D::DescribeTuple as DescribeTuple>::describes(e11, T11::shape()));
        }
        tuple.describe_element(e11)?;
        let e12 = T12::describe(describer)?;
        proof {
            assert(<D::DescribeTuple as DescribeTuple>::describes(e12, T12::shape()));
        }
        tuple.describe_element(e12)?;
        let e13 = T13::describe(describer)?;
        proof {
            assert(<D::DescribeTuple as DescribeTuple>::describes(e13, T13::shape()));
        }
        tuple.describe_element(e13)?;
        let e14 = T14::describe(describer)?;
        proof {
            assert(<D::DescribeTuple as DescribeTuple>::describes(e14, T14::shape()));
        }
        tuple.describe_element(e14)?;
        let e15 = T15::describe(describer)?;
        proof {
            assert(<D::DescribeTuple as DescribeTuple>::describes(e15, T15::shape()));
        }
        tuple.describe_element(e15)?;
        proof {
            assert(tuple.elements() =~= seq![T1::shape(), T2::shape(), T3::shape(), T4::shape(), T5::shape(), T6::shape(), T7::shape(), T8::shape(), T9::shape(), T10::shape(), T11::shape(), T12::shape(), T13::shape(), T14::shape(), T15::shape()]);
        }
        tuple.end()
    }
}

impl<T1: Describe, T2: Describe, T3: Describe, T4: Describe, T5: Describe, T6: Describe, T7: Describe, T8: Describe, T9: Describe, T10: Describe, T11: Describe, T12: Describe, T13: Describe, T14: Describe, T15: Describe, T16: Describe> Describe for (T1, T2, T3, T4, T5, T6, T7, T8, T9, T10, T11, T12, T13, T14, T15, T16) {
    open spec fn shape() -> Shape {
        Shape::Tuple(seq![T1::shape(), T2::shape(), T3::shape(), T4::shape(), T5::shape(), T6::shape(), T7::shape(), T8::shape(), T9::shape(), T10::shape(), T11::shape(), T12::shape(), T13::shape(), T14::shape(), T15::shape(), T16::shape()])
    }

    open spec fn ident() -> TypeNameView {
        generic_name("()"@, ""@, seq![T1::ident(), T2::ident(), T3::ident(), T4::ident(), T5::ident(), T6::ident(), T7::ident(), T8::ident(), T9::ident(), T10::ident(), T11::ident(), T12::ident(), T13::ident(), T14::ident(), T15::ident(), T16::ident()])
    }

    fn typename() -> (r: TypeName) {
        let args = vec![T1::typename(), T2::typename(), T3::typename(), T4::typename(), T5::typename(), T6::typename(), T7::typename(), T8::typename(), T9::typename(), T10::typename(), T11::typename(), T12::typename(), T13::typename(), T14::typename(), T15::typename(), T16::typename()];
        proof {
            assert(names_view(args@) =~= seq![T1::ident(), T2::ident(), T3::ident(), T4::ident(), T5::ident(), T6::ident(), T7::ident(), T8::ident(), T9::ident(), T10::ident(), T11::ident(), T12::ident(), T13::ident(), T14::ident(), T15::ident(), T16::ident()]);
        }
        TypeName::generic("()", "", args)
    }

    fn describe<D: Describer>(describer: D) -> (r: Result<D::Ok, D::Error>) {
        let mut tuple = describer.describe_tuple()?;
        let e1 = T1::describe(describer)?;
        proof {
            assert(<D::DescribeTuple as DescribeTuple>::describes(e1, T1::shape()));
        }
        tuple.describe_element(e1)?;
        let e2 = T2::describe(describer)?;
        proof {
            assert(<D::DescribeTuple as DescribeTuple>::describes(e2, T2::shape()));
        }
        tuple.describe_element(e2)?;
        let e3 = T3::describe(describer)?;
        proof {
            assert(<D::DescribeTuple as DescribeTuple>::describes(e3, T3::shape()));
        }
        tuple.describe_element(e3)?;
        let e4 = T4::describe(describer)?;
        proof {
            assert(<D::DescribeTuple as DescribeTuple>::describes(e4, T4::shape()));
        }
        tuple.describe_element(e4)?;
        let e5 = T5::describe(describer)?;
        proof {
            assert(<D::DescribeTuple as DescribeTuple>::describes(e5, T5::shape()));
        }
        tuple.describe_element(e5)?;
        let e6 = T6::describe(describer)?;
        proof {
            assert(<D::DescribeTuple as DescribeTuple>::describes(e6, T6::shape()));
        }
        tuple.describe_element(e6)?;
        let e7 = T7::describe(describer)?;
        proof {
            assert(<D::DescribeTuple as DescribeTuple>::describes(e7, T7::shape()));
        }
        tuple.describe_element(e7)?;
        let e8 = T8::describe(describer)?;
        proof {
            assert(<D::DescribeTuple as DescribeTuple>::describes(e8, T8::shape()));
        }
        tuple.describe_element(e8)?;
        let e9 = T9::describe(describer)?;
        proof {
            assert(<D::DescribeTuple as DescribeTuple>::describes(e9, T9::shape()));
        }
        tuple.describe_element(e9)?;
        let e10 = T10::describe(describer)?;
        proof {
            assert(<D::DescribeTuple as DescribeTuple>::describes(e10, T10::shape()));
        }
        tuple.describe_element(e10)?;
        let e11 = T11::describe(describer)?;
        proof {
            assert(<D::DescribeTuple as DescribeTuple>::describes(e11, T11::shape()));
        }
        tuple.describe_element(e11)?;
        let e12 = T12::describe(describer)?;
        proof {
            assert(<D::DescribeTuple as DescribeTuple>::describes(e12, T12::shape()));
        }
        tuple.describe_element(e12)?;
        let e13 = T13::describe(describer)?;
        proof {
            assert(<D::DescribeTuple as DescribeTuple>::describes(e13, T13::shape()));
        }
        tuple.describe_element(e13)?;
        let e14 = T14::describe(describer)?;
        proof {
            assert(<D::DescribeTuple as DescribeTuple>::describes(e14, T14::shape()));
        }
        tuple.describe_element(e14)?;
        let e15 = T15::describe(describer)?;
        proof {
            assert(<D::DescribeTuple as DescribeTuple>::describes(e15, T15::shape()));
        }
        tuple.describe_element(e15)?;
        let e16 = T16::describe(describer)?;
        proof {
            assert(<D::DescribeTuple as DescribeTuple>::describes(e16, T16::shape()));
        }
        tuple.describe_element(e16)?;
        proof {
            assert(tuple.elements() =~= seq![T1::shape(), T2::shape(), T3::shape(), T4::shape(), T5::shape(), T6::shape(), T7::shape(), T8::shape(), T9::shape(), T10::shape(), T11::shape(), T12::shape(), T13::shape(), T14::shape(), T15::shape(), T16::shape()]);
        }
        tuple.end()
    }
}

} // verus!
