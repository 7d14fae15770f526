//! The mathematical model of a type's shape.
//!
//! Every executable [`Schema`](crate::Schema) has a view of type [`Shape`]; the
//! contracts of the description protocol are stated over shapes.
use vstd::prelude::*;

use crate::schema::{Primitive, PrimitiveValue};

verus! {

/// The identity of a named type: its local name and the path of its module.
pub struct TypeNameView {
    pub name: Seq<char>,
    pub module: Seq<char>,
}

/// The shape of a type, as a plain tree of values.
#[allow(inconsistent_fields)]
pub enum Shape {
    Unit,
    Bool,
    Char,
    I8,
    I16,
    I32,
    I64,
    I128,
    ISize,
    U8,
    U16,
    U32,
    U64,
    U128,
    USize,
    F32,
    F64,
    Str,
    String(TypeNameView),
    Option(Box<Shape>),
    Tuple(Seq<Shape>),
    Array { element: Box<Shape>, len: nat },
    Slice(Box<Shape>),
    Sequence { name: TypeNameView, element: Box<Shape>, len: Option<nat> },
    Mapping { name: TypeNameView, key: Box<Shape>, value: Box<Shape> },
    UnitStruct { name: TypeNameView },
    Struct { name: TypeNameView, fields: Seq<(Seq<char>, Shape)> },
    TupleStruct { name: TypeNameView, elements: Seq<Shape> },
    NewtypeStruct { name: TypeNameView, inner: Box<Shape> },
    Enum { name: TypeNameView, repr: Option<Primitive>, variants: Seq<VariantShape> },
}

/// The shape of one alternative of a sum type.
pub enum VariantShape {
    Unit { name: Seq<char>, discriminant: Option<PrimitiveValue> },
    Struct { name: Seq<char>, fields: Seq<(Seq<char>, Shape)> },
    Tuple { name: Seq<char>, elements: Seq<Shape> },
}

impl VariantShape {
    pub open spec fn name(self) -> Seq<char> {
        match self {
            VariantShape::Unit { name, .. } => name,
            VariantShape::Struct { name, .. } => name,
            VariantShape::Tuple { name, .. } => name,
        }
    }

    /// A variant is empty when it carries no field at all.
    pub open spec fn is_empty(self) -> bool {
        match self {
            VariantShape::Unit { .. } => true,
            VariantShape::Struct { fields, .. } => fields.len() == 0,
            VariantShape::Tuple { elements, .. } => elements.len() == 0,
        }
    }
}

/// An enum carries data when at least one of its variants is not empty.
pub open spec fn carries_data(variants: Seq<VariantShape>) -> bool {
    exists|i: int| 0 <= i < variants.len() && !(#[trigger] variants[i]).is_empty()
}

/// The name of a type with the path of its module in front, as `module::name`.
pub open spec fn qualified(t: TypeNameView) -> Seq<char> {
    if t.module.len() == 0 {
        t.name
    } else {
        t.module + "::"@ + t.name
    }
}

/// The qualified names of `args`, separated by `", "`.
pub open spec fn joined(args: Seq<TypeNameView>) -> Seq<char>
    decreases args.len(),
{
    if args.len() == 0 {
        Seq::empty()
    } else if args.len() == 1 {
        qualified(args[0])
    } else {
        joined(args.drop_last()) + ", "@ + qualified(args.last())
    }
}

/// The name of a generic type applied to `args`: `name<arg, arg, ...>`.
pub open spec fn composite(name: Seq<char>, args: Seq<TypeNameView>) -> Seq<char> {
    name + "<"@ + joined(args) + ">"@
}

/// The identity of the generic type `name` of `module` applied to `args`.
pub open spec fn generic_name(name: Seq<char>, module: Seq<char>, args: Seq<TypeNameView>) -> TypeNameView {
    TypeNameView { name: composite(name, args), module }
}

/// The decimal digits of `n`, most significant first.
pub open spec fn decimal(n: nat) -> Seq<char>
    decreases n,
{
    if n < 10 {
        seq![digit(n)]
    } else {
        decimal(n / 10).push(digit(n % 10))
    }
}

pub open spec fn digit(d: nat) -> char {
    if d == 0 { '0' }
    else if d == 1 { '1' }
    else if d == 2 { '2' }
    else if d == 3 { '3' }
    else if d == 4 { '4' }
    else if d == 5 { '5' }
    else if d == 6 { '6' }
    else if d == 7 { '7' }
    else if d == 8 { '8' }
    else { '9' }
}

/// A signed integer in decimal, with a leading `-` when it is negative.
pub open spec fn signed_decimal(n: int) -> Seq<char> {
    if n < 0 {
        seq!['-'] + decimal((-n) as nat)
    } else {
        decimal(n as nat)
    }
}

} // verus!
