//! The description protocol: what a describable type reports, and the visitor
//! that receives the reports.
use vstd::prelude::*;

use crate::schema::PrimitiveValue;
use crate::shape::{Shape, TypeNameView, VariantShape};
use crate::TypeName;

verus! {

/// A data type that can report its own shape.
pub trait Describe: Sized {
    /// The shape of the type. Every verified implementation states it; the
    /// default leaves it unknown, so no implementation that keeps the default can
    /// prove the contract of `describe`.
    open spec fn shape() -> Shape {
        arbitrary()
    }

    /// The identity of the type; the default leaves it unknown, as for `shape`.
    open spec fn ident() -> TypeNameView {
        arbitrary()
    }

    /// The unique name identifying the type.
    fn typename() -> (r: TypeName)
        ensures
            r@ == Self::ident(),
    ;

    /// Reports the shape of the type to `describer`, by one call of its
    /// shape-reporting operations.
    fn describe<D: Describer>(describer: D) -> (r: Result<D::Ok, D::Error>)
        ensures
            r is Ok ==> D::describes(r->Ok_0, Self::shape()),
            D::total() ==> r is Ok,
    ;
}

/// A schema format: receives the shape of a type, one operation per shape.
///
/// The spec functions of this trait and of the builder traits default to unknown
/// values: a describer written outside verified code need not give them, and a
/// verified one states them to prove the operations' contracts.
///
/// Describers are cheap handles: a type describes its members with copies of the
/// describer it was given, and hands their results to the operation for its own
/// shape.
pub trait Describer: Sized + Copy {
    type Ok;
    type Error;
    type DescribeStruct: DescribeStruct<Ok = Self::Ok, Error = Self::Error>;
    type DescribeTupleStruct: DescribeTupleStruct<Ok = Self::Ok, Error = Self::Error>;
    type DescribeEnum: DescribeEnum<Ok = Self::Ok, Error = Self::Error>;
    type DescribeTuple: DescribeTuple<Ok = Self::Ok, Error = Self::Error>;

    /// `ok` is a description of a type of shape `s`.
    open spec fn describes(ok: Self::Ok, s: Shape) -> bool {
        arbitrary()
    }

    /// Every operation of this describer succeeds.
    open spec fn total() -> bool {
        arbitrary()
    }

    fn describe_bool(self) -> (r: Result<Self::Ok, Self::Error>)
        ensures
            r is Ok ==> Self::describes(r->Ok_0, Shape::Bool),
            Self::total() ==> r is Ok,
    ;

    fn describe_i8(self) -> (r: Result<Self::Ok, Self::Error>)
        ensures
            r is Ok ==> Self::describes(r->Ok_0, Shape::I8),
            Self::total() ==> r is Ok,
    ;

    fn describe_i16(self) -> (r: Result<Self::Ok, Self::Error>)
        ensures
            r is Ok ==> Self::describes(r->Ok_0, Shape::I16),
            Self::total() ==> r is Ok,
    ;

    fn describe_i32(self) -> (r: Result<Self::Ok, Self::Error>)
        ensures
            r is Ok ==> Self::describes(r->Ok_0, Shape::I32),
            Self::total() ==> r is Ok,
    ;

    fn describe_i64(self) -> (r: Result<Self::Ok, Self::Error>)
        ensures
            r is Ok ==> Self::describes(r->Ok_0, Shape::I64),
            Self::total() ==> r is Ok,
    ;

    fn describe_i128(self) -> (r: Result<Self::Ok, Self::Error>)
        ensures
            r is Ok ==> Self::describes(r->Ok_0, Shape::I128),
            Self::total() ==> r is Ok,
    ;

    fn describe_isize(self) -> (r: Result<Self::Ok, Self::Error>)
        ensures
            r is Ok ==> Self::describes(r->Ok_0, Shape::ISize),
            Self::total() ==> r is Ok,
    ;

    fn describe_u8(self) -> (r: Result<Self::Ok, Self::Error>)
        ensures
            r is Ok ==> Self::describes(r->Ok_0, Shape::U8),
            Self::total() ==> r is Ok,
    ;

    fn describe_u16(self) -> (r: Result<Self::Ok, Self::Error>)
        ensures
            r is Ok ==> Self::describes(r->Ok_0, Shape::U16),
            Self::total() ==> r is Ok,
    ;

    fn describe_u32(self) -> (r: Result<Self::Ok, Self::Error>)
        ensures
            r is Ok ==> Self::describes(r->Ok_0, Shape::U32),
            Self::total() ==> r is Ok,
    ;

    fn describe_u64(self) -> (r: Result<Self::Ok, Self::Error>)
        ensures
            r is Ok ==> Self::describes(r->Ok_0, Shape::U64),
            Self::total() ==> r is Ok,
    ;

    fn describe_u128(self) -> (r: Result<Self::Ok, Self::Error>)
        ensures
            r is Ok ==> Self::describes(r->Ok_0, Shape::U128),
            Self::total() ==> r is Ok,
    ;

    fn describe_usize(self) -> (r: Result<Self::Ok, Self::Error>)
        ensures
            r is Ok ==> Self::describes(r->Ok_0, Shape::USize),
            Self::total() ==> r is Ok,
    ;

    fn describe_f32(self) -> (r: Result<Self::Ok, Self::Error>)
        ensures
            r is Ok ==> Self::describes(r->Ok_0, Shape::F32),
            Self::total() ==> r is Ok,
    ;

    fn describe_f64(self) -> (r: Result<Self::Ok, Self::Error>)
        ensures
            r is Ok ==> Self::describes(r->Ok_0, Shape::F64),
            Self::total() ==> r is Ok,
    ;

    fn describe_char(self) -> (r: Result<Self::Ok, Self::Error>)
        ensures
            r is Ok ==> Self::describes(r->Ok_0, Shape::Char),
            Self::total() ==> r is Ok,
    ;

    fn describe_str(self) -> (r: Result<Self::Ok, Self::Error>)
        ensures
            r is Ok ==> Self::describes(r->Ok_0, Shape::Str),
            Self::total() ==> r is Ok,
    ;

    fn describe_unit(self) -> (r: Result<Self::Ok, Self::Error>)
        ensures
            r is Ok ==> Self::describes(r->Ok_0, Shape::Unit),
            Self::total() ==> r is Ok,
    ;

    fn describe_string(self, name: TypeName) -> (r: Result<Self::Ok, Self::Error>)
        ensures
            r is Ok ==> Self::describes(r->Ok_0, Shape::String(name@)),
            Self::total() ==> r is Ok,
    ;

    /// Describes an optional value whose description is `inner`.
    fn describe_option(self, inner: Self::Ok) -> (r: Result<Self::Ok, Self::Error>)
        ensures
            forall|s: Shape| #[trigger] Self::describes(inner, s) ==> (r is Ok ==> Self::describes(r->Ok_0, Shape::Option(Box::new(s)))),
            Self::total() ==> r is Ok,
    ;

    /// Describes a fixed-size array of `len` elements described by `element`.
    fn describe_array(self, element: Self::Ok, len: usize) -> (r: Result<Self::Ok, Self::Error>)
        ensures
            forall|s: Shape| #[trigger] Self::describes(element, s) ==> (r is Ok ==> Self::describes(r->Ok_0, Shape::Array { element: Box::new(s), len: len as nat })),
            Self::total() ==> r is Ok,
    ;

    /// Describes a slice of elements described by `element`.
    fn describe_slice(self, element: Self::Ok) -> (r: Result<Self::Ok, Self::Error>)
        ensures
            forall|s: Shape| #[trigger] Self::describes(element, s) ==> (r is Ok ==> Self::describes(r->Ok_0, Shape::Slice(Box::new(s)))),
            Self::total() ==> r is Ok,
    ;

    /// Describes a named type that logically is a sequence of elements described
    /// by `element`; `len` is given only where the length is known statically.
    fn describe_seq(self, name: TypeName, element: Self::Ok, len: Option<usize>) -> (r: Result<Self::Ok, Self::Error>)
        ensures
            forall|s: Shape| #[trigger] Self::describes(element, s) ==> (r is Ok ==> Self::describes(
                r->Ok_0,
                Shape::Sequence { name: name@, element: Box::new(s), len: match len { Some(n) => Some(n as nat), None => None } },
            )),
            Self::total() ==> r is Ok,
    ;

    /// Describes a named type that maps keys described by `key` to values
    /// described by `value`.
    fn describe_map(self, name: TypeName, key: Self::Ok, value: Self::Ok) -> (r: Result<Self::Ok, Self::Error>)
        ensures
            forall|k: Shape, v: Shape| #[trigger] Self::describes(key, k) && #[trigger] Self::describes(value, v) ==> (r is Ok ==> Self::describes(
                r->Ok_0,
                Shape::Mapping { name: name@, key: Box::new(k), value: Box::new(v) },
            )),
            Self::total() ==> r is Ok,
    ;

    fn describe_unit_struct(self, name: TypeName) -> (r: Result<Self::Ok, Self::Error>)
        ensures
            r is Ok ==> Self::describes(r->Ok_0, Shape::UnitStruct { name: name@ }),
            Self::total() ==> r is Ok,
    ;

    /// Describes a struct with one unnamed field described by `inner`.
    fn describe_newtype_struct(self, name: TypeName, inner: Self::Ok) -> (r: Result<Self::Ok, Self::Error>)
        ensures
            forall|s: Shape| #[trigger] Self::describes(inner, s) ==> (r is Ok ==> Self::describes(r->Ok_0, Shape::NewtypeStruct { name: name@, inner: Box::new(s) })),
            Self::total() ==> r is Ok,
    ;

    /// Starts a tuple; its elements follow through the returned builder.
    fn describe_tuple(self) -> (r: Result<Self::DescribeTuple, Self::Error>)
        ensures
            r is Ok ==> r->Ok_0.elements() == Seq::<Shape>::empty(),
            Self::total() ==> r is Ok,
            Self::DescribeTuple::total() == Self::total(),
            forall|o: Self::Ok, s: Shape| #[trigger] Self::DescribeTuple::describes(o, s) == Self::describes(o, s),
    ;

    /// Starts a struct with named fields; they follow through the returned builder.
    fn describe_struct(self, name: TypeName) -> (r: Result<Self::DescribeStruct, Self::Error>)
        ensures
            r is Ok ==> r->Ok_0.name() == name@ && r->Ok_0.fields() == Seq::<(Seq<char>, Shape)>::empty(),
            Self::total() ==> r is Ok,
            Self::DescribeStruct::total() == Self::total(),
            forall|o: Self::Ok, s: Shape| #[trigger] Self::DescribeStruct::describes(o, s) == Self::describes(o, s),
    ;

    /// Starts a struct with unnamed fields; they follow through the returned builder.
    fn describe_tuple_struct(self, name: TypeName) -> (r: Result<Self::DescribeTupleStruct, Self::Error>)
        ensures
            r is Ok ==> r->Ok_0.name() == name@ && r->Ok_0.elements() == Seq::<Shape>::empty(),
            Self::total() ==> r is Ok,
            Self::DescribeTupleStruct::total() == Self::total(),
            forall|o: Self::Ok, s: Shape| #[trigger] Self::DescribeTupleStruct::describes(o, s) == Self::describes(o, s),
    ;

    /// Starts a sum type; its variants follow through the returned builder.
    fn describe_enum(self, name: TypeName) -> (r: Result<Self::DescribeEnum, Self::Error>)
        ensures
            r is Ok ==> r->Ok_0.name() == name@ && r->Ok_0.variants() == Seq::<VariantShape>::empty(),
            Self::total() ==> r is Ok,
            Self::DescribeEnum::total() == Self::total(),
            forall|o: Self::Ok, s: Shape| #[trigger] Self::DescribeEnum::describes(o, s) == Self::describes(o, s),
    ;
}

/// Accumulates the elements of a tuple.
pub trait DescribeTuple: Sized {
    type Ok;
    type Error;

    open spec fn describes(ok: Self::Ok, s: Shape) -> bool {
        arbitrary()
    }

    open spec fn total() -> bool {
        arbitrary()
    }

    /// The shapes of the elements so far, in order.
    open spec fn elements(&self) -> Seq<Shape> {
        arbitrary()
    }

    /// Appends an element described by `element`.
    fn describe_element(&mut self, element: Self::Ok) -> (r: Result<(), Self::Error>)
        ensures
            forall|s: Shape| #[trigger] Self::describes(element, s) ==> (r is Ok ==> final(self).elements() == old(self).elements().push(s)),
            Self::total() ==> r is Ok,
    ;

    fn end(self) -> (r: Result<Self::Ok, Self::Error>)
        ensures
            r is Ok ==> Self::describes(r->Ok_0, Shape::Tuple(self.elements())),
            Self::total() ==> r is Ok,
    ;
}

/// Accumulates the named fields of a struct.
pub trait DescribeStruct: Sized {
    type Ok;
    type Error;

    open spec fn describes(ok: Self::Ok, s: Shape) -> bool {
        arbitrary()
    }

    open spec fn total() -> bool {
        arbitrary()
    }

    open spec fn name(&self) -> TypeNameView {
        arbitrary()
    }

    /// The names and shapes of the fields so far, in order.
    open spec fn fields(&self) -> Seq<(Seq<char>, Shape)> {
        arbitrary()
    }

    /// Appends the field `name`, described by `field`.
    fn describe_field(&mut self, name: &str, field: Self::Ok) -> (r: Result<(), Self::Error>)
        ensures
            r is Ok ==> final(self).name() == old(self).name(),
            forall|s: Shape| #[trigger] Self::describes(field, s) ==> (r is Ok ==> final(self).fields() == old(self).fields().push((name@, s))),
            Self::total() ==> r is Ok,
    ;

    fn end(self) -> (r: Result<Self::Ok, Self::Error>)
        ensures
            r is Ok ==> Self::describes(r->Ok_0, Shape::Struct { name: self.name(), fields: self.fields() }),
            Self::total() ==> r is Ok,
    ;
}

/// Accumulates the unnamed fields of a struct.
pub trait DescribeTupleStruct: Sized {
    type Ok;
    type Error;

    open spec fn describes(ok: Self::Ok, s: Shape) -> bool {
        arbitrary()
    }

    open spec fn total() -> bool {
        arbitrary()
    }

    open spec fn name(&self) -> TypeNameView {
        arbitrary()
    }

    /// The shapes of the fields so far, in order.
    open spec fn elements(&self) -> Seq<Shape> {
        arbitrary()
    }

    /// Appends a field described by `element`.
    fn describe_element(&mut self, element: Self::Ok) -> (r: Result<(), Self::Error>)
        ensures
            r is Ok ==> final(self).name() == old(self).name(),
            forall|s: Shape| #[trigger] Self::describes(element, s) ==> (r is Ok ==> final(self).elements() == old(self).elements().push(s)),
            Self::total() ==> r is Ok,
    ;

    fn end(self) -> (r: Result<Self::Ok, Self::Error>)
        ensures
            r is Ok ==> Self::describes(r->Ok_0, Shape::TupleStruct { name: self.name(), elements: self.elements() }),
            Self::total() ==> r is Ok,
    ;
}

/// Accumulates the variants of a sum type.
///
/// A variant with fields is opened by `start_tuple_variant` or
/// `start_struct_variant`, filled through the builder that returns, and handed
/// back to `end_tuple_variant` or `end_struct_variant`, which appends it.
pub trait DescribeEnum: Sized {
    type Ok;
    type Error;
    type DescribeStructVariant: DescribeStructVariant<Ok = Self::Ok, Error = Self::Error>;
    type DescribeTupleVariant: DescribeTupleVariant<Ok = Self::Ok, Error = Self::Error>;

    open spec fn describes(ok: Self::Ok, s: Shape) -> bool {
        arbitrary()
    }

    open spec fn total() -> bool {
        arbitrary()
    }

    open spec fn name(&self) -> TypeNameView {
        arbitrary()
    }

    /// The variants so far, in order.
    open spec fn variants(&self) -> Seq<VariantShape> {
        arbitrary()
    }

    fn describe_unit_variant(&mut self, name: &str, discriminant: Option<PrimitiveValue>) -> (r: Result<(), Self::Error>)
        ensures
            r is Ok ==> final(self).name() == old(self).name(),
            r is Ok ==> final(self).variants() == old(self).variants().push(VariantShape::Unit { name: name@, discriminant }),
            Self::total() ==> r is Ok,
    ;

    fn start_tuple_variant(&mut self, name: &str) -> (r: Result<Self::DescribeTupleVariant, Self::Error>)
        ensures
            r is Ok ==> final(self).name() == old(self).name() && final(self).variants() == old(self).variants(),
            r is Ok ==> r->Ok_0.name() == name@ && r->Ok_0.elements() == Seq::<Shape>::empty(),
            Self::total() ==> r is Ok,
            Self::DescribeTupleVariant::total() == Self::total(),
            forall|o: Self::Ok, s: Shape| #[trigger] Self::DescribeTupleVariant::describes(o, s) == Self::describes(o, s),
    ;

    fn end_tuple_variant(&mut self, variant: Self::DescribeTupleVariant) -> (r: Result<(), Self::Error>)
        ensures
            r is Ok ==> final(self).name() == old(self).name(),
            r is Ok ==> final(self).variants() == old(self).variants().push(
                VariantShape::Tuple { name: variant.name(), elements: variant.elements() },
            ),
            Self::total() ==> r is Ok,
    ;

    fn start_struct_variant(&mut self, name: &str) -> (r: Result<Self::DescribeStructVariant, Self::Error>)
        ensures
            r is Ok ==> final(self).name() == old(self).name() && final(self).variants() == old(self).variants(),
            r is Ok ==> r->Ok_0.name() == name@ && r->Ok_0.fields() == Seq::<(Seq<char>, Shape)>::empty(),
            Self::total() ==> r is Ok,
            Self::DescribeStructVariant::total() == Self::total(),
            forall|o: Self::Ok, s: Shape| #[trigger] Self::DescribeStructVariant::describes(o, s) == Self::describes(o, s),
    ;

    fn end_struct_variant(&mut self, variant: Self::DescribeStructVariant) -> (r: Result<(), Self::Error>)
        ensures
            r is Ok ==> final(self).name() == old(self).name(),
            r is Ok ==> final(self).variants() == old(self).variants().push(
                VariantShape::Struct { name: variant.name(), fields: variant.fields() },
            ),
            Self::total() ==> r is Ok,
    ;

    fn end(self) -> (r: Result<Self::Ok, Self::Error>)
        ensures
            r is Ok ==> Self::describes(r->Ok_0, Shape::Enum { name: self.name(), repr: None, variants: self.variants() }),
            Self::total() ==> r is Ok,
    ;
}

/// Accumulates the unnamed fields of one variant of a sum type.
pub trait DescribeTupleVariant: Sized {
    type Ok;
    type Error;

    open spec fn describes(ok: Self::Ok, s: Shape) -> bool {
        arbitrary()
    }

    open spec fn total() -> bool {
        arbitrary()
    }

    open spec fn name(&self) -> Seq<char> {
        arbitrary()
    }

    open spec fn elements(&self) -> Seq<Shape> {
        arbitrary()
    }

    fn describe_element(&mut self, element: Self::Ok) -> (r: Result<(), Self::Error>)
        ensures
            r is Ok ==> final(self).name() == old(self).name(),
            forall|s: Shape| #[trigger] Self::describes(element, s) ==> (r is Ok ==> final(self).elements() == old(self).elements().push(s)),
            Self::total() ==> r is Ok,
    ;
}

/// Accumulates the named fields of one variant of a sum type.
pub trait DescribeStructVariant: Sized {
    type Ok;
    type Error;

    open spec fn describes(ok: Self::Ok, s: Shape) -> bool {
        arbitrary()
    }

    open spec fn total() -> bool {
        arbitrary()
    }

    open spec fn name(&self) -> Seq<char> {
        arbitrary()
    }

    open spec fn fields(&self) -> Seq<(Seq<char>, Shape)> {
        arbitrary()
    }

    fn describe_field(&mut self, name: &str, field: Self::Ok) -> (r: Result<(), Self::Error>)
        ensures
            r is Ok ==> final(self).name() == old(self).name(),
            forall|s: Shape| #[trigger] Self::describes(field, s) ==> (r is Ok ==> final(self).fields() == old(self).fields().push((name@, s))),
            Self::total() ==> r is Ok,
    ;
}

} // verus!
