//! The in-memory schema tree and its view as a [`Shape`].
use vstd::prelude::*;

use crate::decimal::{signed_text, unsigned_text};
use crate::shape::{carries_data, signed_decimal, Shape, TypeNameView, VariantShape};
use crate::TypeName;

verus! {

/// In-memory representation of a type tree.
#[derive(Debug, PartialEq, Eq, Hash)]
pub enum Schema {
    Unit,
    Bool,
    Char,
    I8,
    I16,
    I32,
    I64,
    I128,
    ISize,
    U8,
    U16,
    U32,
    U64,
    U128,
    USize,
    F32,
    F64,
    Str,
    String(TypeName),
    Option(Box<Schema>),
    Tuple(Vec<Schema>),
    Array(Box<Array>),
    Slice(Box<Schema>),
    Sequence(Box<Sequence>),
    Mapping(Box<Mapping>),
    UnitStruct(UnitStruct),
    Struct(Struct),
    TupleStruct(TupleStruct),
    NewtypeStruct(Box<NewtypeStruct>),
    Enum(Enum),
}

/// A fixed-length homogeneous sequence.
#[derive(Debug, PartialEq, Eq, Hash)]
pub struct Array {
    pub element: Schema,
    pub len: usize,
}

/// A named collection type holding elements of one type.
#[derive(Debug, PartialEq, Eq, Hash)]
pub struct Sequence {
    pub name: TypeName,
    pub element: Schema,
    pub len: Option<usize>,
}

/// A named collection type mapping keys to values.
#[derive(Debug, PartialEq, Eq, Hash)]
pub struct Mapping {
    pub name: TypeName,
    pub key: Schema,
    pub value: Schema,
}

#[derive(Debug, PartialEq, Eq, Hash)]
pub struct UnitStruct {
    pub name: TypeName,
}

#[derive(Debug, PartialEq, Eq, Hash)]
pub struct NewtypeStruct {
    pub name: TypeName,
    pub inner: Schema,
}

#[derive(Debug, PartialEq, Eq, Hash)]
pub struct Struct {
    pub name: TypeName,
    pub fields: Vec<(String, Schema)>,
}

#[derive(Debug, PartialEq, Eq, Hash)]
pub struct TupleStruct {
    pub name: TypeName,
    pub elements: Vec<Schema>,
}

#[derive(Debug, PartialEq, Eq, Hash)]
pub struct Enum {
    pub name: TypeName,
    /// The explicit integer representation of the enum, if it has one.
    pub repr: Option<Primitive>,
    pub variants: Vec<Variant>,
}

/// One alternative of an enum.
#[derive(Debug, PartialEq, Eq, Hash)]
pub enum Variant {
    Unit { name: String, discriminant: Option<PrimitiveValue> },
    Struct { name: String, fields: Vec<(String, Schema)> },
    Tuple { name: String, elements: Vec<Schema> },
}

/// The integer types that can represent an enum.
#[derive(Debug, Clone, Copy, PartialEq, Eq, Hash)]
pub enum Primitive {
    U8,
    U16,
    U32,
    U64,
    U128,
    Usize,
    I8,
    I16,
    I32,
    I64,
    I128,
    Isize,
}

/// An explicit discriminant of an enum variant.
#[derive(Debug, Clone, Copy, PartialEq, Eq, Hash)]
pub enum PrimitiveValue {
    U8(u8),
    U16(u16),
    U32(u32),
    U64(u64),
    U128(u128),
    Usize(usize),
    I8(i8),
    I16(i16),
    I32(i32),
    I64(i64),
    I128(i128),
    Isize(isize),
}

impl Schema {
    /// The name of a user-defined type: a struct of any shape or an enum.
    /// Every other schema has none.
    pub fn typename(&self) -> (r: Option<&TypeName>)
        ensures
            r is Some <== (self is Struct || self is UnitStruct || self is NewtypeStruct || self is TupleStruct || self is Enum),
            r is Some ==> (self is Struct || self is UnitStruct || self is NewtypeStruct || self is TupleStruct || self is Enum),
            self is Struct ==> r == Some(&self->Struct_0.name),
            self is UnitStruct ==> r == Some(&self->UnitStruct_0.name),
            self is NewtypeStruct ==> r == Some(&self->NewtypeStruct_0.name),
            self is TupleStruct ==> r == Some(&self->TupleStruct_0.name),
            self is Enum ==> r == Some(&self->Enum_0.name),
    {
        match self {
            Schema::Struct(schema) => Some(&schema.name),
            Schema::UnitStruct(schema) => Some(&schema.name),
            Schema::NewtypeStruct(schema) => Some(&schema.name),
            Schema::TupleStruct(schema) => Some(&schema.name),
            Schema::Enum(schema) => Some(&schema.name),
            _ => None,
        }
    }

    pub fn as_struct(&self) -> (r: Option<&Struct>)
        ensures
            r is Some <==> self is Struct,
            self is Struct ==> r == Some(&self->Struct_0),
    {
        match self {
            Schema::Struct(schema) => Some(schema),
            _ => None,
        }
    }

    pub fn as_tuple_struct(&self) -> (r: Option<&TupleStruct>)
        ensures
            r is Some <==> self is TupleStruct,
            self is TupleStruct ==> r == Some(&self->TupleStruct_0),
    {
        match self {
            Schema::TupleStruct(schema) => Some(schema),
            _ => None,
        }
    }

    pub fn as_newtype_struct(&self) -> (r: Option<&NewtypeStruct>)
        ensures
            r is Some <==> self is NewtypeStruct,
            self is NewtypeStruct ==> r == Some(&*self->NewtypeStruct_0),
    {
        match self {
            Schema::NewtypeStruct(schema) => Some(schema),
            _ => None,
        }
    }

    pub fn as_unit_struct(&self) -> (r: Option<&UnitStruct>)
        ensures
            r is Some <==> self is UnitStruct,
            self is UnitStruct ==> r == Some(&self->UnitStruct_0),
    {
        match self {
            Schema::UnitStruct(schema) => Some(schema),
            _ => None,
        }
    }

    /// Any of the four struct shapes, as a name and a list of fields.
    pub fn as_struct_like(&self) -> (r: Option<StructLike<'_>>)
        ensures
            r is Some <==> (self is Struct || self is TupleStruct || self is NewtypeStruct || self is UnitStruct),
            self is Struct ==> r->Some_0.name == &self->Struct_0.name && lists_named(r->Some_0.fields@, self->Struct_0.fields@),
            self is TupleStruct ==> r->Some_0.name == &self->TupleStruct_0.name && lists_unnamed(r->Some_0.fields@, self->TupleStruct_0.elements@),
            self is NewtypeStruct ==> r->Some_0.name == &self->NewtypeStruct_0.name && lists_unnamed(r->Some_0.fields@, seq![self->NewtypeStruct_0.inner]),
            self is UnitStruct ==> r->Some_0.name == &self->UnitStruct_0.name && r->Some_0.fields@.len() == 0,
    {
        match self {
            Schema::Struct(schema) => Some(StructLike { name: &schema.name, fields: schema.fields() }),
            Schema::TupleStruct(schema) => Some(StructLike { name: &schema.name, fields: schema.fields() }),
            Schema::NewtypeStruct(schema) => Some(StructLike { name: &schema.name, fields: schema.fields() }),
            Schema::UnitStruct(schema) => Some(StructLike { name: &schema.name, fields: Vec::new() }),
            _ => None,
        }
    }

    pub fn as_enum(&self) -> (r: Option<&Enum>)
        ensures
            r is Some <==> self is Enum,
            self is Enum ==> r == Some(&self->Enum_0),
    {
        match self {
            Schema::Enum(inner) => Some(inner),
            _ => None,
        }
    }
}

impl Enum {
    /// Whether any variant of the enum carries field data.
    ///
    /// Struct-like and tuple-like variants declared with no fields carry none.
    pub fn has_data(&self) -> (r: bool)
        ensures
            r == carries_data(variants_view(self.variants@)),
            r == exists|i: int| 0 <= i < self.variants@.len() && !(#[trigger] self.variants@[i])@.is_empty(),
    {
        let mut i: usize = 0;
        while i < self.variants.len()
            invariant
                0 <= i <= self.variants@.len(),
                forall|k: int| 0 <= k < i ==> (#[trigger] self.variants@[k])@.is_empty(),
            decreases self.variants@.len() - i,
        {
            if !self.variants[i].is_empty() {
                proof {
                    lemma_variants_view_len(self.variants@);
                    lemma_variants_view_index(self.variants@, i as int);
                }
                return true;
            }
            i = i + 1;
        }
        proof {
            lemma_variants_view_len(self.variants@);
            assert forall|k: int| 0 <= k < variants_view(self.variants@).len() implies (#[trigger] variants_view(self.variants@)[k]).is_empty() by {
                lemma_variants_view_index(self.variants@, k);
            }
        }
        false
    }
}

impl Variant {
    pub fn name(&self) -> (r: &str)
        ensures
            r@ == self@.name(),
    {
        match self {
            Variant::Unit { name, .. } => name.as_str(),
            Variant::Struct { name, .. } => name.as_str(),
            Variant::Tuple { name, .. } => name.as_str(),
        }
    }

    /// True for unit variants, and for struct-like and tuple-like variants
    /// without fields.
    pub fn is_empty(&self) -> (r: bool)
        ensures
            r == self@.is_empty(),
    {
        proof {
            lemma_views_len(*self);
        }
        match self {
            Variant::Unit { .. } => true,
            Variant::Struct { fields, .. } => fields.len() == 0,
            Variant::Tuple { elements, .. } => elements.len() == 0,
        }
    }

    /// The fields of the variant: none for a unit variant, named ones for a
    /// struct-like variant, positional ones for a tuple-like variant.
    pub fn fields(&self) -> (r: Vec<Field<'_>>)
        ensures
            self is Unit ==> r@.len() == 0,
            self is Struct ==> lists_named(r@, self->Struct_fields@),
            self is Tuple ==> lists_unnamed(r@, self->Tuple_elements@),
    {
        match self {
            Variant::Unit { .. } => Vec::new(),
            Variant::Struct { fields, .. } => named_fields(fields),
            Variant::Tuple { elements, .. } => unnamed_fields(elements),
        }
    }
}

impl PrimitiveValue {
    /// The integer the value stands for.
    pub open spec fn value(self) -> int {
        match self {
            PrimitiveValue::U8(x) => x as int,
            PrimitiveValue::U16(x) => x as int,
            PrimitiveValue::U32(x) => x as int,
            PrimitiveValue::U64(x) => x as int,
            PrimitiveValue::U128(x) => x as int,
            PrimitiveValue::Usize(x) => x as int,
            PrimitiveValue::I8(x) => x as int,
            PrimitiveValue::I16(x) => x as int,
            PrimitiveValue::I32(x) => x as int,
            PrimitiveValue::I64(x) => x as int,
            PrimitiveValue::I128(x) => x as int,
            PrimitiveValue::Isize(x) => x as int,
        }
    }

    /// The value in decimal, with a leading `-` when it is negative.
    pub fn to_string(&self) -> (r: String)
        ensures
            r@ == signed_decimal(self.value()),
    {
        match *self {
            PrimitiveValue::U8(x) => unsigned_text(x as u128),
            PrimitiveValue::U16(x) => unsigned_text(x as u128),
            PrimitiveValue::U32(x) => unsigned_text(x as u128),
            PrimitiveValue::U64(x) => unsigned_text(x as u128),
            PrimitiveValue::U128(x) => unsigned_text(x as u128),
            PrimitiveValue::Usize(x) => unsigned_text(x as u128),
            PrimitiveValue::I8(x) => signed_text(x as i128),
            PrimitiveValue::I16(x) => signed_text(x as i128),
            PrimitiveValue::I32(x) => signed_text(x as i128),
            PrimitiveValue::I64(x) => signed_text(x as i128),
            PrimitiveValue::I128(x) => signed_text(x as i128),
            PrimitiveValue::Isize(x) => signed_text(x as i128),
        }
    }
}

impl From<u8> for PrimitiveValue {
    fn from(value: u8) -> (r: Self) {
        PrimitiveValue::U8(value)
    }
}

impl vstd::std_specs::convert::FromSpecImpl<u8> for PrimitiveValue {
    open spec fn obeys_from_spec() -> bool {
        true
    }

    open spec fn from_spec(v: u8) -> Self {
        PrimitiveValue::U8(v)
    }
}

impl From<u16> for PrimitiveValue {
    fn from(value: u16) -> (r: Self) {
        PrimitiveValue::U16(value)
    }
}

impl vstd::std_specs::convert::FromSpecImpl<u16> for PrimitiveValue {
    open spec fn obeys_from_spec() -> bool {
        true
    }

    open spec fn from_spec(v: u16) -> Self {
        PrimitiveValue::U16(v)
    }
}

impl From<u32> for PrimitiveValue {
    fn from(value: u32) -> (r: Self) {
        PrimitiveValue::U32(value)
    }
}

impl vstd::std_specs::convert::FromSpecImpl<u32> for PrimitiveValue {
    open spec fn obeys_from_spec() -> bool {
        true
    }

    open spec fn from_spec(v: u32) -> Self {
        PrimitiveValue::U32(v)
    }
}

impl From<u64> for PrimitiveValue {
    fn from(value: u64) -> (r: Self) {
        PrimitiveValue::U64(value)
    }
}

impl vstd::std_specs::convert::FromSpecImpl<u64> for PrimitiveValue {
    open spec fn obeys_from_spec() -> bool {
        true
    }

    open spec fn from_spec(v: u64) -> Self {
        PrimitiveValue::U64(v)
    }
}

impl From<u128> for PrimitiveValue {
    fn from(value: u128) -> (r: Self) {
        PrimitiveValue::U128(value)
    }
}

impl vstd::std_specs::convert::FromSpecImpl<u128> for PrimitiveValue {
    open spec fn obeys_from_spec() -> bool {
        true
    }

    open spec fn from_spec(v: u128) -> Self {
        PrimitiveValue::U128(v)
    }
}

impl From<usize> for PrimitiveValue {
    fn from(value: usize) -> (r: Self) {
        PrimitiveValue::Usize(value)
    }
}

impl vstd::std_specs::convert::FromSpecImpl<usize> for PrimitiveValue {
    open spec fn obeys_from_spec() -> bool {
        true
    }

    open spec fn from_spec(v: usize) -> Self {
        PrimitiveValue::Usize(v)
    }
}

impl From<i8> for PrimitiveValue {
    fn from(value: i8) -> (r: Self) {
        PrimitiveValue::I8(value)
    }
}

impl vstd::std_specs::convert::FromSpecImpl<i8> for PrimitiveValue {
    open spec fn obeys_from_spec() -> bool {
        true
    }

    open spec fn from_spec(v: i8) -> Self {
        PrimitiveValue::I8(v)
    }
}

impl From<i16> for PrimitiveValue {
    fn from(value: i16) -> (r: Self) {
        PrimitiveValue::I16(value)
    }
}

impl vstd::std_specs::convert::FromSpecImpl<i16> for PrimitiveValue {
    open spec fn obeys_from_spec() -> bool {
        true
    }

    open spec fn from_spec(v: i16) -> Self {
        PrimitiveValue::I16(v)
    }
}

impl From<i32> for PrimitiveValue {
    fn from(value: i32) -> (r: Self) {
        PrimitiveValue::I32(value)
    }
}

impl vstd::std_specs::convert::FromSpecImpl<i32> for PrimitiveValue {
    open spec fn obeys_from_spec() -> bool {
        true
    }

    open spec fn from_spec(v: i32) -> Self {
        PrimitiveValue::I32(v)
    }
}

impl From<i64> for PrimitiveValue {
    fn from(value: i64) -> (r: Self) {
        PrimitiveValue::I64(value)
    }
}

impl vstd::std_specs::convert::FromSpecImpl<i64> for PrimitiveValue {
    open spec fn obeys_from_spec() -> bool {
        true
    }

    open spec fn from_spec(v: i64) -> Self {
        PrimitiveValue::I64(v)
    }
}

impl From<i128> for PrimitiveValue {
    fn from(value: i128) -> (r: Self) {
        PrimitiveValue::I128(value)
    }
}

impl vstd::std_specs::convert::FromSpecImpl<i128> for PrimitiveValue {
    open spec fn obeys_from_spec() -> bool {
        true
    }

    open spec fn from_spec(v: i128) -> Self {
        PrimitiveValue::I128(v)
    }
}

impl From<isize> for PrimitiveValue {
    fn from(value: isize) -> (r: Self) {
        PrimitiveValue::Isize(value)
    }
}

impl vstd::std_specs::convert::FromSpecImpl<isize> for PrimitiveValue {
    open spec fn obeys_from_spec() -> bool {
        true
    }

    open spec fn from_spec(v: isize) -> Self {
        PrimitiveValue::Isize(v)
    }
}


fn clone_schema(s: &Schema) -> (r: Schema)
    ensures
        r@ == s@,
    decreases s,
{
    match s {
        Schema::Unit => Schema::Unit,
        Schema::Bool => Schema::Bool,
        Schema::Char => Schema::Char,
        Schema::I8 => Schema::I8,
        Schema::I16 => Schema::I16,
        Schema::I32 => Schema::I32,
        Schema::I64 => Schema::I64,
        Schema::I128 => Schema::I128,
        Schema::ISize => Schema::ISize,
        Schema::U8 => Schema::U8,
        Schema::U16 => Schema::U16,
        Schema::U32 => Schema::U32,
        Schema::U64 => Schema::U64,
        Schema::U128 => Schema::U128,
        Schema::USize => Schema::USize,
        Schema::F32 => Schema::F32,
        Schema::F64 => Schema::F64,
        Schema::Str => Schema::Str,
        Schema::String(n) => Schema::String(n.clone()),
        Schema::Option(b) => Schema::Option(Box::new(clone_schema(b))),
        Schema::Tuple(v) => Schema::Tuple(clone_schemas(v)),
        Schema::Array(a) => Schema::Array(Box::new(Array { element: clone_schema(&a.element), len: a.len })),
        Schema::Slice(b) => Schema::Slice(Box::new(clone_schema(b))),
        Schema::Sequence(q) => Schema::Sequence(Box::new(Sequence { name: q.name.clone(), element: clone_schema(&q.element), len: q.len })),
        Schema::Mapping(m) => Schema::Mapping(Box::new(Mapping { name: m.name.clone(), key: clone_schema(&m.key), value: clone_schema(&m.value) })),
        Schema::UnitStruct(u) => Schema::UnitStruct(UnitStruct { name: u.name.clone() }),
        Schema::Struct(t) => Schema::Struct(Struct { name: t.name.clone(), fields: clone_fields(&t.fields) }),
        Schema::TupleStruct(t) => Schema::TupleStruct(TupleStruct { name: t.name.clone(), elements: clone_schemas(&t.elements) }),
        Schema::NewtypeStruct(n) => Schema::NewtypeStruct(Box::new(NewtypeStruct { name: n.name.clone(), inner: clone_schema(&n.inner) })),
        Schema::Enum(e) => Schema::Enum(Enum { name: e.name.clone(), repr: e.repr, variants: clone_variants(&e.variants) }),
    }
}

fn clone_schemas(v: &Vec<Schema>) -> (r: Vec<Schema>)
    ensures
        schemas_view(r@) == schemas_view(v@),
    decreases v,
{
    let mut r: Vec<Schema> = Vec::new();
    let mut i: usize = 0;
    while i < v.len()
        invariant
            0 <= i <= v@.len(),
            schemas_view(r@) == schemas_view(v@.take(i as int)),
        decreases v@.len() - i,
    {
        let c = clone_schema(&v[i]);
        proof {
            lemma_schemas_view_push(r@, c);
            lemma_schemas_view_push(v@.take(i as int), v@[i as int]);
            assert(v@.take(i as int).push(v@[i as int]) =~= v@.take(i as int + 1));
        }
        r.push(c);
        i = i + 1;
    }
    proof {
        assert(v@.take(v@.len() as int) =~= v@);
    }
    r
}

fn clone_fields(v: &Vec<(String, Schema)>) -> (r: Vec<(String, Schema)>)
    ensures
        fields_view(r@) == fields_view(v@),
    decreases v,
{
    let mut r: Vec<(String, Schema)> = Vec::new();
    let mut i: usize = 0;
    while i < v.len()
        invariant
            0 <= i <= v@.len(),
            fields_view(r@) == fields_view(v@.take(i as int)),
        decreases v@.len() - i,
    {
        let c = (v[i].0.clone(), clone_schema(&v[i].1));
        proof {
            lemma_fields_view_push(r@, c);
            lemma_fields_view_push(v@.take(i as int), v@[i as int]);
            assert(v@.take(i as int).push(v@[i as int]) =~= v@.take(i as int + 1));
        }
        r.push(c);
        i = i + 1;
    }
    proof {
        assert(v@.take(v@.len() as int) =~= v@);
    }
    r
}

fn clone_variant(v: &Variant) -> (r: Variant)
    ensures
        r@ == v@,
    decreases v,
{
    match v {
        Variant::Unit { name, discriminant } => Variant::Unit { name: name.clone(), discriminant: *discriminant },
        Variant::Struct { name, fields } => Variant::Struct { name: name.clone(), fields: clone_fields(fields) },
        Variant::Tuple { name, elements } => Variant::Tuple { name: name.clone(), elements: clone_schemas(elements) },
    }
}

fn clone_variants(v: &Vec<Variant>) -> (r: Vec<Variant>)
    ensures
        variants_view(r@) == variants_view(v@),
    decreases v,
{
    let mut r: Vec<Variant> = Vec::new();
    let mut i: usize = 0;
    while i < v.len()
        invariant
            0 <= i <= v@.len(),
            variants_view(r@) == variants_view(v@.take(i as int)),
        decreases v@.len() - i,
    {
        let c = clone_variant(&v[i]);
        proof {
            lemma_variants_view_push(r@, c);
            lemma_variants_view_push(v@.take(i as int), v@[i as int]);
            assert(v@.take(i as int).push(v@[i as int]) =~= v@.take(i as int + 1));
        }
        r.push(c);
        i = i + 1;
    }
    proof {
        assert(v@.take(v@.len() as int) =~= v@);
    }
    r
}

impl Clone for Schema {
    /// A deep copy: the copy has the same shape.
    fn clone(&self) -> (r: Self)
        ensures
            r@ == self@,
    {
        clone_schema(self)
    }
}

impl Clone for Variant {
    fn clone(&self) -> (r: Self)
        ensures
            r@ == self@,
    {
        clone_variant(self)
    }
}

impl Clone for UnitStruct {
    fn clone(&self) -> (r: Self)
        ensures
            r == *self,
    {
        UnitStruct { name: self.name.clone() }
    }
}

impl Clone for Array {
    fn clone(&self) -> (r: Self)
        ensures
            r.element@ == self.element@,
            r.len == self.len,
    {
        Array { element: clone_schema(&self.element), len: self.len }
    }
}

impl Clone for Sequence {
    fn clone(&self) -> (r: Self)
        ensures
            r.name == self.name,
            r.element@ == self.element@,
            r.len == self.len,
    {
        Sequence { name: self.name.clone(), element: clone_schema(&self.element), len: self.len }
    }
}

impl Clone for Mapping {
    fn clone(&self) -> (r: Self)
        ensures
            r.name == self.name,
            r.key@ == self.key@,
            r.value@ == self.value@,
    {
        Mapping { name: self.name.clone(), key: clone_schema(&self.key), value: clone_schema(&self.value) }
    }
}

impl Clone for NewtypeStruct {
    fn clone(&self) -> (r: Self)
        ensures
            r.name == self.name,
            r.inner@ == self.inner@,
    {
        NewtypeStruct { name: self.name.clone(), inner: clone_schema(&self.inner) }
    }
}

impl Clone for Struct {
    fn clone(&self) -> (r: Self)
        ensures
            r.name == self.name,
            fields_view(r.fields@) == fields_view(self.fields@),
    {
        Struct { name: self.name.clone(), fields: clone_fields(&self.fields) }
    }
}

impl Clone for TupleStruct {
    fn clone(&self) -> (r: Self)
        ensures
            r.name == self.name,
            schemas_view(r.elements@) == schemas_view(self.elements@),
    {
        TupleStruct { name: self.name.clone(), elements: clone_schemas(&self.elements) }
    }
}

impl Clone for Enum {
    fn clone(&self) -> (r: Self)
        ensures
            r.name == self.name,
            r.repr == self.repr,
            variants_view(r.variants@) == variants_view(self.variants@),
    {
        Enum { name: self.name.clone(), repr: self.repr, variants: clone_variants(&self.variants) }
    }
}

/// A uniform view of one field of a struct, a tuple struct or an enum variant:
/// the name is absent for a positional field.
#[derive(Debug, Clone, PartialEq, Eq, Hash)]
pub struct Field<'a> {
    pub name: Option<&'a str>,
    pub schema: &'a Schema,
}

impl<'a> Field<'a> {
    pub fn new(name: Option<&'a str>, schema: &'a Schema) -> (r: Self)
        ensures
            r.name == name,
            r.schema == schema,
    {
        Field { name, schema }
    }

    pub fn named(name: &'a str, schema: &'a Schema) -> (r: Self)
        ensures
            r.name == Some(name),
            r.schema == schema,
    {
        Field { name: Some(name), schema }
    }

    pub fn unnamed(schema: &'a Schema) -> (r: Self)
        ensures
            r.name.is_none(),
            r.schema == schema,
    {
        Field { name: None, schema }
    }
}

/// `fields` lists the named fields `src`, in order.
pub open spec fn lists_named(fields: Seq<Field>, src: Seq<(String, Schema)>) -> bool {
    &&& fields.len() == src.len()
    &&& forall|i: int| 0 <= i < src.len() ==> {
        &&& (#[trigger] fields[i]).name is Some
        &&& fields[i].name->Some_0@ == src[i].0@
        &&& *fields[i].schema == src[i].1
    }
}

/// `fields` lists the positional fields `src`, in order.
pub open spec fn lists_unnamed(fields: Seq<Field>, src: Seq<Schema>) -> bool {
    &&& fields.len() == src.len()
    &&& forall|i: int| 0 <= i < src.len() ==> {
        &&& (#[trigger] fields[i]).name is None
        &&& *fields[i].schema == src[i]
    }
}

fn named_fields<'a>(src: &'a Vec<(String, Schema)>) -> (r: Vec<Field<'a>>)
    ensures
        lists_named(r@, src@),
{
    let mut r: Vec<Field<'a>> = Vec::new();
    let mut i: usize = 0;
    while i < src.len()
        invariant
            0 <= i <= src@.len(),
            lists_named(r@, src@.take(i as int)),
        decreases src@.len() - i,
    {
        let entry = &src[i];
        r.push(Field::named(entry.0.as_str(), &entry.1));
        i = i + 1;
    }
    proof {
        assert(src@.take(src@.len() as int) =~= src@);
    }
    r
}

fn unnamed_fields<'a>(src: &'a Vec<Schema>) -> (r: Vec<Field<'a>>)
    ensures
        lists_unnamed(r@, src@),
{
    let mut r: Vec<Field<'a>> = Vec::new();
    let mut i: usize = 0;
    while i < src.len()
        invariant
            0 <= i <= src@.len(),
            lists_unnamed(r@, src@.take(i as int)),
        decreases src@.len() - i,
    {
        r.push(Field::unnamed(&src[i]));
        i = i + 1;
    }
    proof {
        assert(src@.take(src@.len() as int) =~= src@);
    }
    r
}

impl NewtypeStruct {
    /// The one positional field of the struct.
    pub fn fields(&self) -> (r: Vec<Field<'_>>)
        ensures
            r@.len() == 1,
            r@[0].name is None,
            *r@[0].schema == self.inner,
    {
        vec![Field::unnamed(&self.inner)]
    }
}

impl Struct {
    /// The named fields of the struct, in declaration order.
    pub fn fields(&self) -> (r: Vec<Field<'_>>)
        ensures
            lists_named(r@, self.fields@),
    {
        named_fields(&self.fields)
    }
}

impl TupleStruct {
    /// The positional fields of the struct, in declaration order.
    pub fn fields(&self) -> (r: Vec<Field<'_>>)
        ensures
            lists_unnamed(r@, self.elements@),
    {
        unnamed_fields(&self.elements)
    }
}

/// A uniform view of the four struct shapes: a name and a list of fields.
#[derive(Debug, Clone, PartialEq, Eq, Hash)]
pub struct StructLike<'a> {
    pub name: &'a TypeName,
    pub fields: Vec<Field<'a>>,
}

impl<'a> From<&'a Struct> for StructLike<'a> {
    fn from(from: &'a Struct) -> (r: Self) {
        StructLike { name: &from.name, fields: from.fields() }
    }
}

impl<'a> vstd::std_specs::convert::FromSpecImpl<&'a Struct> for StructLike<'a> {
    open spec fn obeys_from_spec() -> bool {
        false
    }

    open spec fn from_spec(v: &'a Struct) -> Self {
        arbitrary()
    }
}

impl<'a> From<&'a TupleStruct> for StructLike<'a> {
    fn from(from: &'a TupleStruct) -> (r: Self) {
        StructLike { name: &from.name, fields: from.fields() }
    }
}

impl<'a> vstd::std_specs::convert::FromSpecImpl<&'a TupleStruct> for StructLike<'a> {
    open spec fn obeys_from_spec() -> bool {
        false
    }

    open spec fn from_spec(v: &'a TupleStruct) -> Self {
        arbitrary()
    }
}

impl<'a> From<&'a NewtypeStruct> for StructLike<'a> {
    fn from(from: &'a NewtypeStruct) -> (r: Self) {
        StructLike { name: &from.name, fields: from.fields() }
    }
}

impl<'a> vstd::std_specs::convert::FromSpecImpl<&'a NewtypeStruct> for StructLike<'a> {
    open spec fn obeys_from_spec() -> bool {
        false
    }

    open spec fn from_spec(v: &'a NewtypeStruct) -> Self {
        arbitrary()
    }
}

impl<'a> From<&'a UnitStruct> for StructLike<'a> {
    fn from(from: &'a UnitStruct) -> (r: Self) {
        StructLike { name: &from.name, fields: Vec::new() }
    }
}

impl<'a> vstd::std_specs::convert::FromSpecImpl<&'a UnitStruct> for StructLike<'a> {
    open spec fn obeys_from_spec() -> bool {
        false
    }

    open spec fn from_spec(v: &'a UnitStruct) -> Self {
        arbitrary()
    }
}

pub open spec fn schema_view(s: Schema) -> Shape
    decreases s,
{
    match s {
        Schema::Unit => Shape::Unit,
        Schema::Bool => Shape::Bool,
        Schema::Char => Shape::Char,
        Schema::I8 => Shape::I8,
        Schema::I16 => Shape::I16,
        Schema::I32 => Shape::I32,
        Schema::I64 => Shape::I64,
        Schema::I128 => Shape::I128,
        Schema::ISize => Shape::ISize,
        Schema::U8 => Shape::U8,
        Schema::U16 => Shape::U16,
        Schema::U32 => Shape::U32,
        Schema::U64 => Shape::U64,
        Schema::U128 => Shape::U128,
        Schema::USize => Shape::USize,
        Schema::F32 => Shape::F32,
        Schema::F64 => Shape::F64,
        Schema::Str => Shape::Str,
        Schema::String(n) => Shape::String(n@),
        Schema::Option(b) => Shape::Option(Box::new(schema_view(*b))),
        Schema::Tuple(v) => Shape::Tuple(schemas_view(v@)),
        Schema::Array(a) => Shape::Array { element: Box::new(schema_view(a.element)), len: a.len as nat },
        Schema::Slice(b) => Shape::Slice(Box::new(schema_view(*b))),
        Schema::Sequence(q) => Shape::Sequence {
            name: q.name@,
            element: Box::new(schema_view(q.element)),
            len: match q.len {
                Some(n) => Some(n as nat),
                None => None,
            },
        },
        Schema::Mapping(m) => Shape::Mapping {
            name: m.name@,
            key: Box::new(schema_view(m.key)),
            value: Box::new(schema_view(m.value)),
        },
        Schema::UnitStruct(u) => Shape::UnitStruct { name: u.name@ },
        Schema::Struct(s) => Shape::Struct { name: s.name@, fields: fields_view(s.fields@) },
        Schema::TupleStruct(t) => Shape::TupleStruct { name: t.name@, elements: schemas_view(t.elements@) },
        Schema::NewtypeStruct(n) => Shape::NewtypeStruct { name: n.name@, inner: Box::new(schema_view(n.inner)) },
        Schema::Enum(e) => Shape::Enum { name: e.name@, repr: e.repr, variants: variants_view(e.variants@) },
    }
}

pub open spec fn schemas_view(s: Seq<Schema>) -> Seq<Shape>
    decreases s,
{
    if s.len() == 0 {
        Seq::empty()
    } else {
        schemas_view(s.drop_last()).push(schema_view(s.last()))
    }
}

pub open spec fn fields_view(s: Seq<(String, Schema)>) -> Seq<(Seq<char>, Shape)>
    decreases s,
{
    if s.len() == 0 {
        Seq::empty()
    } else {
        fields_view(s.drop_last()).push((s.last().0@, schema_view(s.last().1)))
    }
}

pub open spec fn variant_view(v: Variant) -> VariantShape
    decreases v,
{
    match v {
        Variant::Unit { name, discriminant } => VariantShape::Unit { name: name@, discriminant },
        Variant::Struct { name, fields } => VariantShape::Struct { name: name@, fields: fields_view(fields@) },
        Variant::Tuple { name, elements } => VariantShape::Tuple { name: name@, elements: schemas_view(elements@) },
    }
}

pub open spec fn variants_view(s: Seq<Variant>) -> Seq<VariantShape>
    decreases s,
{
    if s.len() == 0 {
        Seq::empty()
    } else {
        variants_view(s.drop_last()).push(variant_view(s.last()))
    }
}

impl View for Schema {
    type V = Shape;

    open spec fn view(&self) -> Shape {
        schema_view(*self)
    }
}

impl View for Variant {
    type V = VariantShape;

    open spec fn view(&self) -> VariantShape {
        variant_view(*self)
    }
}

pub proof fn lemma_schemas_view_push(s: Seq<Schema>, x: Schema)
    ensures
        schemas_view(s.push(x)) == schemas_view(s).push(x@),
{
    assert(s.push(x).drop_last() =~= s);
}

pub proof fn lemma_fields_view_push(s: Seq<(String, Schema)>, x: (String, Schema))
    ensures
        fields_view(s.push(x)) == fields_view(s).push((x.0@, x.1@)),
{
    assert(s.push(x).drop_last() =~= s);
}

pub proof fn lemma_variants_view_push(s: Seq<Variant>, x: Variant)
    ensures
        variants_view(s.push(x)) == variants_view(s).push(x@),
{
    assert(s.push(x).drop_last() =~= s);
}

pub proof fn lemma_schemas_view_len(s: Seq<Schema>)
    ensures
        schemas_view(s).len() == s.len(),
    decreases s.len(),
{
    if s.len() > 0 {
        lemma_schemas_view_len(s.drop_last());
    }
}

pub proof fn lemma_fields_view_len(s: Seq<(String, Schema)>)
    ensures
        fields_view(s).len() == s.len(),
    decreases s.len(),
{
    if s.len() > 0 {
        lemma_fields_view_len(s.drop_last());
    }
}

proof fn lemma_views_len(v: Variant)
    ensures
        v is Struct ==> fields_view(v->Struct_fields@).len() == v->Struct_fields@.len(),
        v is Tuple ==> schemas_view(v->Tuple_elements@).len() == v->Tuple_elements@.len(),
{
    if v is Struct {
        lemma_fields_view_len(v->Struct_fields@);
    }
    if v is Tuple {
        lemma_schemas_view_len(v->Tuple_elements@);
    }
}

pub proof fn lemma_variants_view_len(s: Seq<Variant>)
    ensures
        variants_view(s).len() == s.len(),
    decreases s.len(),
{
    if s.len() > 0 {
        lemma_variants_view_len(s.drop_last());
    }
}

pub proof fn lemma_variants_view_index(s: Seq<Variant>, i: int)
    requires
        0 <= i < s.len(),
    ensures
        variants_view(s)[i] == s[i]@,
    decreases s.len(),
{
    lemma_variants_view_len(s.drop_last());
    if i < s.len() - 1 {
        lemma_variants_view_index(s.drop_last(), i);
    }
}

} // verus!
