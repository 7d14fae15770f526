//! The reference describer, which builds a [`Schema`] tree.
use vstd::prelude::*;
use vstd::string::StringExecFns;

use crate::describe::{
    DescribeEnum, DescribeStruct, DescribeStructVariant, DescribeTuple, DescribeTupleStruct,
    DescribeTupleVariant, Describer,
};
use crate::schema::{
    fields_view, lemma_fields_view_push, lemma_schemas_view_push, lemma_variants_view_push,
    schemas_view, variants_view, Array, Enum, Mapping, NewtypeStruct, PrimitiveValue, Schema,
    Sequence, Struct, TupleStruct, UnitStruct, Variant,
};
use crate::shape::{Shape, TypeNameView, VariantShape};
use crate::TypeName;

verus! {

/// Builds the [`Schema`] of a type; it never fails.
#[derive(Debug, Clone, Copy)]
pub struct SchemaDescriber;

impl Describer for SchemaDescriber {
    type Ok = Schema;
    type Error = ();
    type DescribeStruct = StructDescriber;
    type DescribeTupleStruct = TupleStructDescriber;
    type DescribeEnum = EnumDescriber;
    type DescribeTuple = TupleDescriber;

    open spec fn describes(ok: Schema, s: Shape) -> bool {
        ok@ == s
    }

    open spec fn total() -> bool {
        true
    }

    fn describe_bool(self) -> (r: Result<Schema, ()>) {
        Ok(Schema::Bool)
    }

    fn describe_i8(self) -> (r: Result<Schema, ()>) {
        Ok(Schema::I8)
    }

    fn describe_i16(self) -> (r: Result<Schema, ()>) {
        Ok(Schema::I16)
    }

    fn describe_i32(self) -> (r: Result<Schema, ()>) {
        Ok(Schema::I32)
    }

    fn describe_i64(self) -> (r: Result<Schema, ()>) {
        Ok(Schema::I64)
    }

    fn describe_i128(self) -> (r: Result<Schema, ()>) {
        Ok(Schema::I128)
    }

    fn describe_isize(self) -> (r: Result<Schema, ()>) {
        Ok(Schema::ISize)
    }

    fn describe_u8(self) -> (r: Result<Schema, ()>) {
        Ok(Schema::U8)
    }

    fn describe_u16(self) -> (r: Result<Schema, ()>) {
        Ok(Schema::U16)
    }

    fn describe_u32(self) -> (r: Result<Schema, ()>) {
        Ok(Schema::U32)
    }

    fn describe_u64(self) -> (r: Result<Schema, ()>) {
        Ok(Schema::U64)
    }

    fn describe_u128(self) -> (r: Result<Schema, ()>) {
        Ok(Schema::U128)
    }

    fn describe_usize(self) -> (r: Result<Schema, ()>) {
        Ok(Schema::USize)
    }

    fn describe_f32(self) -> (r: Result<Schema, ()>) {
        Ok(Schema::F32)
    }

    fn describe_f64(self) -> (r: Result<Schema, ()>) {
        Ok(Schema::F64)
    }

    fn describe_char(self) -> (r: Result<Schema, ()>) {
        Ok(Schema::Char)
    }

    fn describe_str(self) -> (r: Result<Schema, ()>) {
        Ok(Schema::Str)
    }

    fn describe_unit(self) -> (r: Result<Schema, ()>) {
        Ok(Schema::Unit)
    }

    fn describe_string(self, name: TypeName) -> (r: Result<Schema, ()>) {
        Ok(Schema::String(name))
    }

    fn describe_option(self, inner: Schema) -> (r: Result<Schema, ()>) {
        Ok(Schema::Option(Box::new(inner)))
    }

    fn describe_array(self, element: Schema, len: usize) -> (r: Result<Schema, ()>) {
        Ok(Schema::Array(Box::new(Array { element, len })))
    }

    fn describe_slice(self, element: Schema) -> (r: Result<Schema, ()>) {
        Ok(Schema::Slice(Box::new(element)))
    }

    fn describe_seq(self, name: TypeName, element: Schema, len: Option<usize>) -> (r: Result<Schema, ()>) {
        Ok(Schema::Sequence(Box::new(Sequence { name, element, len })))
    }

    fn describe_map(self, name: TypeName, key: Schema, value: Schema) -> (r: Result<Schema, ()>) {
        Ok(Schema::Mapping(Box::new(Mapping { name, key, value })))
    }

    fn describe_unit_struct(self, name: TypeName) -> (r: Result<Schema, ()>) {
        Ok(Schema::UnitStruct(UnitStruct { name }))
    }

    fn describe_newtype_struct(self, name: TypeName, inner: Schema) -> (r: Result<Schema, ()>) {
        Ok(Schema::NewtypeStruct(Box::new(NewtypeStruct { name, inner })))
    }

    fn describe_tuple(self) -> (r: Result<TupleDescriber, ()>) {
        Ok(TupleDescriber { elements: Vec::new() })
    }

    fn describe_struct(self, name: TypeName) -> (r: Result<StructDescriber, ()>) {
        Ok(StructDescriber { name, fields: Vec::new() })
    }

    fn describe_tuple_struct(self, name: TypeName) -> (r: Result<TupleStructDescriber, ()>) {
        Ok(TupleStructDescriber { name, elements: Vec::new() })
    }

    fn describe_enum(self, name: TypeName) -> (r: Result<EnumDescriber, ()>) {
        Ok(EnumDescriber { name, variants: Vec::new() })
    }
}

/// Collects the fields of a struct into a [`Schema::Struct`].
#[derive(Debug)]
pub struct StructDescriber {
    name: TypeName,
    fields: Vec<(String, Schema)>,
}

impl DescribeStruct for StructDescriber {
    type Ok = Schema;
    type Error = ();

    open spec fn describes(ok: Schema, s: Shape) -> bool {
        ok@ == s
    }

    open spec fn total() -> bool {
        true
    }

    closed spec fn name(&self) -> TypeNameView {
        self.name@
    }

    closed spec fn fields(&self) -> Seq<(Seq<char>, Shape)> {
        fields_view(self.fields@)
    }

    fn describe_field(&mut self, name: &str, field: Schema) -> (r: Result<(), ()>) {
        let entry = (String::from_str(name), field);
        proof {
            lemma_fields_view_push(self.fields@, entry);
        }
        self.fields.push(entry);
        Ok(())
    }

    fn end(self) -> (r: Result<Schema, ()>) {
        Ok(Schema::Struct(Struct { name: self.name, fields: self.fields }))
    }
}

/// Collects the fields of a tuple struct into a [`Schema::TupleStruct`].
#[derive(Debug)]
pub struct TupleStructDescriber {
    name: TypeName,
    elements: Vec<Schema>,
}

impl DescribeTupleStruct for TupleStructDescriber {
    type Ok = Schema;
    type Error = ();

    open spec fn describes(ok: Schema, s: Shape) -> bool {
        ok@ == s
    }

    open spec fn total() -> bool {
        true
    }

    closed spec fn name(&self) -> TypeNameView {
        self.name@
    }

    closed spec fn elements(&self) -> Seq<Shape> {
        schemas_view(self.elements@)
    }

    fn describe_element(&mut self, element: Schema) -> (r: Result<(), ()>) {
        proof {
            lemma_schemas_view_push(self.elements@, element);
        }
        self.elements.push(element);
        Ok(())
    }

    fn end(self) -> (r: Result<Schema, ()>) {
        Ok(Schema::TupleStruct(TupleStruct { name: self.name, elements: self.elements }))
    }
}

/// Collects the elements of a tuple into a [`Schema::Tuple`].
#[derive(Debug)]
pub struct TupleDescriber {
    elements: Vec<Schema>,
}

impl DescribeTuple for TupleDescriber {
    type Ok = Schema;
    type Error = ();

    open spec fn describes(ok: Schema, s: Shape) -> bool {
        ok@ == s
    }

    open spec fn total() -> bool {
        true
    }

    closed spec fn elements(&self) -> Seq<Shape> {
        schemas_view(self.elements@)
    }

    fn describe_element(&mut self, element: Schema) -> (r: Result<(), ()>) {
        proof {
            lemma_schemas_view_push(self.elements@, element);
        }
        self.elements.push(element);
        Ok(())
    }

    fn end(self) -> (r: Result<Schema, ()>) {
        Ok(Schema::Tuple(self.elements))
    }
}

/// Collects the variants of a sum type into a [`Schema::Enum`].
#[derive(Debug)]
pub struct EnumDescriber {
    name: TypeName,
    variants: Vec<Variant>,
}

impl DescribeEnum for EnumDescriber {
    type Ok = Schema;
    type Error = ();
    type DescribeStructVariant = StructVariantDescriber;
    type DescribeTupleVariant = TupleVariantDescriber;

    open spec fn describes(ok: Schema, s: Shape) -> bool {
        ok@ == s
    }

    open spec fn total() -> bool {
        true
    }

    closed spec fn name(&self) -> TypeNameView {
        self.name@
    }

    closed spec fn variants(&self) -> Seq<VariantShape> {
        variants_view(self.variants@)
    }

    fn describe_unit_variant(&mut self, name: &str, discriminant: Option<PrimitiveValue>) -> (r: Result<(), ()>) {
        let v = Variant::Unit { name: String::from_str(name), discriminant };
        proof {
            lemma_variants_view_push(self.variants@, v);
        }
        self.variants.push(v);
        Ok(())
    }

    fn start_tuple_variant(&mut self, name: &str) -> (r: Result<TupleVariantDescriber, ()>) {
        Ok(TupleVariantDescriber { name: String::from_str(name), elements: Vec::new() })
    }

    fn end_tuple_variant(&mut self, variant: TupleVariantDescriber) -> (r: Result<(), ()>) {
        let v = Variant::Tuple { name: variant.name, elements: variant.elements };
        proof {
            lemma_variants_view_push(self.variants@, v);
        }
        self.variants.push(v);
        Ok(())
    }

    fn start_struct_variant(&mut self, name: &str) -> (r: Result<StructVariantDescriber, ()>) {
        Ok(StructVariantDescriber { name: String::from_str(name), fields: Vec::new() })
    }

    fn end_struct_variant(&mut self, variant: StructVariantDescriber) -> (r: Result<(), ()>) {
        let v = Variant::Struct { name: variant.name, fields: variant.fields };
        proof {
            lemma_variants_view_push(self.variants@, v);
        }
        self.variants.push(v);
        Ok(())
    }

    fn end(self) -> (r: Result<Schema, ()>) {
        Ok(Schema::Enum(Enum { name: self.name, repr: None, variants: self.variants }))
    }
}

/// Collects the fields of one tuple-like variant.
#[derive(Debug)]
pub struct TupleVariantDescriber {
    name: String,
    elements: Vec<Schema>,
}

impl DescribeTupleVariant for TupleVariantDescriber {
    type Ok = Schema;
    type Error = ();

    open spec fn describes(ok: Schema, s: Shape) -> bool {
        ok@ == s
    }

    open spec fn total() -> bool {
        true
    }

    closed spec fn name(&self) -> Seq<char> {
        self.name@
    }

    closed spec fn elements(&self) -> Seq<Shape> {
        schemas_view(self.elements@)
    }

    fn describe_element(&mut self, element: Schema) -> (r: Result<(), ()>) {
        proof {
            lemma_schemas_view_push(self.elements@, element);
        }
        self.elements.push(element);
        Ok(())
    }
}

/// Collects the fields of one struct-like variant.
#[derive(Debug)]
pub struct StructVariantDescriber {
    name: String,
    fields: Vec<(String, Schema)>,
}

impl DescribeStructVariant for StructVariantDescriber {
    type Ok = Schema;
    type Error = ();

    open spec fn describes(ok: Schema, s: Shape) -> bool {
        ok@ == s
    }

    open spec fn total() -> bool {
        true
    }

    closed spec fn name(&self) -> Seq<char> {
        self.name@
    }

    closed spec fn fields(&self) -> Seq<(Seq<char>, Shape)> {
        fields_view(self.fields@)
    }

    fn describe_field(&mut self, name: &str, field: Schema) -> (r: Result<(), ()>) {
        let entry = (String::from_str(name), field);
        proof {
            lemma_fields_view_push(self.fields@, entry);
        }
        self.fields.push(entry);
        Ok(())
    }
}

} // verus!
