use schematic::{
    Describe, DescribeStruct, DescribeTupleStruct, Describer, Schema, Struct, TupleStruct,
    TypeName, UnitStruct,
};

const MODULE: &str = "describe_struct";

pub struct ManualStruct {
    pub field: bool,
    pub another: u32,
}

impl Describe for ManualStruct {
    fn typename() -> TypeName {
        TypeName::new("ManualStruct", MODULE)
    }

    fn describe<D: Describer>(describer: D) -> Result<D::Ok, D::Error> {
        let mut fields = describer.describe_struct(Self::typename())?;
        fields.describe_field("field", bool::describe(describer)?)?;
        fields.describe_field("another", u32::describe(describer)?)?;
        fields.end()
    }
}

#[test]
fn describe_struct() {
    let actual = schematic::describe::<ManualStruct>().unwrap();

    let expected = Schema::Struct(Struct {
        name: TypeName::new("ManualStruct", MODULE),
        fields: vec![
            ("field".into(), Schema::Bool),
            ("another".into(), Schema::U32),
        ],
    });

    assert_eq!(expected, actual);
}

pub struct ManualTupleStruct(bool, u32);

impl Describe for ManualTupleStruct {
    fn typename() -> TypeName {
        TypeName::new("ManualTupleStruct", MODULE)
    }

    fn describe<D: Describer>(describer: D) -> Result<D::Ok, D::Error> {
        let mut elements = describer.describe_tuple_struct(Self::typename())?;
        elements.describe_element(bool::describe(describer)?)?;
        elements.describe_element(u32::describe(describer)?)?;
        elements.end()
    }
}

#[test]
fn describe_tuple_struct() {
    let actual = schematic::describe::<ManualTupleStruct>().unwrap();

    let expected = Schema::TupleStruct(TupleStruct {
        name: TypeName::new("ManualTupleStruct", MODULE),
        elements: vec![Schema::Bool, Schema::U32],
    });

    assert_eq!(expected, actual);
}

pub struct NestedStruct {
    pub manual_struct: ManualStruct,
    pub tuple_struct: ManualTupleStruct,
}

impl Describe for NestedStruct {
    fn typename() -> TypeName {
        TypeName::new("NestedStruct", MODULE)
    }

    fn describe<D: Describer>(describer: D) -> Result<D::Ok, D::Error> {
        let mut fields = describer.describe_struct(Self::typename())?;
        fields.describe_field("manual_struct", ManualStruct::describe(describer)?)?;
        fields.describe_field("tuple_struct", ManualTupleStruct::describe(describer)?)?;
        fields.end()
    }
}

#[test]
fn test_nested_struct() {
    let actual = schematic::describe::<NestedStruct>().unwrap();

    let expected = Schema::Struct(Struct {
        name: TypeName::new("NestedStruct", MODULE),
        fields: vec![
            (
                "manual_struct".into(),
                Schema::Struct(Struct {
                    name: TypeName::new("ManualStruct", MODULE),
                    fields: vec![
                        ("field".into(), Schema::Bool),
                        ("another".into(), Schema::U32),
                    ],
                }),
            ),
            (
                "tuple_struct".into(),
                Schema::TupleStruct(TupleStruct {
                    name: TypeName::new("ManualTupleStruct", MODULE),
                    elements: vec![Schema::Bool, Schema::U32],
                }),
            ),
        ],
    });

    assert_eq!(expected, actual);
}

pub struct Meters(u64);

impl Describe for Meters {
    fn typename() -> TypeName {
        TypeName::new("Meters", MODULE)
    }

    fn describe<D: Describer>(describer: D) -> Result<D::Ok, D::Error> {
        let inner = u64::describe(describer)?;
        describer.describe_newtype_struct(Self::typename(), inner)
    }
}

pub struct Marker;

impl Describe for Marker {
    fn typename() -> TypeName {
        TypeName::new("Marker", MODULE)
    }

    fn describe<D: Describer>(describer: D) -> Result<D::Ok, D::Error> {
        describer.describe_unit_struct(Self::typename())
    }
}

#[test]
fn newtype_and_unit_structs() {
    let meters = schematic::describe::<Meters>().unwrap();
    let newtype = meters.as_newtype_struct().unwrap();
    assert_eq!(TypeName::new("Meters", MODULE), newtype.name);
    assert_eq!(Schema::U64, newtype.inner);
    let fields = newtype.fields();
    assert_eq!(1, fields.len());
    assert_eq!(None, fields[0].name);
    assert_eq!(&Schema::U64, fields[0].schema);

    let marker = schematic::describe::<Marker>().unwrap();
    assert_eq!(
        Schema::UnitStruct(UnitStruct { name: TypeName::new("Marker", MODULE) }),
        marker
    );
    assert!(marker.as_struct().is_none());
    assert_eq!("Marker", marker.as_unit_struct().unwrap().name.name);
}

#[test]
fn schema_accessors() {
    let schema = schematic::describe::<ManualStruct>().unwrap();
    let name = schema.typename().unwrap();
    assert_eq!("ManualStruct", name.name);
    assert_eq!(MODULE, name.module);
    assert!(schema.as_struct().is_some());
    assert!(schema.as_tuple_struct().is_none());
    assert!(schema.as_enum().is_none());

    let fields = schema.as_struct().unwrap().fields();
    assert_eq!(2, fields.len());
    assert_eq!(Some("field"), fields[0].name);
    assert_eq!(&Schema::Bool, fields[0].schema);
    assert_eq!(Some("another"), fields[1].name);
    assert_eq!(&Schema::U32, fields[1].schema);

    assert!(Schema::U8.typename().is_none());
    assert!(Schema::U8.as_struct_like().is_none());
}

#[test]
fn struct_like_views() {
    let tuple = schematic::describe::<ManualTupleStruct>().unwrap();
    let like = tuple.as_struct_like().unwrap();
    assert_eq!("ManualTupleStruct", like.name.name);
    assert_eq!(2, like.fields.len());
    assert_eq!(None, like.fields[0].name);
    assert_eq!(&Schema::Bool, like.fields[0].schema);
    assert_eq!(&Schema::U32, like.fields[1].schema);

    let named = schematic::describe::<ManualStruct>().unwrap();
    let like = named.as_struct_like().unwrap();
    assert_eq!(Some("another"), like.fields[1].name);

    let marker = schematic::describe::<Marker>().unwrap();
    assert!(marker.as_struct_like().unwrap().fields.is_empty());

    let from_struct = schematic::StructLike::from(named.as_struct().unwrap());
    assert_eq!(like, from_struct);
}

#[test]
fn cloned_schema_is_equal() {
    let schema = schematic::describe::<NestedStruct>().unwrap();
    let copy = schema.clone();
    assert_eq!(schema, copy);
    let name = TypeName::new("NestedStruct", MODULE);
    assert_eq!(name.clone(), name);
}
