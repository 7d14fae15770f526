use schematic::{
    Describe, DescribeEnum, DescribeStructVariant, DescribeTupleVariant, Describer, Enum,
    PrimitiveValue, Schema, TypeName, Variant,
};

const MODULE: &str = "describe_enum";

#[allow(dead_code)]
enum Simple {
    Foo,
    Bar,
}

impl Describe for Simple {
    fn typename() -> TypeName {
        TypeName::new("Simple", MODULE)
    }

    fn describe<D: Describer>(describer: D) -> Result<D::Ok, D::Error> {
        let mut describer = describer.describe_enum(Self::typename())?;
        describer.describe_unit_variant("Foo", None)?;
        describer.describe_unit_variant("Bar", None)?;
        describer.end()
    }
}

#[test]
fn describe_simple_enum() {
    let actual = schematic::describe::<Simple>().expect("Failed to describe `Simple`");

    let expected = Schema::Enum(Enum {
        name: TypeName::new("Simple", MODULE),
        repr: None,
        variants: vec![
            Variant::Unit {
                name: "Foo".into(),
                discriminant: None,
            },
            Variant::Unit {
                name: "Bar".into(),
                discriminant: None,
            },
        ],
    });

    assert_eq!(expected, actual);
}

#[allow(dead_code)]
enum WithData {
    Foo,
    Bar(usize, u32),
    Baz { first: bool, second: i8 },
}

impl Describe for WithData {
    fn typename() -> TypeName {
        TypeName::new("WithData", MODULE)
    }

    fn describe<D: Describer>(describer: D) -> Result<D::Ok, D::Error> {
        let mut variants = describer.describe_enum(Self::typename())?;

        variants.describe_unit_variant("Foo", None)?;

        let mut bar = variants.start_tuple_variant("Bar")?;
        bar.describe_element(usize::describe(describer)?)?;
        bar.describe_element(u32::describe(describer)?)?;
        variants.end_tuple_variant(bar)?;

        let mut baz = variants.start_struct_variant("Baz")?;
        baz.describe_field("first", bool::describe(describer)?)?;
        baz.describe_field("second", i8::describe(describer)?)?;
        variants.end_struct_variant(baz)?;

        variants.end()
    }
}

#[test]
fn describe_data_enum() {
    let actual = schematic::describe::<WithData>().expect("Failed to describe `WithData`");

    let expected = Schema::Enum(Enum {
        name: TypeName::new("WithData", MODULE),
        repr: None,
        variants: vec![
            Variant::Unit {
                name: "Foo".into(),
                discriminant: None,
            },
            Variant::Tuple {
                name: "Bar".into(),
                elements: vec![Schema::USize, Schema::U32],
            },
            Variant::Struct {
                name: "Baz".into(),
                fields: vec![
                    ("first".into(), Schema::Bool),
                    ("second".into(), Schema::I8),
                ],
            },
        ],
    });

    assert_eq!(expected, actual);
    assert!(actual.as_enum().unwrap().has_data());
}

#[allow(dead_code)]
enum Never {}

impl Describe for Never {
    fn typename() -> TypeName {
        TypeName::new("Never", MODULE)
    }

    fn describe<D: Describer>(describer: D) -> Result<D::Ok, D::Error> {
        describer.describe_enum(Self::typename())?.end()
    }
}

#[test]
fn empty_enum_has_no_variants() {
    let actual = schematic::describe::<Never>().unwrap();
    let schema = actual.as_enum().unwrap();
    assert!(schema.variants.is_empty());
    assert!(!schema.has_data());
    assert_eq!("Never", actual.typename().unwrap().name);
}

#[allow(dead_code)]
enum Coded {
    Low,
    High,
}

impl Describe for Coded {
    fn typename() -> TypeName {
        TypeName::new("Coded", MODULE)
    }

    fn describe<D: Describer>(describer: D) -> Result<D::Ok, D::Error> {
        let mut variants = describer.describe_enum(Self::typename())?;
        variants.describe_unit_variant("Low", Some(PrimitiveValue::from(-3i16)))?;
        variants.describe_unit_variant("High", Some(7u8.into()))?;
        variants.end()
    }
}

#[test]
fn unit_variants_keep_their_discriminants() {
    let actual = schematic::describe::<Coded>().unwrap();
    let schema = actual.as_enum().unwrap();
    assert_eq!(
        Variant::Unit { name: "Low".into(), discriminant: Some(PrimitiveValue::I16(-3)) },
        schema.variants[0]
    );
    assert_eq!(
        Variant::Unit { name: "High".into(), discriminant: Some(PrimitiveValue::U8(7)) },
        schema.variants[1]
    );
    assert_eq!("High", schema.variants[1].name());
    assert!(!schema.has_data());
}

#[test]
fn primitive_values_in_decimal() {
    assert_eq!("-3", PrimitiveValue::I16(-3).to_string());
    assert_eq!("0", PrimitiveValue::U8(0).to_string());
    assert_eq!("255", PrimitiveValue::U8(255).to_string());
    assert_eq!("-128", PrimitiveValue::I8(i8::MIN).to_string());
    assert_eq!(
        "340282366920938463463374607431768211455",
        PrimitiveValue::U128(u128::MAX).to_string()
    );
    assert_eq!(
        "-170141183460469231731687303715884105728",
        PrimitiveValue::I128(i128::MIN).to_string()
    );
    assert_eq!("9223372036854775807", PrimitiveValue::from(i64::MAX).to_string());
    assert_eq!(PrimitiveValue::Usize(12), PrimitiveValue::from(12usize));
}
