use schematic::{Enum, Schema, TypeName, Variant};

fn my_enum() -> TypeName {
    TypeName::new("MyEnum", "enum_helpers")
}

#[test]
fn test_empty_enum() {
    let schema = Enum {
        name: my_enum(),
        repr: None,
        variants: vec![
            Variant::Unit {
                name: "Foo".into(),
                discriminant: None,
            },
            Variant::Struct {
                name: "Bar".into(),
                fields: Vec::new(),
            },
            Variant::Tuple {
                name: "Baz".into(),
                elements: Vec::new(),
            },
        ],
    };

    assert!(!schema.has_data());

    for variant in &schema.variants {
        assert!(variant.is_empty());
    }
}

#[test]
fn test_non_empty_enum() {
    let schema = Enum {
        name: my_enum(),
        repr: None,
        variants: vec![
            Variant::Unit {
                name: "Foo".into(),
                discriminant: None,
            },
            Variant::Struct {
                name: "Bar".into(),
                fields: Vec::new(),
            },
            Variant::Tuple {
                name: "Baz".into(),
                elements: vec![Schema::I8],
            },
        ],
    };

    assert!(schema.has_data());
    assert!(!schema.variants[2].is_empty());
}

#[test]
fn unit_variant_fields() {
    let variant = Variant::Unit {
        name: "Foo".into(),
        discriminant: None,
    };

    let fields = variant.fields();
    assert_eq!(None, fields.first());
}

fn string_schema() -> Schema {
    Schema::String(TypeName::new("String", "alloc::string"))
}

#[test]
fn named_variant_fields() {
    let variant = Variant::Struct {
        name: "Bar".into(),
        fields: vec![("foo".into(), Schema::I8), ("bar".into(), string_schema())],
    };

    let fields = variant.fields();
    let string = string_schema();
    assert_eq!(
        Some(&schematic::Field {
            name: Some("foo"),
            schema: &Schema::I8
        }),
        fields.first()
    );
    assert_eq!(
        Some(&schematic::Field {
            name: Some("bar"),
            schema: &string,
        }),
        fields.get(1)
    );
    assert_eq!(None, fields.get(2));
}

#[test]
fn unnamed_variant_fields() {
    let variant = Variant::Tuple {
        name: "Bar".into(),
        elements: vec![Schema::I8, string_schema()],
    };

    let fields = variant.fields();
    let string = string_schema();
    assert_eq!(
        Some(&schematic::Field {
            name: None,
            schema: &Schema::I8
        }),
        fields.first()
    );
    assert_eq!(
        Some(&schematic::Field {
            name: None,
            schema: &string,
        }),
        fields.get(1)
    );
    assert_eq!(None, fields.get(2));
}

#[test]
fn has_data_for_a_struct_variant_with_fields() {
    let schema = Enum {
        name: my_enum(),
        repr: None,
        variants: vec![Variant::Struct {
            name: "Bar".into(),
            fields: vec![("x".into(), Schema::Bool)],
        }],
    };
    assert!(schema.has_data());
    assert!(!schema.variants[0].is_empty());
    assert_eq!("Bar", schema.variants[0].name());
    let field = schematic::Field::named("x", &Schema::Bool);
    assert_eq!(vec![field], schema.variants[0].fields());
    assert_eq!(schematic::Field::new(None, &Schema::Bool), schematic::Field::unnamed(&Schema::Bool));
}
