use schematic::{Array, Describe, Schema, Sequence, TypeName};

#[test]
fn describe_vec() {
    let expected = Schema::Sequence(Box::new(Sequence {
        name: TypeName::generic("Vec", "alloc::vec", vec![TypeName::new("u32", "")]),
        element: Schema::U32,
        len: None,
    }));
    let actual = schematic::describe::<Vec<u32>>().unwrap();
    assert_eq!(expected, actual);
}

#[test]
fn describe_array() {
    let expected = Schema::Array(Box::new(Array {
        element: Schema::U32,
        len: 8,
    }));
    assert_eq!(expected, schematic::describe::<[u32; 8]>().unwrap());
}

#[test]
fn describe_slice() {
    let expected = Schema::Slice(Box::new(Schema::U32));
    let actual = schematic::describe::<&[u32]>().unwrap();
    assert_eq!(expected, actual);
}

#[test]
fn vec_name_folds_in_the_element_type() {
    let name = TypeName::generic("Vec", "alloc::vec", vec![TypeName::new("u32", "")]);
    assert_eq!("Vec<u32>", name.name);
    assert_eq!("alloc::vec", name.module);
    let other = TypeName::generic("Vec", "alloc::vec", vec![TypeName::new("i32", "")]);
    assert_ne!(name, other);
}

#[test]
fn map_name_qualifies_its_arguments() {
    let actual = schematic::describe::<std::collections::HashMap<String, u8>>().unwrap();
    let expected = Schema::Mapping(Box::new(schematic::Mapping {
        name: TypeName::new("HashMap<alloc::string::String, u8>", "std::collections::hash_map"),
        key: Schema::String(TypeName::new("String", "alloc::string")),
        value: Schema::U8,
    }));
    assert_eq!(expected, actual);
}

#[test]
fn btree_map_and_sets() {
    let map = schematic::describe::<std::collections::BTreeMap<u8, bool>>().unwrap();
    match map {
        Schema::Mapping(m) => {
            assert_eq!("BTreeMap<u8, bool>", m.name.name);
            assert_eq!(Schema::U8, m.key);
            assert_eq!(Schema::Bool, m.value);
        }
        other => panic!("unexpected schema {:?}", other),
    }
    let set = schematic::describe::<std::collections::BTreeSet<char>>().unwrap();
    match set {
        Schema::Sequence(s) => {
            assert_eq!("BTreeSet<char>", s.name.name);
            assert_eq!("alloc::collections::btree_set", s.name.module);
            assert_eq!(Schema::Char, s.element);
            assert_eq!(None, s.len);
        }
        other => panic!("unexpected schema {:?}", other),
    }
}

#[test]
fn arrays_differ_in_length_only() {
    let four = schematic::describe::<[u32; 4]>().unwrap();
    let zero = schematic::describe::<[u32; 0]>().unwrap();
    assert_eq!(Schema::Array(Box::new(Array { element: Schema::U32, len: 4 })), four);
    assert_eq!(Schema::Array(Box::new(Array { element: Schema::U32, len: 0 })), zero);
    assert_ne!(four, zero);
    assert_ne!(schematic::describe::<&[u32]>().unwrap(), four);
}

#[test]
fn array_and_slice_names() {
    let array = <[u32; 12] as Describe>::typename();
    assert_eq!("[; 12]<u32>", array.name);
    assert_eq!("", array.module);
    let slice = <&[u8] as Describe>::typename();
    assert_eq!("[]<u8>", slice.name);
}

#[test]
fn describe_option_and_string() {
    assert_eq!(
        Schema::Option(Box::new(Schema::U8)),
        schematic::describe::<Option<u8>>().unwrap()
    );
    assert_eq!(
        Schema::String(TypeName::new("String", "alloc::string")),
        schematic::describe::<String>().unwrap()
    );
    let nested = schematic::describe::<Option<Vec<bool>>>().unwrap();
    let expected = Schema::Option(Box::new(Schema::Sequence(Box::new(Sequence {
        name: TypeName::new("Vec<bool>", "alloc::vec"),
        element: Schema::Bool,
        len: None,
    }))));
    assert_eq!(expected, nested);
}
