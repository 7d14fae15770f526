use schematic::{Describe, Schema};

#[test]
fn describe_primitives() {
    assert_eq!(Schema::U8, schematic::describe::<u8>().unwrap());
    assert_eq!(Schema::U16, schematic::describe::<u16>().unwrap());
    assert_eq!(Schema::U32, schematic::describe::<u32>().unwrap());
    assert_eq!(Schema::U64, schematic::describe::<u64>().unwrap());
    assert_eq!(Schema::U128, schematic::describe::<u128>().unwrap());
    assert_eq!(Schema::USize, schematic::describe::<usize>().unwrap());

    assert_eq!(Schema::I8, schematic::describe::<i8>().unwrap());
    assert_eq!(Schema::I16, schematic::describe::<i16>().unwrap());
    assert_eq!(Schema::I32, schematic::describe::<i32>().unwrap());
    assert_eq!(Schema::I64, schematic::describe::<i64>().unwrap());
    assert_eq!(Schema::I128, schematic::describe::<i128>().unwrap());
    assert_eq!(Schema::ISize, schematic::describe::<isize>().unwrap());

    assert_eq!(Schema::Bool, schematic::describe::<bool>().unwrap());
    assert_eq!(Schema::Char, schematic::describe::<char>().unwrap());
    assert_eq!(Schema::Unit, schematic::describe::<()>().unwrap());

    assert_eq!(Schema::Str, schematic::describe::<&str>().unwrap());
}

#[test]
fn describing_twice_gives_equal_schemas() {
    assert_eq!(
        schematic::describe::<u64>().unwrap(),
        schematic::describe::<u64>().unwrap()
    );
    assert_eq!(
        schematic::describe::<(u8, Option<char>)>().unwrap(),
        schematic::describe::<(u8, Option<char>)>().unwrap()
    );
}

#[test]
fn scalar_names() {
    let name = <u16 as Describe>::typename();
    assert_eq!("u16", name.name);
    assert_eq!("", name.module);
    assert_eq!("String", <String as Describe>::typename().name);
    assert_eq!("Option<i64>", <Option<i64> as Describe>::typename().name);
    assert_eq!("()<u8, bool>", <(u8, bool) as Describe>::typename().name);
}
