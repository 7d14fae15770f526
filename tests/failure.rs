use schematic::{
    Describe, DescribeEnum, DescribeStruct, DescribeStructVariant, DescribeTuple,
    DescribeTupleStruct, DescribeTupleVariant, Describer, PrimitiveValue, TypeName,
};

/// Writes a type out as text, and refuses `u32`.
#[derive(Clone, Copy)]
struct Picky;

type Outcome = Result<String, &'static str>;

impl Describer for Picky {
    type Ok = String;
    type Error = &'static str;
    type DescribeStruct = Parts;
    type DescribeTupleStruct = Parts;
    type DescribeEnum = Parts;
    type DescribeTuple = Parts;

    fn describe_bool(self) -> Outcome {
        Ok("bool".to_string())
    }

    fn describe_i8(self) -> Outcome {
        Ok("i8".to_string())
    }

    fn describe_i16(self) -> Outcome {
        Ok("i16".to_string())
    }

    fn describe_i32(self) -> Outcome {
        Ok("i32".to_string())
    }

    fn describe_i64(self) -> Outcome {
        Ok("i64".to_string())
    }

    fn describe_i128(self) -> Outcome {
        Ok("i128".to_string())
    }

    fn describe_isize(self) -> Outcome {
        Ok("isize".to_string())
    }

    fn describe_u8(self) -> Outcome {
        Ok("u8".to_string())
    }

    fn describe_u16(self) -> Outcome {
        Ok("u16".to_string())
    }

    fn describe_u64(self) -> Outcome {
        Ok("u64".to_string())
    }

    fn describe_u128(self) -> Outcome {
        Ok("u128".to_string())
    }

    fn describe_usize(self) -> Outcome {
        Ok("usize".to_string())
    }

    fn describe_f32(self) -> Outcome {
        Ok("f32".to_string())
    }

    fn describe_f64(self) -> Outcome {
        Ok("f64".to_string())
    }

    fn describe_char(self) -> Outcome {
        Ok("char".to_string())
    }

    fn describe_str(self) -> Outcome {
        Ok("str".to_string())
    }

    fn describe_unit(self) -> Outcome {
        Ok("unit".to_string())
    }

    fn describe_u32(self) -> Outcome {
        Err("u32 is refused")
    }

    fn describe_string(self, name: TypeName) -> Outcome {
        Ok(name.name)
    }

    fn describe_option(self, inner: String) -> Outcome {
        Ok(format!("option {}", inner))
    }

    fn describe_array(self, element: String, len: usize) -> Outcome {
        Ok(format!("[{}; {}]", element, len))
    }

    fn describe_slice(self, element: String) -> Outcome {
        Ok(format!("[{}]", element))
    }

    fn describe_seq(self, name: TypeName, element: String, _len: Option<usize>) -> Outcome {
        Ok(format!("{} of {}", name.name, element))
    }

    fn describe_map(self, name: TypeName, key: String, value: String) -> Outcome {
        Ok(format!("{} of {} to {}", name.name, key, value))
    }

    fn describe_unit_struct(self, name: TypeName) -> Outcome {
        Ok(name.name)
    }

    fn describe_newtype_struct(self, name: TypeName, inner: String) -> Outcome {
        Ok(format!("{}({})", name.name, inner))
    }

    fn describe_tuple(self) -> Result<Parts, &'static str> {
        Ok(Parts::default())
    }

    fn describe_struct(self, name: TypeName) -> Result<Parts, &'static str> {
        Ok(Parts { head: name.name, items: Vec::new() })
    }

    fn describe_tuple_struct(self, name: TypeName) -> Result<Parts, &'static str> {
        Ok(Parts { head: name.name, items: Vec::new() })
    }

    fn describe_enum(self, name: TypeName) -> Result<Parts, &'static str> {
        Ok(Parts { head: name.name, items: Vec::new() })
    }
}

#[derive(Default)]
struct Parts {
    head: String,
    items: Vec<String>,
}

impl Parts {
    fn text(&self) -> String {
        format!("{}({})", self.head, self.items.join(", "))
    }
}

impl DescribeTuple for Parts {
    type Ok = String;
    type Error = &'static str;

    fn describe_element(&mut self, element: String) -> Result<(), &'static str> {
        self.items.push(element);
        Ok(())
    }

    fn end(self) -> Outcome {
        Ok(self.text())
    }
}

impl DescribeStruct for Parts {
    type Ok = String;
    type Error = &'static str;

    fn describe_field(&mut self, name: &str, field: String) -> Result<(), &'static str> {
        self.items.push(format!("{}: {}", name, field));
        Ok(())
    }

    fn end(self) -> Outcome {
        Ok(self.text())
    }
}

impl DescribeTupleStruct for Parts {
    type Ok = String;
    type Error = &'static str;

    fn describe_element(&mut self, element: String) -> Result<(), &'static str> {
        self.items.push(element);
        Ok(())
    }

    fn end(self) -> Outcome {
        Ok(self.text())
    }
}

impl DescribeEnum for Parts {
    type Ok = String;
    type Error = &'static str;
    type DescribeStructVariant = Parts;
    type DescribeTupleVariant = Parts;

    fn describe_unit_variant(&mut self, name: &str, _discriminant: Option<PrimitiveValue>) -> Result<(), &'static str> {
        self.items.push(name.to_string());
        Ok(())
    }

    fn start_tuple_variant(&mut self, name: &str) -> Result<Parts, &'static str> {
        Ok(Parts { head: name.to_string(), items: Vec::new() })
    }

    fn end_tuple_variant(&mut self, variant: Parts) -> Result<(), &'static str> {
        self.items.push(variant.text());
        Ok(())
    }

    fn start_struct_variant(&mut self, name: &str) -> Result<Parts, &'static str> {
        Ok(Parts { head: name.to_string(), items: Vec::new() })
    }

    fn end_struct_variant(&mut self, variant: Parts) -> Result<(), &'static str> {
        self.items.push(variant.text());
        Ok(())
    }

    fn end(self) -> Outcome {
        Ok(self.text())
    }
}

impl DescribeTupleVariant for Parts {
    type Ok = String;
    type Error = &'static str;

    fn describe_element(&mut self, element: String) -> Result<(), &'static str> {
        self.items.push(element);
        Ok(())
    }
}

impl DescribeStructVariant for Parts {
    type Ok = String;
    type Error = &'static str;

    fn describe_field(&mut self, name: &str, field: String) -> Result<(), &'static str> {
        self.items.push(format!("{}: {}", name, field));
        Ok(())
    }
}

struct Point {
    _x: u8,
    _y: Option<bool>,
}

impl Describe for Point {
    fn typename() -> TypeName {
        TypeName::new("Point", "failure")
    }

    fn describe<D: Describer>(describer: D) -> Result<D::Ok, D::Error> {
        let mut fields = describer.describe_struct(Self::typename())?;
        fields.describe_field("x", u8::describe(describer)?)?;
        fields.describe_field("y", Option::<bool>::describe(describer)?)?;
        fields.end()
    }
}

#[test]
fn another_describer_sees_the_same_protocol() {
    assert_eq!(Ok("Point(x: u8, y: option bool)".to_string()), Point::describe(Picky));
    assert_eq!(Ok("(u8, [char; 3])".to_string()), <(u8, [char; 3])>::describe(Picky));
    assert_eq!(
        Ok("Vec<i64> of i64".to_string()),
        Vec::<i64>::describe(Picky)
    );
}

#[test]
fn a_failure_aborts_the_whole_description() {
    assert_eq!(Err("u32 is refused"), u32::describe(Picky));
    assert_eq!(Err("u32 is refused"), <(u8, u32)>::describe(Picky));
    assert_eq!(Err("u32 is refused"), Option::<Vec<u32>>::describe(Picky));
    assert_eq!(Err("u32 is refused"), <[u32; 2]>::describe(Picky));
}
