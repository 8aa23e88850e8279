use tlayuda::builder::{BuildError, Builder, FieldValue, Instance};
use tlayuda::example::{ExampleBuilder, TemplateExample};
use tlayuda::extract::get_fields;
use tlayuda::model::{
    ArrayLength, Attribute, ClassifyError, FieldSource, ItemStruct, NumericKind, Refusal,
    TypeClass, TypeExpr, TypeShape,
};
use tlayuda::value::{char_of_index, convert, default_value, indexed_name, Value};

type Generate = Box<dyn Fn(usize) -> Value>;
type Words = Box<dyn Fn(usize) -> String>;

fn path(text: &str) -> TypeExpr {
    TypeExpr { text: text.to_string(), shape: TypeShape::Path { segments: vec![text.to_string()], instantiated: false },
    }
}

fn named(name: &str, ty: TypeExpr) -> FieldSource {
    FieldSource { name: Some(name.to_string()), ty, attrs: vec![] }
}

fn opted_out(name: &str, ty: TypeExpr) -> FieldSource {
    FieldSource {
        name: Some(name.to_string()),
        ty,
        attrs: vec![Attribute::Path(vec!["tlayuda_ignore".to_string()])],
    }
}

fn mixed() -> ItemStruct {
    ItemStruct {
        ident: "Mixed".to_string(),
        fields: vec![
            opted_out("first", path("Opaque")),
            named("name", path("String")),
            named("count", path("u8")),
            opted_out("second", path("Opaque")),
            named("letter", path("char")),
        ],
    }
}

fn builder_of(item: &ItemStruct, given: Vec<String>) -> Builder<String, Generate> {
    let fields = get_fields(item);
    Builder::new(&fields, given).unwrap()
}

fn values(instance: &Instance<String>) -> Vec<String> {
    instance
        .fields
        .iter()
        .map(|f| match &f.value {
            FieldValue::Kept(s) => format!("{}=kept {}", f.name, s),
            FieldValue::Made(v) => format!("{}={:?}", f.name, v),
        })
        .collect()
}

#[test]
fn text_defaults_are_the_name_and_the_index() {
    assert_eq!("first_name0", indexed_name("first_name", 0));
    assert_eq!("ssn1234", indexed_name("ssn", 1234));
    assert_eq!(
        Value::Text("first_name17".to_string()),
        default_value(TypeClass::Text, "first_name", "String", 17)
    );
    assert_eq!(
        Value::OsText("home42".to_string()),
        default_value(TypeClass::OsText, "home", "std::ffi::OsString", 42)
    );
}

#[test]
fn numeric_defaults_are_the_index_converted() {
    assert_eq!(
        Value::Number(NumericKind::U32, 7),
        default_value(TypeClass::Numeric(NumericKind::U32), "id", "u32", 7)
    );
    assert_eq!(44, convert(NumericKind::U8, 300));
    assert_eq!(300usize as u8 as i128, convert(NumericKind::U8, 300));
    assert_eq!(-56, convert(NumericKind::I8, 200));
    assert_eq!(200usize as i8 as i128, convert(NumericKind::I8, 200));
    assert_eq!(127, convert(NumericKind::I8, 127));
    assert_eq!(-128, convert(NumericKind::I8, 128));
    assert_eq!(0, convert(NumericKind::U16, 65536));
    assert_eq!(-1, convert(NumericKind::I16, 65535));
    assert_eq!(70000usize as i16 as i128, convert(NumericKind::I16, 70000));
    assert_eq!(usize::MAX as u32 as i128, convert(NumericKind::U32, usize::MAX));
    assert_eq!(usize::MAX as i32 as i128, convert(NumericKind::I32, usize::MAX));
    assert_eq!(usize::MAX as u64 as i128, convert(NumericKind::U64, usize::MAX));
    assert_eq!(usize::MAX as i64 as i128, convert(NumericKind::I64, usize::MAX));
    assert_eq!(usize::MAX as i128, convert(NumericKind::U128, usize::MAX));
    assert_eq!(usize::MAX as i128, convert(NumericKind::I128, usize::MAX));
    assert_eq!(usize::MAX as i128, convert(NumericKind::Usize, usize::MAX));
    assert_eq!(-1, convert(NumericKind::Isize, usize::MAX));
    assert_eq!(isize::MAX as i128, convert(NumericKind::Isize, isize::MAX as usize));
    assert_eq!(3, convert(NumericKind::F32, 3));
    assert_eq!(16777217, convert(NumericKind::F32, 16777217));
    assert_eq!(3.0f64, convert(NumericKind::F64, 3) as f64);
    for i in [0usize, 1, 255, 256, 32767, 32768, 65535, 1 << 31, usize::MAX - 1] {
        assert_eq!(i as u8 as i128, convert(NumericKind::U8, i));
        assert_eq!(i as i8 as i128, convert(NumericKind::I8, i));
        assert_eq!(i as u16 as i128, convert(NumericKind::U16, i));
        assert_eq!(i as i16 as i128, convert(NumericKind::I16, i));
        assert_eq!(i as u32 as i128, convert(NumericKind::U32, i));
        assert_eq!(i as i32 as i128, convert(NumericKind::I32, i));
        assert_eq!(i as i64 as i128, convert(NumericKind::I64, i));
        assert_eq!(i as isize as i128, convert(NumericKind::Isize, i));
        assert_eq!((i as f32) as f64, (convert(NumericKind::F32, i) as f32) as f64);
    }
}

#[test]
fn boolean_defaults_are_false() {
    for i in [0usize, 1, 2, 1000, usize::MAX] {
        assert_eq!(Value::Bool(false), default_value(TypeClass::Bool, "flag", "bool", i));
    }
}

#[test]
fn character_defaults_are_the_digit_or_a() {
    let digits = ['0', '1', '2', '3', '4', '5', '6', '7', '8', '9'];
    for (i, digit) in digits.iter().enumerate() {
        assert_eq!(*digit, char_of_index(i));
        assert_eq!(Value::Char(*digit), default_value(TypeClass::Char, "c", "char", i));
    }
    assert_eq!('a', char_of_index(10));
    assert_eq!('a', char_of_index(11));
    assert_eq!('a', char_of_index(usize::MAX));
}

#[test]
fn sequence_defaults_are_empty() {
    assert_eq!(
        Value::Sequence(vec![]),
        default_value(TypeClass::DynamicSequence, "v", "Vec<u32>", 5)
    );
}

#[test]
fn array_defaults_repeat_the_converted_index() {
    assert_eq!(
        Value::Array(vec![
            Value::Number(NumericKind::I8, -56),
            Value::Number(NumericKind::I8, -56),
            Value::Number(NumericKind::I8, -56)
        ]),
        default_value(TypeClass::NumericArray(NumericKind::I8, 3), "a", "i8", 200)
    );
    assert_eq!(
        Value::Array(vec![]),
        default_value(TypeClass::NumericArray(NumericKind::U64, 0), "a", "u64", 9)
    );
    match default_value(TypeClass::NumericArray(NumericKind::F32, 100), "a", "f32", 4) {
        Value::Array(items) => {
            assert_eq!(100, items.len());
            assert!(items.iter().all(|v| *v == Value::Number(NumericKind::F32, 4)));
        }
        other => panic!("{:?}", other),
    }
}

#[test]
fn record_defaults_name_the_type_and_the_index() {
    assert_eq!(
        Value::Record("models::Person".to_string(), 12),
        default_value(TypeClass::UserRecord, "owner", "models::Person", 12)
    );
}

#[test]
fn a_fresh_builder_counts_from_zero() {
    let mut builder = builder_of(&mixed(), vec!["x".to_string(), "y".to_string()]);
    assert_eq!(0, builder.index);
    for k in 1..=20usize {
        let instance = builder.build();
        assert_eq!(k, builder.index);
        assert_eq!(
            vec![
                "first=kept x".to_string(),
                format!("name=Text(\"name{}\")", k - 1),
                format!("count=Number(U8, {})", k - 1),
                "second=kept y".to_string(),
                format!("letter=Char('{}')", if k - 1 <= 9 { (b'0' + (k - 1) as u8) as char } else { 'a' }),
            ],
            values(&instance)
        );
    }
}

#[test]
fn a_seeded_builder_counts_from_its_seed() {
    let mut builder = builder_of(&mixed(), vec!["x".to_string(), "y".to_string()]).with_index(254);
    assert_eq!(254, builder.index);
    assert_eq!(254, builder.take_index());
    assert_eq!(255, builder.index);
    let instance = builder.build();
    assert_eq!("name=Text(\"name255\")", values(&instance)[1]);
    assert_eq!("count=Number(U8, 255)", values(&instance)[2]);
    let instance = builder.build();
    assert_eq!("name=Text(\"name256\")", values(&instance)[1]);
    assert_eq!("count=Number(U8, 0)", values(&instance)[2]);
    assert_eq!(257, builder.index);
}

#[test]
fn an_override_reaches_one_field_only() {
    let mut builder = builder_of(&mixed(), vec!["x".to_string(), "y".to_string()])
        .set("count", Box::new(|i| Value::Number(NumericKind::U8, (i * 2) as i128)))
        .with_index(3);
    assert_eq!(
        vec![
            "first=kept x",
            "name=Text(\"name3\")",
            "count=Number(U8, 6)",
            "second=kept y",
            "letter=Char('3')"
        ],
        values(&builder.build())
    );
    let mut builder = builder.set("name", Box::new(|_| Value::Text("same".to_string())));
    assert_eq!(
        vec![
            "first=kept x",
            "name=Text(\"same\")",
            "count=Number(U8, 8)",
            "second=kept y",
            "letter=Char('4')"
        ],
        values(&builder.build())
    );
    let mut builder = builder.set("count", Box::new(|_| Value::Number(NumericKind::U8, 1)));
    assert_eq!("count=Number(U8, 1)", values(&builder.build())[2]);
}

#[test]
fn an_override_of_no_field_changes_nothing() {
    let mut builder = builder_of(&mixed(), vec!["x".to_string(), "y".to_string()])
        .set("missing", Box::new(|_| Value::Bool(true)))
        .set("first", Box::new(|_| Value::Bool(true)))
        .set("Name", Box::new(|_| Value::Bool(true)));
    assert_eq!(
        vec![
            "first=kept x",
            "name=Text(\"name0\")",
            "count=Number(U8, 0)",
            "second=kept y",
            "letter=Char('0')"
        ],
        values(&builder.build())
    );
}

#[test]
fn a_bulk_build_equals_single_builds() {
    let given = vec!["x".to_string(), "y".to_string()];
    let mut bulk = builder_of(&mixed(), given.clone())
        .set("name", Box::new(|i| Value::Text(format!("n{}", i * i))))
        .with_index(7);
    let mut single = builder_of(&mixed(), given)
        .set("name", Box::new(|i| Value::Text(format!("n{}", i * i))))
        .with_index(7);
    let all = bulk.build_vec(25);
    assert_eq!(25, all.len());
    for instance in &all {
        assert_eq!(*instance, single.build());
    }
    assert_eq!(single.index, bulk.index);
    assert_eq!(32, bulk.index);
    assert!(bulk.build_vec(0).is_empty());
    assert_eq!(32, bulk.index);
}

#[test]
fn a_builder_needs_one_value_per_opted_out_field() {
    let item = mixed();
    let fields = get_fields(&item);
    let none: Result<Builder<String, Generate>, BuildError> = Builder::new(&fields, vec![]);
    assert_eq!(Some(BuildError::Arity), none.err());
    let many: Result<Builder<String, Generate>, BuildError> =
        Builder::new(&fields, vec!["a".to_string(), "b".to_string(), "c".to_string()]);
    assert_eq!(Some(BuildError::Arity), many.err());

    let bad = ItemStruct {
        ident: "Bad".to_string(),
        fields: vec![
            opted_out("given", path("Opaque")),
            named(
                "grid",
                TypeExpr {
                    text: "[u8; N]".to_string(),
                    shape: TypeShape::Array(Box::new(path("u8")), ArrayLength::Expression),
                },
            ),
            named("pair", TypeExpr { text: "(u8, u8)".to_string(), shape: TypeShape::Other }),
        ],
    };
    let fields = get_fields(&bad);
    let refused: Result<Builder<String, Generate>, BuildError> = Builder::new(&fields, vec![]);
    assert_eq!(
        Some(BuildError::Unsupported(Refusal {
            field: 1,
            reason: ClassifyError::UnsupportedLength
        })),
        refused.err()
    );
}

#[test]
fn a_record_of_opted_out_fields_only_is_cloned() {
    let item = ItemStruct {
        ident: "Opaque".to_string(),
        fields: vec![opted_out("a", path("A")), opted_out("b", path("B"))],
    };
    let mut builder = builder_of(&item, vec!["one".to_string(), "two".to_string()]);
    for _ in 0..3 {
        assert_eq!(vec!["a=kept one", "b=kept two"], values(&builder.build()));
    }
    assert_eq!(3, builder.index);
}

#[test]
fn the_example_builder_uses_fixed_indices() {
    let mut builder: ExampleBuilder<Words> = TemplateExample::tlayuda();
    let built = builder.build();
    assert_eq!("first_name0", built.first_name);
    assert_eq!("last_name1", built.last_name);
    let again = builder.build();
    assert_eq!("first_name0", again.first_name);
    assert_eq!("last_name1", again.last_name);
}

#[test]
fn the_example_builder_takes_overrides() {
    let builder: ExampleBuilder<Words> = ExampleBuilder::new();
    let mut builder = builder.set_first_name(Box::new(|i| format!("Example{}", i)));
    let built = builder.build();
    assert_eq!("Example0", built.first_name);
    assert_eq!("last_name1", built.last_name);
    let mut builder = builder._set_last_name(Box::new(|i| format!("Last{}", i + 10)));
    let built = builder.build();
    assert_eq!("Example0", built.first_name);
    assert_eq!("Last11", built.last_name);
}
