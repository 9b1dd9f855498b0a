use nimbus_fml::{parse_typeref_string, FMLError, TypeRef};

#[test]
fn test_convert_to_typeref_string() {
    // Testing converting to TypeRef::String
    assert_eq!(TypeRef::try_from("String".to_string()).unwrap(), TypeRef::String);
    TypeRef::try_from("string".to_string()).unwrap_err();
    TypeRef::try_from("str".to_string()).unwrap_err();
}

#[test]
fn test_convert_to_typeref_int() {
    // Testing converting to TypeRef::Int
    assert_eq!(TypeRef::try_from("Int".to_string()).unwrap(), TypeRef::Int);
    TypeRef::try_from("integer".to_string()).unwrap_err();
    TypeRef::try_from("int".to_string()).unwrap_err();
}

#[test]
fn test_convert_to_typeref_boolean() {
    // Testing converting to TypeRef::Boolean
    assert_eq!(TypeRef::try_from("Boolean".to_string()).unwrap(), TypeRef::Boolean);
    TypeRef::try_from("boolean".to_string()).unwrap_err();
    TypeRef::try_from("bool".to_string()).unwrap_err();
}

#[test]
fn test_convert_to_typeref_bundletext() {
    // Testing converting to TypeRef::BundleText
    assert_eq!(
        TypeRef::try_from("BundleText<test_name>".to_string()).unwrap(),
        TypeRef::BundleText("test_name".to_string())
    );
    TypeRef::try_from("bundletext(something)".to_string()).unwrap_err();
    TypeRef::try_from("BundleText()".to_string()).unwrap_err();
}

#[test]
fn test_convert_to_typeref_bundleimage() {
    // Testing converting to TypeRef::BundleImage
    assert_eq!(
        TypeRef::try_from("BundleImage<test_name>".to_string()).unwrap(),
        TypeRef::BundleImage("test_name".to_string())
    );
    TypeRef::try_from("bundleimage(something)".to_string()).unwrap_err();
    TypeRef::try_from("BundleImage()".to_string()).unwrap_err();
}

#[test]
fn test_convert_to_typeref_enum() {
    // Testing converting to TypeRef::Enum
    assert_eq!(
        TypeRef::try_from("Enum<test_name>".to_string()).unwrap(),
        TypeRef::Enum("test_name".to_string())
    );
    TypeRef::try_from("enum(something)".to_string()).unwrap_err();
    TypeRef::try_from("Enum()".to_string()).unwrap_err();
}

#[test]
fn test_convert_to_typeref_object() {
    // Testing converting to TypeRef::Object
    assert_eq!(
        TypeRef::try_from("Object<test_name>".to_string()).unwrap(),
        TypeRef::Object("test_name".to_string())
    );
    TypeRef::try_from("object(something)".to_string()).unwrap_err();
    TypeRef::try_from("Object()".to_string()).unwrap_err();
}

#[test]
fn test_convert_to_typeref_list() {
    // Testing converting to TypeRef::List
    assert_eq!(
        TypeRef::try_from("List<String>".to_string()).unwrap(),
        TypeRef::List(Box::new(TypeRef::String))
    );
    assert_eq!(
        TypeRef::try_from("List<Int>".to_string()).unwrap(),
        TypeRef::List(Box::new(TypeRef::Int))
    );
    assert_eq!(
        TypeRef::try_from("List<Boolean>".to_string()).unwrap(),
        TypeRef::List(Box::new(TypeRef::Boolean))
    );
    TypeRef::try_from("list(something)".to_string()).unwrap_err();
    TypeRef::try_from("List()".to_string()).unwrap_err();
}

#[test]
fn test_convert_to_typeref_option() {
    // Testing converting to TypeRef::Option
    assert_eq!(
        TypeRef::try_from("Option<String>".to_string()).unwrap(),
        TypeRef::Option(Box::new(TypeRef::String))
    );
    assert_eq!(
        TypeRef::try_from("Option<Int>".to_string()).unwrap(),
        TypeRef::Option(Box::new(TypeRef::Int))
    );
    assert_eq!(
        TypeRef::try_from("Option<Boolean>".to_string()).unwrap(),
        TypeRef::Option(Box::new(TypeRef::Boolean))
    );
    TypeRef::try_from("option(something)".to_string()).unwrap_err();
    TypeRef::try_from("Option(Something)".to_string()).unwrap_err();
}

#[test]
fn test_convert_to_typeref_map() {
    // Testing converting to TypeRef::Map
    assert_eq!(
        TypeRef::try_from("Map<String, String>".to_string()).unwrap(),
        TypeRef::StringMap(Box::new(TypeRef::String))
    );
    assert_eq!(
        TypeRef::try_from("Map<String, Int>".to_string()).unwrap(),
        TypeRef::StringMap(Box::new(TypeRef::Int))
    );
    assert_eq!(
        TypeRef::try_from("Map<String, Boolean>".to_string()).unwrap(),
        TypeRef::StringMap(Box::new(TypeRef::Boolean))
    );
    TypeRef::try_from("map(something)".to_string()).unwrap_err();
    TypeRef::try_from("Map(Something)".to_string()).unwrap_err();
}

#[test]
fn nested_expressions_mirror_their_nesting() {
    assert_eq!(
        TypeRef::try_from("List<Option<Map<String, Int>>>".to_string()).unwrap(),
        TypeRef::List(Box::new(TypeRef::Option(Box::new(TypeRef::StringMap(Box::new(
            TypeRef::Int
        ))))))
    );
    assert_eq!(
        TypeRef::try_from("Map<Enum<PlayerProfile>, List<Option<Boolean>>>".to_string()).unwrap(),
        TypeRef::EnumMap(
            Box::new(TypeRef::Enum("PlayerProfile".to_string())),
            Box::new(TypeRef::List(Box::new(TypeRef::Option(Box::new(TypeRef::Boolean)))))
        )
    );
}

#[test]
fn map_key_discrimination() {
    assert_eq!(
        TypeRef::try_from("Map<String, Int>".to_string()).unwrap(),
        TypeRef::StringMap(Box::new(TypeRef::Int))
    );
    assert_eq!(
        TypeRef::try_from("Map<Enum<Foo>, String>".to_string()).unwrap(),
        TypeRef::EnumMap(
            Box::new(TypeRef::Enum("Foo".to_string())),
            Box::new(TypeRef::String)
        )
    );
    match TypeRef::try_from("Map<Int, String>".to_string()).unwrap_err() {
        FMLError::UnsupportedMapKey(key) => assert_eq!(key, "Int"),
        other => panic!("expected UnsupportedMapKey, got {:?}", other),
    }
}

#[test]
fn bundle_text_requires_an_argument() {
    assert_eq!(
        TypeRef::try_from("BundleText<key>".to_string()).unwrap(),
        TypeRef::BundleText("key".to_string())
    );
    match TypeRef::try_from("BundleText".to_string()).unwrap_err() {
        FMLError::MalformedTypeExpression(name) => assert_eq!(name, "BundleText"),
        other => panic!("expected MalformedTypeExpression, got {:?}", other),
    }
}

#[test]
fn map_requires_two_parts() {
    match TypeRef::try_from("Map<String>".to_string()).unwrap_err() {
        FMLError::MalformedTypeExpression(name) => assert_eq!(name, "Map"),
        other => panic!("expected MalformedTypeExpression, got {:?}", other),
    }
    match TypeRef::try_from("Map<String, Int, Boolean>".to_string()).unwrap_err() {
        FMLError::MalformedTypeExpression(name) => assert_eq!(name, "Map"),
        other => panic!("expected MalformedTypeExpression, got {:?}", other),
    }
}

#[test]
fn unrecognized_constructor_names_the_token() {
    match TypeRef::try_from("Widget<Int>".to_string()).unwrap_err() {
        FMLError::TypeParsingError(name) => assert_eq!(name, "Widget"),
        other => panic!("expected TypeParsingError, got {:?}", other),
    }
}

#[test]
fn whitespace_around_tokens_is_tolerated() {
    assert_eq!(
        TypeRef::try_from(" List < String > ".to_string()).unwrap(),
        TypeRef::List(Box::new(TypeRef::String))
    );
    assert_eq!(
        TypeRef::try_from("Map< Enum<Foo> ,  Int >".to_string()).unwrap(),
        TypeRef::EnumMap(
            Box::new(TypeRef::Enum("Foo".to_string())),
            Box::new(TypeRef::Int)
        )
    );
}

#[test]
fn parse_splits_constructor_and_argument() {
    assert_eq!(
        parse_typeref_string("String".to_string()).unwrap(),
        ("String".to_string(), None)
    );
    assert_eq!(
        parse_typeref_string("List<Option<Int>>".to_string()).unwrap(),
        ("List".to_string(), Some("Option<Int>".to_string()))
    );
    assert_eq!(
        parse_typeref_string("Map<String, Object<Button>>".to_string()).unwrap(),
        ("Map".to_string(), Some("String, Object<Button>".to_string()))
    );
    assert_eq!(
        parse_typeref_string("BundleText".to_string()).unwrap(),
        ("BundleText".to_string(), None)
    );
}
