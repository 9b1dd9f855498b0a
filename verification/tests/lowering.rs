use nimbus_fml::{
    EnumBody, EnumVariantBody, FMLError, FeatureBody, FeatureVariable, FeatureVariableBody,
    ManifestFrontEnd, ObjectBody, ObjectFieldBody, Parser, PropDef, SymbolTable, TypeRef, Types,
    Value, VariantDef,
};

fn sample_manifest() -> ManifestFrontEnd {
    ManifestFrontEnd {
        types: Types {
            enums: vec![(
                "PlayerProfile".to_string(),
                EnumBody {
                    description: "This is an enum type".to_string(),
                    variants: vec![
                        (
                            "adult".to_string(),
                            EnumVariantBody {
                                description: "This represents an adult player profile"
                                    .to_string(),
                            },
                        ),
                        (
                            "child".to_string(),
                            EnumVariantBody {
                                description: "This represents a child player profile".to_string(),
                            },
                        ),
                    ],
                },
            )],
            objects: vec![(
                "Button".to_string(),
                ObjectBody {
                    description: "This is a button object".to_string(),
                    failable: None,
                    fields: vec![
                        (
                            "label".to_string(),
                            ObjectFieldBody {
                                description: "This is the label for the button".to_string(),
                                required: false,
                                variable_type: "String".to_string(),
                                default: None,
                            },
                        ),
                        (
                            "color".to_string(),
                            ObjectFieldBody {
                                description: "This is the color of the button".to_string(),
                                required: false,
                                variable_type: "Option<String>".to_string(),
                                default: None,
                            },
                        ),
                    ],
                },
            )],
        },
        features: vec![(
            "dialog-appearance".to_string(),
            FeatureBody {
                description: "This is the appearance of the dialog".to_string(),
                variables: vec![
                    (
                        "positive".to_string(),
                        FeatureVariableBody {
                            description: "This is a positive button".to_string(),
                            variable_type: "Object<Button>".to_string(),
                            default: Some(Value::Record(vec![
                                ("label".to_string(), Value::Text("Ok then".to_string())),
                                ("color".to_string(), Value::Text("blue".to_string())),
                            ])),
                        },
                    ),
                    (
                        "negative".to_string(),
                        FeatureVariableBody {
                            description: "This is a negative button".to_string(),
                            variable_type: "Object<Button>".to_string(),
                            default: Some(Value::Record(vec![
                                ("label".to_string(), Value::Text("Not this time".to_string())),
                                ("color".to_string(), Value::Text("red".to_string())),
                            ])),
                        },
                    ),
                    (
                        "background-color".to_string(),
                        FeatureVariableBody {
                            description: "This is the background color".to_string(),
                            variable_type: "String".to_string(),
                            default: Some(Value::Text("white".to_string())),
                        },
                    ),
                ],
                default: None,
            },
        )],
        channels: vec!["release".to_string()],
    }
}

#[test]
fn test_parse_from_front_end_representation() {
    let parser = Parser::new(sample_manifest()).unwrap();
    let ir = parser.get_intermediate_representation().unwrap();

    // Validate parsed enums
    assert!(ir.enum_defs.len() == 1);
    assert!(ir.enum_defs.contains(parser.enums.first().unwrap()));
    let enum_def = ir.enum_defs.first().unwrap();
    assert!(enum_def.name == *"PlayerProfile");
    assert!(enum_def.doc == *"This is an enum type");
    assert!(enum_def.variants.contains(&VariantDef {
        name: "adult".to_string(),
        doc: "This represents an adult player profile".to_string()
    }));
    assert!(enum_def.variants.contains(&VariantDef {
        name: "child".to_string(),
        doc: "This represents a child player profile".to_string()
    }));

    // Validate parsed objects
    assert!(ir.obj_defs.len() == 1);
    assert!(ir.obj_defs.contains(parser.objects.first().unwrap()));
    let obj_def = ir.obj_defs.first().unwrap();
    assert!(obj_def.name == *"Button");
    assert!(obj_def.doc == *"This is a button object");
    assert!(obj_def.props.contains(&PropDef {
        name: "label".to_string(),
        doc: "This is the label for the button".to_string(),
        typ: TypeRef::String,
        default: Value::Null,
    }));
    assert!(obj_def.props.contains(&PropDef {
        name: "color".to_string(),
        doc: "This is the color of the button".to_string(),
        typ: TypeRef::Option(Box::new(TypeRef::String)),
        default: Value::Null,
    }));

    // Validate parsed features
    assert!(ir.feature_defs.len() == 1);
    assert!(ir.feature_defs.contains(parser.features.first().unwrap()));
    let feature_def = ir.feature_defs.first().unwrap();
    assert!(feature_def.name == *"dialog-appearance");
    assert!(feature_def.doc == *"This is the appearance of the dialog");
    let positive_button = feature_def.props.iter().find(|x| x.name == "positive").unwrap();
    assert!(positive_button.name == *"positive");
    assert!(positive_button.doc == *"This is a positive button");
    assert!(positive_button.typ == TypeRef::Object("Button".to_string()));
    assert!(positive_button.default.get("label").unwrap().as_str() == Some("Ok then"));
    assert!(positive_button.default.get("color").unwrap().as_str() == Some("blue"));
    let negative_button = feature_def.props.iter().find(|x| x.name == "negative").unwrap();
    assert!(negative_button.name == *"negative");
    assert!(negative_button.doc == *"This is a negative button");
    assert!(negative_button.typ == TypeRef::Object("Button".to_string()));
    assert!(negative_button.default.get("label").unwrap().as_str() == Some("Not this time"));
    assert!(negative_button.default.get("color").unwrap().as_str() == Some("red"));
    let background_color =
        feature_def.props.iter().find(|x| x.name == "background-color").unwrap();
    assert!(background_color.name == *"background-color");
    assert!(background_color.doc == *"This is the background color");
    assert!(background_color.typ == TypeRef::String);
    assert!(background_color.default.as_str() == Some("white"));
}

#[test]
fn feature_variable_falls_back_to_declared_names() {
    let mut manifest = sample_manifest();
    manifest.features[0].1.variables.push((
        "profile".to_string(),
        FeatureVariableBody {
            description: "The selected profile".to_string(),
            variable_type: "PlayerProfile".to_string(),
            default: None,
        },
    ));
    manifest.features[0].1.variables.push((
        "button".to_string(),
        FeatureVariableBody {
            description: "The button itself".to_string(),
            variable_type: "Button".to_string(),
            default: None,
        },
    ));
    let parser = Parser::new(manifest).unwrap();
    let feature = &parser.features[0];
    let profile = feature.props.iter().find(|x| x.name == "profile").unwrap();
    assert_eq!(profile.typ, TypeRef::Enum("PlayerProfile".to_string()));
    let button = feature.props.iter().find(|x| x.name == "button").unwrap();
    assert_eq!(button.typ, TypeRef::Object("Button".to_string()));
}

#[test]
fn unknown_feature_type_is_an_error_not_a_crash() {
    let mut manifest = sample_manifest();
    manifest.features[0].1.variables.push((
        "mystery".to_string(),
        FeatureVariableBody {
            description: "An undeclared type".to_string(),
            variable_type: "Gizmo".to_string(),
            default: None,
        },
    ));
    let err = Parser::new(manifest).unwrap_err();
    assert_eq!(err.detail(), "Gizmo");
    match err {
        FMLError::UnknownUserType(name) => assert_eq!(name, "Gizmo"),
        other => panic!("expected UnknownUserType, got {:?}", other),
    }
}

#[test]
fn object_field_has_no_symbol_fallback() {
    let mut manifest = sample_manifest();
    manifest.types.objects[0].1.fields.push((
        "profile".to_string(),
        ObjectFieldBody {
            description: "A reference by declared name".to_string(),
            required: false,
            variable_type: "PlayerProfile".to_string(),
            default: None,
        },
    ));
    match Parser::new(manifest).unwrap_err() {
        FMLError::TypeParsingError(name) => assert_eq!(name, "PlayerProfile"),
        other => panic!("expected TypeParsingError, got {:?}", other),
    }
}

#[test]
fn lowering_is_deterministic() {
    let first = Parser::new(sample_manifest())
        .unwrap()
        .get_intermediate_representation()
        .unwrap();
    let second = Parser::new(sample_manifest())
        .unwrap()
        .get_intermediate_representation()
        .unwrap();
    assert_eq!(first, second);
    assert!(first.hints.is_empty());
}

#[test]
fn feature_level_default_is_kept_only_when_supplied() {
    let mut manifest = sample_manifest();
    manifest.features[0].1.default = Some(Value::Text("fallback".to_string()));
    let parser = Parser::new(manifest).unwrap();
    assert_eq!(
        parser.features[0].default,
        Some(Value::Text("fallback".to_string()))
    );
    let parser = Parser::new(sample_manifest()).unwrap();
    assert_eq!(parser.features[0].default, None);
}

#[test]
fn symbol_table_lookup_finds_registered_names() {
    let mut table = SymbolTable::new();
    table.insert("PlayerProfile".to_string(), TypeRef::Enum("PlayerProfile".to_string()));
    table.insert("Button".to_string(), TypeRef::Object("Button".to_string()));
    assert_eq!(
        table.lookup(&"PlayerProfile".to_string()),
        Some(TypeRef::Enum("PlayerProfile".to_string()))
    );
    assert_eq!(
        table.lookup(&"Button".to_string()),
        Some(TypeRef::Object("Button".to_string()))
    );
    assert_eq!(table.lookup(&"Gizmo".to_string()), None);
    // a later insertion under the same name wins
    table.insert("Button".to_string(), TypeRef::Enum("Button".to_string()));
    assert_eq!(
        table.lookup(&"Button".to_string()),
        Some(TypeRef::Enum("Button".to_string()))
    );
}

#[test]
fn prop_def_try_from_resolves_without_fallback() {
    let prop = PropDef::try_from(FeatureVariable {
        name: "count".to_string(),
        body: FeatureVariableBody {
            description: "How many".to_string(),
            variable_type: "Int".to_string(),
            default: Some(Value::Int(3)),
        },
    })
    .unwrap();
    assert_eq!(prop.name, "count");
    assert_eq!(prop.typ, TypeRef::Int);
    assert_eq!(prop.default, Value::Int(3));
    let err = PropDef::try_from(FeatureVariable {
        name: "profile".to_string(),
        body: FeatureVariableBody {
            description: "By declared name".to_string(),
            variable_type: "PlayerProfile".to_string(),
            default: None,
        },
    })
    .unwrap_err();
    match err {
        FMLError::TypeParsingError(name) => assert_eq!(name, "PlayerProfile"),
        other => panic!("expected TypeParsingError, got {:?}", other),
    }
}
