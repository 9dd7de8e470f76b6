use odoo_18_quotations_to_19::error::MigrationError;
use odoo_18_quotations_to_19::transfert::res_partner_18_fields_to_19_properties::{
    find_property_name, property_update, rows_to_copy, PartnerFieldRow,
    ResPartner18FieldsTo19PropertiesArg, X19Property, X19PropertyName, X19PropertyNameParseError,
};

#[test]
fn test_name() {
    assert_eq!(
        "123ssdaca".parse::<X19PropertyName>().unwrap(),
        X19PropertyName::Name("123ssdaca".into())
    );
}

#[test]
fn test_string() {
    assert_eq!(
        "string:(allo)".parse::<X19PropertyName>().unwrap(),
        X19PropertyName::String("allo".into())
    );
}

#[test]
fn property_name_label_inside_text() {
    assert_eq!(
        X19PropertyName::parse("see string:(Hobby_1) here").unwrap(),
        X19PropertyName::String("Hobby_1".into())
    );
    assert!(matches!(
        X19PropertyName::parse("string:()"),
        Err(X19PropertyNameParseError::EmptyInner)
    ));
    assert!(matches!(
        "string:()".parse::<X19PropertyName>(),
        Err(X19PropertyNameParseError::EmptyInner)
    ));
}

#[test]
fn property_label_with_spaces() {
    assert_eq!(
        "string:(my prop)".parse::<X19PropertyName>().unwrap(),
        X19PropertyName::String("my prop".into())
    );
    assert_eq!(
        X19PropertyName::parse("string:(Date de naissance)").unwrap(),
        X19PropertyName::String("Date de naissance".into())
    );
}

#[test]
fn property_name_from_capture() {
    assert_eq!(
        X19PropertyName::from_capture("x", None).unwrap(),
        X19PropertyName::Name("x".into())
    );
    assert!(matches!(
        X19PropertyName::from_capture("x", Some(None)),
        Err(X19PropertyNameParseError::EmptyInner)
    ));
    assert_eq!(
        X19PropertyName::from_capture("x", Some(Some("y".into()))).unwrap(),
        X19PropertyName::String("y".into())
    );
    assert!(matches!(
        X19PropertyName::from_capture("x", Some(Some(String::new()))),
        Err(X19PropertyNameParseError::EmptyInner)
    ));
}

fn props() -> Vec<X19Property> {
    vec![
        X19Property { name: "p1".into(), string: "Hobby".into() },
        X19Property { name: "p2".into(), string: "Sport".into() },
        X19Property { name: "p3".into(), string: "Hobby".into() },
    ]
}

#[test]
fn find_property_takes_first_with_label() {
    assert_eq!(find_property_name(&props(), &"Hobby".to_string()), Some("p1".to_string()));
    assert_eq!(find_property_name(&props(), &"Sport".to_string()), Some("p2".to_string()));
    assert_eq!(find_property_name(&props(), &"Music".to_string()), None);
}

#[test]
fn resolve_name_cases() {
    let by_name = X19PropertyName::Name("x_id".into());
    assert!(!by_name.needs_lookup());
    assert_eq!(by_name.resolve_name(None).unwrap(), "x_id");

    let by_label = X19PropertyName::String("Sport".into());
    assert!(by_label.needs_lookup());
    assert_eq!(by_label.clone().resolve_name(Some(props())).unwrap(), "p2");
    match by_label.resolve_name(None) {
        Err(MigrationError::PropertiesNotFound(l)) => assert_eq!(l, "Sport"),
        other => panic!("unexpected {:?}", other),
    }
    match X19PropertyName::String("Music".into()).resolve_name(Some(props())) {
        Err(MigrationError::PropertiesNotFound(l)) => assert_eq!(l, "Music"),
        other => panic!("unexpected {:?}", other),
    }
}

#[test]
fn batch_limit_defaults_to_thirty() {
    let mut arg = ResPartner18FieldsTo19PropertiesArg {
        x_18_field: "x_hobby".into(),
        x_19_property_name: X19PropertyName::Name("p".into()),
        batch_limit: None,
    };
    assert_eq!(arg.batch_limit(), 30);
    arg.batch_limit = Some(5);
    assert_eq!(arg.batch_limit(), 5);
}

#[test]
fn rows_to_copy_keeps_rows_with_id_and_value() {
    let rows = vec![
        PartnerFieldRow { id: Some(serde_json::Value::from(3u64)), value: Some("a".into()) },
        PartnerFieldRow { id: None, value: Some("b".into()) },
        PartnerFieldRow { id: Some(serde_json::Value::from(4u64)), value: None },
        PartnerFieldRow { id: Some("5".into()), value: Some("c".into()) },
        PartnerFieldRow { id: Some(serde_json::Value::from(-6i64)), value: Some("d".into()) },
        PartnerFieldRow { id: Some(serde_json::Value::from(1u64)), value: Some(serde_json::Value::Bool(false)) },
    ];
    assert_eq!(
        rows_to_copy(rows),
        vec![(3, serde_json::Value::from("a")), (1, serde_json::Value::Bool(false))]
    );
    assert_eq!(rows_to_copy(vec![]), vec![]);
}

#[test]
fn rows_to_copy_keeps_last_value_per_id() {
    let row = |id: u64, v: &str| PartnerFieldRow {
        id: Some(serde_json::Value::from(id)),
        value: Some(serde_json::Value::from(v)),
    };
    assert_eq!(
        rows_to_copy(vec![row(3, "a"), row(1, "b"), row(3, "c"), row(2, "d"), row(1, "e")]),
        vec![
            (3, serde_json::Value::from("c")),
            (1, serde_json::Value::from("e")),
            (2, serde_json::Value::from("d")),
        ]
    );
}

#[test]
fn property_update_value() {
    let expected: serde_json::Value =
        serde_json::from_str(r#"{"properties": {"name": "p_hobby", "value": 5}}"#).unwrap();
    assert_eq!(property_update("p_hobby", serde_json::Value::from(5u64)), expected);
}
