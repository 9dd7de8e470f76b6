use odoo_18_quotations_to_19::batch_update::{
    batch_value, BatchUpdateArg, BatchUpdateOdooVersion, BatchValueError, FieldValueKind,
};

#[test]
fn field_value_kinds() {
    for t in ["integer", "float", "monetary", "many2one"] {
        assert_eq!(FieldValueKind::for_field_type(t), Some(FieldValueKind::Number));
    }
    for t in ["char", "text", "date", "selection", "html"] {
        assert_eq!(FieldValueKind::for_field_type(t), Some(FieldValueKind::Text));
    }
    for t in ["one2many", "many2many"] {
        assert_eq!(FieldValueKind::for_field_type(t), Some(FieldValueKind::Commands));
    }
    for t in ["binary", "boolean", "datetime", "", "Integer"] {
        assert_eq!(FieldValueKind::for_field_type(t), None);
    }
}

fn arg() -> BatchUpdateArg {
    BatchUpdateArg {
        model: "res.partner".into(),
        field: "comment".into(),
        value: "hi".into(),
        ids: vec![],
        limit: None,
        odoo_version: None,
    }
}

#[test]
fn batch_defaults() {
    let mut a = arg();
    assert_eq!(a.limit(), 30);
    assert_eq!(a.odoo_version(), BatchUpdateOdooVersion::Odoo19);
    assert_eq!(BatchUpdateOdooVersion::default(), BatchUpdateOdooVersion::Odoo19);
    assert!(a.updates_every_record());
    a.limit = Some(7);
    a.odoo_version = Some(BatchUpdateOdooVersion::Odoo18);
    a.ids = vec![1];
    assert_eq!(a.limit(), 7);
    assert_eq!(a.odoo_version(), BatchUpdateOdooVersion::Odoo18);
    assert!(!a.updates_every_record());
}

#[test]
fn batch_values_by_type() {
    assert_eq!(batch_value("integer", "42").unwrap(), serde_json::Value::from(42u64));
    assert_eq!(batch_value("monetary", "-1.5").unwrap(), serde_json::Value::from(-1.5f64));
    assert_eq!(batch_value("char", "hi").unwrap(), serde_json::Value::String("hi".into()));
    assert_eq!(batch_value("date", "2024-01-01").unwrap(), serde_json::Value::String("2024-01-01".into()));
    let expected: serde_json::Value = serde_json::from_str("[[6,0,[1,2]],[4,7,0]]").unwrap();
    assert_eq!(batch_value("many2many", "[[6, 0, [1, 2]], [4, 7, 0]]").unwrap(), expected);
}

#[test]
fn batch_value_errors() {
    match batch_value("binary", "x") {
        Err(BatchValueError::UnsupportedType(t)) => assert_eq!(t, "binary"),
        other => panic!("unexpected {:?}", other),
    }
    assert!(matches!(batch_value("integer", "abc"), Err(BatchValueError::Json(_))));
    assert!(matches!(batch_value("one2many", "[1]"), Err(BatchValueError::Json(_))));
}

#[test]
fn field_vals_object() {
    let expected: serde_json::Value = serde_json::from_str(r#"{"comment": "hi"}"#).unwrap();
    assert_eq!(arg().field_vals(serde_json::Value::String("hi".into())), expected);
}
