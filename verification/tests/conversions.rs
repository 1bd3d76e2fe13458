use mojom_parser::error::{ErrorKind, MojomError};
use mojom_parser::parse::MojomParse;
use mojom_parser::shapes::{Marker, Point};
use mojom_parser::structs::{
    strip_names, struct_from_value, struct_schema, struct_to_value, struct_values, MojomStruct,
};
use mojom_parser::value::{MojomType, MojomValue};

fn entry(name: &str, value: MojomValue) -> (String, MojomValue) {
    (name.to_string(), value)
}

fn point_value(x: i32, y: i32) -> MojomValue {
    MojomValue::Struct(vec![entry("x", MojomValue::Int(x)), entry("y", MojomValue::Int(y))])
}

fn marker_value(label: &str, visible: bool, x: i32, y: i32) -> MojomValue {
    MojomValue::Struct(vec![
        entry("label", MojomValue::Str(label.to_string())),
        entry("visible", MojomValue::Bool(visible)),
        entry("at", point_value(x, y)),
    ])
}

fn int_entries(k: usize) -> Vec<(String, MojomValue)> {
    let mut entries = Vec::new();
    for i in 0..k {
        entries.push((format!("f{}", i), MojomValue::Int(i as i32)));
    }
    entries
}

#[test]
fn point_schema_lists_fields_in_declared_order() {
    assert_eq!(
        Point::schema(),
        MojomType::Struct {
            fields: vec![
                ("x".to_string(), MojomType::Int32),
                ("y".to_string(), MojomType::Int32),
            ],
        }
    );
}

#[test]
fn point_to_value_lists_fields_in_declared_order() {
    assert_eq!(Point { x: 3, y: 4 }.to_value(), point_value(3, 4));
}

#[test]
fn point_from_value_accepts_matching_struct() {
    assert_eq!(Point::from_value(point_value(3, 4)), Ok(Point { x: 3, y: 4 }));
}

#[test]
fn point_from_value_refuses_one_entry() {
    let value = MojomValue::Struct(vec![entry("x", MojomValue::Int(3))]);
    let err = Point::from_value(value).unwrap_err();
    assert_eq!(err.kind, ErrorKind::ArityMismatch);
    assert_eq!(err.expected, "Point");
    assert_eq!(err.value, MojomValue::Struct(vec![entry("x", MojomValue::Int(3))]));
}

#[test]
fn point_from_value_refuses_bare_int() {
    let err = Point::from_value(MojomValue::Int(3)).unwrap_err();
    assert_eq!(
        err,
        MojomError {
            kind: ErrorKind::VariantMismatch,
            expected: "Point".to_string(),
            value: MojomValue::Int(3),
        }
    );
}

#[test]
fn round_trip_of_leaves() {
    assert_eq!(bool::from_value(true.to_value()), Ok(true));
    assert_eq!(bool::from_value(false.to_value()), Ok(false));
    for n in [i32::MIN, -1, 0, 1, 42, i32::MAX] {
        assert_eq!(i32::from_value(n.to_value()), Ok(n));
    }
    for s in ["", "a", "hello world", "\u{e9}\u{4e16}"] {
        assert_eq!(String::from_value(s.to_string().to_value()), Ok(s.to_string()));
    }
}

#[test]
fn round_trip_of_point() {
    for (x, y) in [(0, 0), (3, 4), (-7, 9), (i32::MIN, i32::MAX)] {
        let p = Point { x, y };
        assert_eq!(Point::from_value(p.to_value()), Ok(p));
    }
}

#[test]
fn round_trip_of_nested_struct() {
    let value = Marker { label: "home".to_string(), visible: true, at: Point { x: -2, y: 5 } }
        .to_value();
    assert_eq!(value, marker_value("home", true, -2, 5));
    assert_eq!(
        Marker::from_value(value),
        Ok(Marker { label: "home".to_string(), visible: true, at: Point { x: -2, y: 5 } })
    );
}

#[test]
fn leaf_values_and_schemas() {
    assert_eq!(true.to_value(), MojomValue::Bool(true));
    assert_eq!(7i32.to_value(), MojomValue::Int(7));
    assert_eq!("ab".to_string().to_value(), MojomValue::Str("ab".to_string()));
    assert_eq!(bool::schema(), MojomType::Bool);
    assert_eq!(i32::schema(), MojomType::Int32);
    assert_eq!(String::schema(), MojomType::Str);
}

#[test]
fn leaf_refuses_other_variant() {
    let err = i32::from_value(MojomValue::Bool(true)).unwrap_err();
    assert_eq!(err.kind, ErrorKind::VariantMismatch);
    assert_eq!(err.expected, "i32");
    assert_eq!(err.value, MojomValue::Bool(true));

    let err = bool::from_value(MojomValue::Int(1)).unwrap_err();
    assert_eq!(err.kind, ErrorKind::VariantMismatch);
    assert_eq!(err.expected, "bool");
    assert_eq!(err.value, MojomValue::Int(1));

    let err = String::from_value(point_value(1, 2)).unwrap_err();
    assert_eq!(err.kind, ErrorKind::VariantMismatch);
    assert_eq!(err.expected, "String");
    assert_eq!(err.value, point_value(1, 2));
}

#[test]
fn schema_has_one_entry_per_field() {
    match Point::schema() {
        MojomType::Struct { fields } => assert_eq!(fields.len(), Point::field_count()),
        other => panic!("not a struct schema: {:?}", other),
    }
    match Marker::schema() {
        MojomType::Struct { fields } => {
            assert_eq!(fields.len(), 3);
            assert_eq!(fields.len(), Marker::field_count());
            assert_eq!(fields[0], ("label".to_string(), MojomType::Str));
            assert_eq!(fields[1], ("visible".to_string(), MojomType::Bool));
            assert_eq!(fields[2], ("at".to_string(), Point::schema()));
        }
        other => panic!("not a struct schema: {:?}", other),
    }
}

#[test]
fn value_has_one_entry_per_field() {
    match (Marker { label: String::new(), visible: false, at: Point { x: 0, y: 0 } }).to_value() {
        MojomValue::Struct(entries) => assert_eq!(entries.len(), 3),
        other => panic!("not a struct value: {:?}", other),
    }
}

#[test]
fn every_other_arity_is_refused() {
    for k in [0usize, 1, 3, 4, 10] {
        let err = Point::from_value(MojomValue::Struct(int_entries(k))).unwrap_err();
        assert_eq!(err.kind, ErrorKind::ArityMismatch);
        assert_eq!(err.expected, "Point");
        assert_eq!(err.value, MojomValue::Struct(int_entries(k)));
    }
    for k in [0usize, 1, 2, 4] {
        let err = Marker::from_value(MojomValue::Struct(int_entries(k))).unwrap_err();
        assert_eq!(err.kind, ErrorKind::ArityMismatch);
        assert_eq!(err.expected, "Marker");
    }
    assert_eq!(Point::from_value(MojomValue::Struct(int_entries(2))), Ok(Point { x: 0, y: 1 }));
}

#[test]
fn arity_is_checked_before_the_fields() {
    let value = MojomValue::Struct(vec![
        entry("x", MojomValue::Bool(true)),
        entry("y", MojomValue::Bool(true)),
        entry("z", MojomValue::Bool(true)),
    ]);
    let err = Point::from_value(value).unwrap_err();
    assert_eq!(err.kind, ErrorKind::ArityMismatch);
    assert_eq!(err.expected, "Point");
}

#[test]
fn every_other_variant_is_refused() {
    for value in [
        MojomValue::Bool(false),
        MojomValue::Int(0),
        MojomValue::Str("Point".to_string()),
    ] {
        let err = Point::from_value(value).unwrap_err();
        assert_eq!(err.kind, ErrorKind::VariantMismatch);
        assert_eq!(err.expected, "Point");
    }
    let err = Marker::from_value(MojomValue::Str("m".to_string())).unwrap_err();
    assert_eq!(
        err,
        MojomError {
            kind: ErrorKind::VariantMismatch,
            expected: "Marker".to_string(),
            value: MojomValue::Str("m".to_string()),
        }
    );
}

#[test]
fn names_are_ignored_and_position_governs() {
    let renamed = MojomValue::Struct(vec![
        entry("y", MojomValue::Int(1)),
        entry("x", MojomValue::Int(2)),
    ]);
    assert_eq!(Point::from_value(renamed), Ok(Point { x: 1, y: 2 }));

    let unrelated = MojomValue::Struct(vec![
        entry("", MojomValue::Int(1)),
        entry("anything", MojomValue::Int(2)),
    ]);
    assert_eq!(Point::from_value(unrelated), Ok(Point { x: 1, y: 2 }));
}

#[test]
fn reordered_entries_land_in_the_fields_at_their_positions() {
    let reordered = MojomValue::Struct(vec![
        entry("y", MojomValue::Int(2)),
        entry("x", MojomValue::Int(1)),
    ]);
    assert_eq!(Point::from_value(reordered), Ok(Point { x: 2, y: 1 }));
}

#[test]
fn nested_failure_is_handed_on_unchanged() {
    let inner = MojomValue::Struct(vec![entry("x", MojomValue::Int(3))]);
    let value = MojomValue::Struct(vec![
        entry("label", MojomValue::Str("a".to_string())),
        entry("visible", MojomValue::Bool(true)),
        entry("at", MojomValue::Struct(vec![entry("x", MojomValue::Int(3))])),
    ]);
    let outer = Marker::from_value(value).unwrap_err();
    let own = Point::from_value(inner).unwrap_err();
    assert_eq!(outer, own);
    assert_eq!(outer.kind, ErrorKind::ArityMismatch);
    assert_eq!(outer.expected, "Point");
}

#[test]
fn leaf_failure_inside_nested_struct_is_handed_on() {
    let value = MojomValue::Struct(vec![
        entry("label", MojomValue::Str("a".to_string())),
        entry("visible", MojomValue::Bool(true)),
        entry(
            "at",
            MojomValue::Struct(vec![
                entry("x", MojomValue::Int(3)),
                entry("y", MojomValue::Str("four".to_string())),
            ]),
        ),
    ]);
    assert_eq!(
        Marker::from_value(value),
        Err(MojomError {
            kind: ErrorKind::VariantMismatch,
            expected: "i32".to_string(),
            value: MojomValue::Str("four".to_string()),
        })
    );
}

#[test]
fn first_failing_field_wins() {
    let value = MojomValue::Struct(vec![
        entry("label", MojomValue::Int(1)),
        entry("visible", MojomValue::Int(2)),
        entry("at", MojomValue::Int(3)),
    ]);
    assert_eq!(
        Marker::from_value(value),
        Err(MojomError {
            kind: ErrorKind::VariantMismatch,
            expected: "String".to_string(),
            value: MojomValue::Int(1),
        })
    );

    let value = MojomValue::Struct(vec![
        entry("label", MojomValue::Str("ok".to_string())),
        entry("visible", MojomValue::Int(2)),
        entry("at", MojomValue::Int(3)),
    ]);
    assert_eq!(
        Marker::from_value(value),
        Err(MojomError {
            kind: ErrorKind::VariantMismatch,
            expected: "bool".to_string(),
            value: MojomValue::Int(2),
        })
    );

    let value = MojomValue::Struct(vec![
        entry("x", MojomValue::Bool(true)),
        entry("y", MojomValue::Bool(false)),
    ]);
    assert_eq!(
        Point::from_value(value),
        Err(MojomError {
            kind: ErrorKind::VariantMismatch,
            expected: "i32".to_string(),
            value: MojomValue::Bool(true),
        })
    );
}

#[test]
fn strip_names_keeps_values_in_order() {
    assert_eq!(strip_names(Vec::new()), Vec::<MojomValue>::new());
    assert_eq!(
        strip_names(vec![
            entry("c", MojomValue::Int(1)),
            entry("a", MojomValue::Bool(true)),
            entry("b", point_value(5, 6)),
        ]),
        vec![MojomValue::Int(1), MojomValue::Bool(true), point_value(5, 6)]
    );
}

#[test]
fn field_list_operations() {
    assert_eq!(Point::declared_name(), "Point");
    assert_eq!(Point::name_of_type(), "Point");
    assert_eq!(Marker::name_of_type(), "Marker");
    assert_eq!(Point::field_count(), 2);
    assert_eq!(Marker::field_count(), 3);
    assert_eq!(
        Point { x: 1, y: 2 }.into_fields(),
        vec![entry("x", MojomValue::Int(1)), entry("y", MojomValue::Int(2))]
    );
    assert_eq!(
        Point::from_fields(vec![MojomValue::Int(8), MojomValue::Int(9)]),
        Ok(Point { x: 8, y: 9 })
    );
    assert_eq!(
        Point::field_schemas(),
        vec![("x".to_string(), MojomType::Int32), ("y".to_string(), MojomType::Int32)]
    );
}

#[test]
fn generic_operations_agree_with_the_capability() {
    assert_eq!(struct_schema::<Point>(), Point::schema());
    assert_eq!(struct_to_value(Point { x: 1, y: 2 }), Point { x: 1, y: 2 }.to_value());
    assert_eq!(struct_from_value::<Point>(point_value(1, 2)), Point::from_value(point_value(1, 2)));
    assert_eq!(
        struct_from_value::<Marker>(MojomValue::Bool(true)),
        Marker::from_value(MojomValue::Bool(true))
    );
}

#[test]
fn struct_values_checks_variant_then_arity_then_drops_names() {
    assert_eq!(
        struct_values(point_value(3, 4), 2, "Point"),
        Ok(vec![MojomValue::Int(3), MojomValue::Int(4)])
    );
    assert_eq!(struct_values(MojomValue::Struct(Vec::new()), 0, "Unit"), Ok(Vec::new()));
    assert_eq!(
        struct_values(point_value(3, 4), 3, "Triple"),
        Err(MojomError {
            kind: ErrorKind::ArityMismatch,
            expected: "Triple".to_string(),
            value: point_value(3, 4),
        })
    );
    assert_eq!(
        struct_values(MojomValue::Bool(true), 0, "Unit"),
        Err(MojomError {
            kind: ErrorKind::VariantMismatch,
            expected: "Unit".to_string(),
            value: MojomValue::Bool(true),
        })
    );
}
