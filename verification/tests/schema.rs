use datafusion::arrow::datatypes::DataType;
use sql_executor::schema::{empty_schema, schema_to_lowercase, with_names, Field, Schema};

fn column(name: &str, data_type: DataType, nullable: bool) -> Field {
    Field {
        name: name.to_string(),
        data_type,
        nullable,
    }
}

fn lowered_name(name: &str) -> String {
    let schema = Schema {
        fields: vec![column(name, DataType::Int8, false)],
    };
    let mut lowered = schema_to_lowercase(&schema);
    assert_eq!(lowered.fields.len(), 1);
    lowered.fields.remove(0).name
}

#[test]
fn schema_to_lowercase_rewrites_the_name_only() {
    let schema = Schema {
        fields: vec![column("UserName", DataType::Utf8, true)],
    };
    let lowered = schema_to_lowercase(&schema);
    assert_eq!(lowered.fields[0].name, "username");
    assert_eq!(lowered.fields[0].data_type, DataType::Utf8);
    assert!(lowered.fields[0].nullable);
}

#[test]
fn schema_to_lowercase_maps_the_whole_alphabet() {
    assert_eq!(
        lowered_name("ABCDEFGHIJKLMNOPQRSTUVWXYZ"),
        "abcdefghijklmnopqrstuvwxyz"
    );
}

#[test]
fn schema_to_lowercase_keeps_characters_without_case() {
    assert_eq!(lowered_name("@[`{09_ -"), "@[`{09_ -");
    assert_eq!(lowered_name("农历新年"), "农历新年");
}

#[test]
fn schema_to_lowercase_lowers_letters_outside_ascii() {
    assert_eq!(lowered_name("ÉCOLE"), "école");
    assert_eq!(lowered_name("ÉCOLE Ünï 数"), "école ünï 数");
    assert_eq!(lowered_name("ΑΒΓ"), "αβγ");
    assert_eq!(lowered_name("ЖУК"), "жук");
}

#[test]
fn schema_to_lowercase_follows_the_rule_for_a_final_sigma() {
    assert_eq!(lowered_name("ὈΔΥΣΣΕΎΣ"), "ὀδυσσεύς");
}

#[test]
fn schema_to_lowercase_may_lengthen_a_name() {
    let lowered = lowered_name("İ");
    assert_eq!(lowered, "i\u{307}");
    assert_eq!(lowered.chars().count(), 2);
}

#[test]
fn schema_to_lowercase_keeps_an_empty_name() {
    assert_eq!(lowered_name(""), "");
}

#[test]
fn schema_to_lowercase_keeps_order_types_and_nullability() {
    let schema = Schema {
        fields: vec![
            column("ID", DataType::Int64, false),
            column("Name", DataType::Utf8, true),
            column("already_lower", DataType::Float64, true),
            column("MiXeD_9", DataType::Boolean, false),
        ],
    };
    let lowered = schema_to_lowercase(&schema);
    assert_eq!(lowered.fields.len(), 4);
    let names: Vec<&str> = lowered.fields.iter().map(|f| f.name.as_str()).collect();
    assert_eq!(names, vec!["id", "name", "already_lower", "mixed_9"]);
    let types: Vec<DataType> = lowered.fields.iter().map(|f| f.data_type.clone()).collect();
    assert_eq!(
        types,
        vec![
            DataType::Int64,
            DataType::Utf8,
            DataType::Float64,
            DataType::Boolean
        ]
    );
    let nullable: Vec<bool> = lowered.fields.iter().map(|f| f.nullable).collect();
    assert_eq!(nullable, vec![false, true, true, false]);
}

#[test]
fn schema_to_lowercase_leaves_its_argument_alone() {
    let schema = Schema {
        fields: vec![column("ID", DataType::Int64, false)],
    };
    let _ = schema_to_lowercase(&schema);
    assert_eq!(schema.fields[0].name, "ID");
}

#[test]
fn schema_to_lowercase_keeps_names_that_collide() {
    let schema = Schema {
        fields: vec![
            column("Key", DataType::Int32, false),
            column("KEY", DataType::Utf8, true),
            column("key", DataType::Boolean, false),
        ],
    };
    let lowered = schema_to_lowercase(&schema);
    assert_eq!(lowered.fields.len(), 3);
    for field in lowered.fields.iter() {
        assert_eq!(field.name, "key");
    }
    assert_eq!(lowered.fields[0].data_type, DataType::Int32);
    assert_eq!(lowered.fields[1].data_type, DataType::Utf8);
    assert_eq!(lowered.fields[2].data_type, DataType::Boolean);
}

#[test]
fn schema_to_lowercase_of_no_fields_has_no_fields() {
    let lowered = schema_to_lowercase(&Schema { fields: vec![] });
    assert!(lowered.fields.is_empty());
}

#[test]
fn schema_to_lowercase_twice_is_once() {
    let schema = Schema {
        fields: vec![
            column("Ab", DataType::Int64, false),
            column("cD", DataType::Utf8, true),
        ],
    };
    let once = schema_to_lowercase(&schema);
    let twice = schema_to_lowercase(&once);
    for (a, b) in once.fields.iter().zip(twice.fields.iter()) {
        assert_eq!(a.name, b.name);
        assert_eq!(a.data_type, b.data_type);
        assert_eq!(a.nullable, b.nullable);
    }
}

#[test]
fn schema_to_lowercase_gives_names_that_lowering_keeps() {
    let schema = Schema {
        fields: vec![
            column("SELECT", DataType::Int64, false),
            column("ÉCOLE", DataType::Utf8, true),
            column("ΣΑΣ", DataType::Utf8, true),
        ],
    };
    let lowered = schema_to_lowercase(&schema);
    for field in lowered.fields.iter() {
        assert_eq!(field.name, field.name.to_lowercase());
        assert!(!field.name.chars().any(|c| c.is_uppercase()));
    }
}

#[test]
fn schema_to_lowercase_has_no_ascii_capital_left() {
    let schema = Schema {
        fields: vec![
            column("SELECT", DataType::Int64, false),
            column("From_Table", DataType::Utf8, true),
            column("zZ", DataType::Utf8, true),
        ],
    };
    let lowered = schema_to_lowercase(&schema);
    for field in lowered.fields.iter() {
        assert!(!field.name.chars().any(|c| c.is_ascii_uppercase()));
    }
}

#[test]
fn schema_to_lowercase_keeps_a_nested_type() {
    let inner = std::sync::Arc::new(datafusion::arrow::datatypes::Field::new(
        "Item",
        DataType::Int32,
        true,
    ));
    let schema = Schema {
        fields: vec![column("Values", DataType::List(inner.clone()), true)],
    };
    let lowered = schema_to_lowercase(&schema);
    assert_eq!(lowered.fields[0].name, "values");
    assert_eq!(lowered.fields[0].data_type, DataType::List(inner));
}

#[test]
fn empty_schema_has_no_fields() {
    assert!(empty_schema().fields.is_empty());
}

#[test]
fn with_names_puts_each_name_at_its_place() {
    let schema = Schema {
        fields: vec![
            column("A", DataType::Int64, false),
            column("B", DataType::Utf8, true),
        ],
    };
    let names = vec!["first".to_string(), "Second".to_string()];
    let renamed = with_names(&schema, &names);
    assert_eq!(renamed.fields.len(), 2);
    assert_eq!(renamed.fields[0].name, "first");
    assert_eq!(renamed.fields[0].data_type, DataType::Int64);
    assert!(!renamed.fields[0].nullable);
    assert_eq!(renamed.fields[1].name, "Second");
    assert_eq!(renamed.fields[1].data_type, DataType::Utf8);
    assert!(renamed.fields[1].nullable);
    assert_eq!(schema.fields[0].name, "A");
}

#[test]
fn with_names_keeps_the_name_of_a_field_without_a_new_one() {
    let schema = Schema {
        fields: vec![
            column("A", DataType::Int64, false),
            column("B", DataType::Utf8, true),
            column("C", DataType::Boolean, true),
        ],
    };
    let renamed = with_names(&schema, &vec!["x".to_string()]);
    let names: Vec<&str> = renamed.fields.iter().map(|f| f.name.as_str()).collect();
    assert_eq!(names, vec!["x", "B", "C"]);
    let renamed = with_names(&schema, &vec![]);
    let names: Vec<&str> = renamed.fields.iter().map(|f| f.name.as_str()).collect();
    assert_eq!(names, vec!["A", "B", "C"]);
}

#[test]
fn with_names_does_not_use_names_beyond_the_last_field() {
    let schema = Schema {
        fields: vec![column("A", DataType::Int64, false)],
    };
    let names = vec!["x".to_string(), "y".to_string(), "z".to_string()];
    let renamed = with_names(&schema, &names);
    assert_eq!(renamed.fields.len(), 1);
    assert_eq!(renamed.fields[0].name, "x");
    let none = with_names(&Schema { fields: vec![] }, &names);
    assert!(none.fields.is_empty());
}
