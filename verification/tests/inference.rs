use csv_to::inference::infer_column_type;
use csv_to::models::{ColumnDef, DataType, ParsedContent};

fn row(cells: &[&str]) -> Vec<String> {
    cells.iter().map(|c| c.to_string()).collect()
}

fn one_column(values: &[&str]) -> Vec<Vec<String>> {
    values.iter().map(|v| row(&[v])).collect()
}

#[test]
fn all_integers_infer_integer() {
    let content = one_column(&["1", "42", "-7", "+900", "0"]);
    assert_eq!(infer_column_type(&content, 0), DataType::Integer);
}

#[test]
fn one_float_widens_to_float() {
    let content = one_column(&["1", "42", "3.5", "7"]);
    assert_eq!(infer_column_type(&content, 0), DataType::Float);
}

#[test]
fn one_non_numeric_widens_to_string_irrespective_of_position() {
    let early = one_column(&["oops", "1", "2"]);
    let middle = one_column(&["1", "oops", "2"]);
    let late = one_column(&["1", "2", "oops"]);
    assert_eq!(infer_column_type(&early, 0), DataType::String);
    assert_eq!(infer_column_type(&middle, 0), DataType::String);
    assert_eq!(infer_column_type(&late, 0), DataType::String);
}

#[test]
fn booleans_infer_boolean() {
    let content = one_column(&["true", "false", "true"]);
    assert_eq!(infer_column_type(&content, 0), DataType::Boolean);
}

#[test]
fn boolean_mixed_with_integer_is_string() {
    let content = one_column(&["1", "true"]);
    assert_eq!(infer_column_type(&content, 0), DataType::String);
}

#[test]
fn all_empty_resolves_to_string() {
    let content = one_column(&["", "", ""]);
    assert_eq!(infer_column_type(&content, 0), DataType::String);
}

#[test]
fn empty_values_are_skipped() {
    let content = one_column(&["", "3", "", "4"]);
    assert_eq!(infer_column_type(&content, 0), DataType::Integer);
}

#[test]
fn missing_cells_are_skipped() {
    let content = vec![row(&["1", "x"]), row(&["2"]), row(&["3", "y"])];
    assert_eq!(infer_column_type(&content, 0), DataType::Integer);
    assert_eq!(infer_column_type(&content, 1), DataType::String);
}

#[test]
fn numeric_edge_cases() {
    assert_eq!(infer_column_type(&one_column(&["1."]), 0), DataType::Float);
    assert_eq!(infer_column_type(&one_column(&[".5"]), 0), DataType::Float);
    assert_eq!(infer_column_type(&one_column(&["-.5"]), 0), DataType::Float);
    assert_eq!(infer_column_type(&one_column(&["."]), 0), DataType::String);
    assert_eq!(infer_column_type(&one_column(&["1.2.3"]), 0), DataType::String);
    assert_eq!(infer_column_type(&one_column(&["+"]), 0), DataType::String);
    assert_eq!(infer_column_type(&one_column(&["-3"]), 0), DataType::Integer);
}

#[test]
fn set_column_data_types_assigns_all_columns() {
    let columns = vec![
        ColumnDef::new("id".to_string(), DataType::String),
        ColumnDef::new("weight".to_string(), DataType::String),
        ColumnDef::new("name".to_string(), DataType::String),
        ColumnDef::new("alive".to_string(), DataType::String),
    ];
    let content = vec![
        row(&["1", "70.5", "ann", "true"]),
        row(&["2", "81", "bob", "false"]),
    ];
    let mut pc = ParsedContent::new("people.csv".to_string(), columns, content, 2, Vec::new());
    pc.set_column_data_types();
    assert_eq!(pc.columns[0].name, "id");
    assert_eq!(pc.columns[0].data_type, DataType::Integer);
    assert_eq!(pc.columns[1].data_type, DataType::Float);
    assert_eq!(pc.columns[2].data_type, DataType::String);
    assert_eq!(pc.columns[3].data_type, DataType::Boolean);
}
