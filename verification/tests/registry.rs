use pg_relay::endpoint_index::{fetch_endpoints, fetch_info, normalize_path, EndpointIndex};
use pg_relay::error::{Error, ErrorKind, FetchError, Field};
use pg_relay::row::{Cell, Column, Row};
use serde_json::Value;

fn json(text: &str) -> Value {
    serde_json::from_str(text).unwrap()
}

fn text(value: &str) -> Cell {
    Cell::Text(value.to_string())
}

fn doc(value: &str) -> Cell {
    Cell::Json(json(value))
}

fn row(cells: Vec<(&str, Cell)>) -> Row {
    Row {
        columns: cells
            .into_iter()
            .map(|(name, value)| Column { name: name.to_string(), value })
            .collect(),
    }
}

fn info_row() -> Row {
    row(vec![
        ("title", text("Relay")),
        ("description", text("All the endpoints")),
        ("version", text("1.2.3")),
    ])
}

fn endpoint_row(path: &str, fn_name: &str, request: &str) -> Row {
    row(vec![
        ("path", text(path)),
        ("fn_name", text(fn_name)),
        ("request", doc(request)),
        ("response", doc(r#"{"type":"object"}"#)),
    ])
}

fn fetch_error<T>(made: Result<T, Error>) -> FetchError {
    match made {
        Err(Error::MetadataFetch(fault)) => fault,
        Err(other) => panic!("unexpected error {:?}", other),
        Ok(_) => panic!("the rows were accepted"),
    }
}

#[test]
fn fetch_info_reads_the_three_fields() {
    let info = fetch_info(&vec![info_row()]).unwrap();
    assert_eq!(info.title(), "Relay");
    assert_eq!(info.description(), "All the endpoints");
    assert_eq!(info.version(), "1.2.3");
}

#[test]
fn fetch_info_wants_exactly_one_row() {
    assert_eq!(fetch_error(fetch_info(&vec![])), FetchError::RowCount);
    assert_eq!(
        fetch_error(fetch_info(&vec![info_row(), info_row()])),
        FetchError::RowCount
    );
}

#[test]
fn fetch_info_names_the_first_missing_column() {
    let no_title = row(vec![("description", text("d")), ("version", text("v"))]);
    assert_eq!(
        fetch_error(fetch_info(&vec![no_title])),
        FetchError::MissingColumn(Field::Title)
    );
    let no_description = row(vec![("title", text("t")), ("version", text("v"))]);
    assert_eq!(
        fetch_error(fetch_info(&vec![no_description])),
        FetchError::MissingColumn(Field::Description)
    );
    let no_version = row(vec![("title", text("t")), ("description", text("d"))]);
    assert_eq!(
        fetch_error(fetch_info(&vec![no_version])),
        FetchError::MissingColumn(Field::Version)
    );
    let nothing = row(vec![]);
    assert_eq!(
        fetch_error(fetch_info(&vec![nothing])),
        FetchError::MissingColumn(Field::Title)
    );
}

#[test]
fn fetch_info_refuses_a_column_of_the_wrong_kind() {
    let bad = row(vec![
        ("title", text("t")),
        ("description", doc(r#""d""#)),
        ("version", Cell::Other),
    ]);
    assert_eq!(
        fetch_error(fetch_info(&vec![bad])),
        FetchError::UnreadableColumn(Field::Description)
    );
}

#[test]
fn a_misread_column_comes_before_a_missing_one() {
    let bad = row(vec![("version", Cell::Other)]);
    assert_eq!(
        fetch_error(fetch_info(&vec![bad])),
        FetchError::UnreadableColumn(Field::Version)
    );
}

#[test]
fn unknown_columns_are_ignored_and_the_last_of_a_name_counts() {
    let wide = row(vec![
        ("id", Cell::Other),
        ("title", text("first")),
        ("request", text("not read for the info")),
        ("title", text("second")),
        ("description", text("d")),
        ("version", text("v")),
        ("extra", doc("[1,2]")),
    ]);
    let info = fetch_info(&vec![wide]).unwrap();
    assert_eq!(info.title(), "second");
}

#[test]
fn a_misread_column_fails_even_where_a_later_one_could_be_read() {
    let twice = row(vec![
        ("title", Cell::Other),
        ("title", text("t")),
        ("description", text("d")),
        ("version", text("v")),
    ]);
    assert_eq!(
        fetch_error(fetch_info(&vec![twice])),
        FetchError::UnreadableColumn(Field::Title)
    );
}

#[test]
fn normalize_path_strips_exactly_one_leading_slash() {
    assert_eq!(normalize_path("/echo".to_string()), "echo");
    assert_eq!(normalize_path("echo".to_string()), "echo");
    assert_eq!(normalize_path("//echo".to_string()), "/echo");
    assert_eq!(normalize_path("/".to_string()), "");
    assert_eq!(normalize_path("".to_string()), "");
    assert_eq!(normalize_path("a/b/".to_string()), "a/b/");
    assert_eq!(normalize_path("/\u{e9}t\u{e9}/\u{1f600}".to_string()), "\u{e9}t\u{e9}/\u{1f600}");
}

#[test]
fn fetch_endpoints_gives_one_entry_per_row() {
    let rows = vec![
        endpoint_row("/echo", "echo_fn", r#"{"type":"object"}"#),
        endpoint_row("sum", "sum_fn", r#"{"type":"array"}"#),
        endpoint_row("/echo", "other_fn", r#"{"type":"object"}"#),
    ];
    let entries = fetch_endpoints(&rows).unwrap();
    assert_eq!(entries.len(), 3);
    assert_eq!(entries[0].0, "echo");
    assert_eq!(entries[1].0, "sum");
    assert_eq!(entries[2].0, "echo");
    let call = entries[1].1.run(&json("[1]")).unwrap();
    assert_eq!(call.statement, "select sum_fn($1)");
    assert!(entries[1].1.run(&json("{}")).is_err());
}

#[test]
fn fetch_endpoints_accepts_no_rows() {
    let entries = fetch_endpoints(&vec![]).unwrap();
    assert!(entries.is_empty());
}

#[test]
fn fetch_endpoints_names_the_first_missing_column() {
    let order = [Field::Path, Field::FnName, Field::Request, Field::Response];
    for (skipped, field) in order.iter().enumerate() {
        let mut full = endpoint_row("/echo", "echo_fn", r#"{"type":"object"}"#);
        full.columns.remove(skipped);
        assert_eq!(
            fetch_error(fetch_endpoints(&vec![full])),
            FetchError::MissingColumn(*field)
        );
    }
    assert_eq!(
        fetch_error(fetch_endpoints(&vec![row(vec![])])),
        FetchError::MissingColumn(Field::Path)
    );
}

#[test]
fn fetch_endpoints_refuses_a_column_of_the_wrong_kind() {
    let schema_as_text = row(vec![
        ("path", text("/echo")),
        ("fn_name", text("echo_fn")),
        ("request", text(r#"{"type":"object"}"#)),
        ("response", doc("{}")),
    ]);
    assert_eq!(
        fetch_error(fetch_endpoints(&vec![schema_as_text])),
        FetchError::UnreadableColumn(Field::Request)
    );
    let path_as_document = row(vec![
        ("response", Cell::Other),
        ("path", doc(r#""/echo""#)),
        ("fn_name", text("echo_fn")),
        ("request", doc("{}")),
    ]);
    assert_eq!(
        fetch_error(fetch_endpoints(&vec![path_as_document])),
        FetchError::UnreadableColumn(Field::Response)
    );
}

#[test]
fn every_endpoint_field_has_its_kind() {
    let order = [Field::Path, Field::FnName, Field::Request, Field::Response];
    for (place, field) in order.iter().enumerate() {
        let mut null = endpoint_row("/echo", "echo_fn", r#"{"type":"object"}"#);
        null.columns[place].value = Cell::Other;
        assert_eq!(
            fetch_error(fetch_endpoints(&vec![null])),
            FetchError::UnreadableColumn(*field)
        );
        let mut swapped = endpoint_row("/echo", "echo_fn", r#"{"type":"object"}"#);
        swapped.columns[place].value = if place < 2 { doc(r#""x""#) } else { text("{}") };
        assert_eq!(
            fetch_error(fetch_endpoints(&vec![swapped])),
            FetchError::UnreadableColumn(*field)
        );
    }
}

#[test]
fn fetch_endpoints_fails_on_the_first_bad_row() {
    let rows = vec![
        endpoint_row("/a", "a_fn", r#"{"type":"object"}"#),
        endpoint_row("/b", "b_fn", r#"{"type":12}"#),
        row(vec![("path", text("/c"))]),
    ];
    match fetch_endpoints(&rows) {
        Err(error) => assert_eq!(error.kind(), ErrorKind::SchemaCompile),
        Ok(_) => panic!("a row with a bad schema was accepted"),
    }
    let rows = vec![
        row(vec![("path", text("/c"))]),
        endpoint_row("/b", "b_fn", r#"{"type":12}"#),
    ];
    assert_eq!(
        fetch_error(fetch_endpoints(&rows)),
        FetchError::MissingColumn(Field::FnName)
    );
}

#[test]
fn fetch_builds_a_table_with_one_entry_per_distinct_path() {
    let rows = vec![
        endpoint_row("/echo", "echo_fn", r#"{"type":"object"}"#),
        endpoint_row("sum", "sum_fn", r#"{"type":"array"}"#),
        endpoint_row("echo", "late_fn", r#"{"type":"string"}"#),
    ];
    let index = EndpointIndex::fetch(&vec![info_row()], &rows).unwrap();
    assert_eq!(index.get_count(), 2);
    let echo = index.get_endpoint("echo").unwrap();
    let call = echo.run(&json(r#""text""#)).unwrap();
    assert_eq!(call.statement, "select late_fn($1)");
    assert!(echo.run(&json("{}")).is_err());
    let sum = index.get_endpoint("sum").unwrap();
    assert_eq!(sum.run(&json("[]")).unwrap().statement, "select sum_fn($1)");
}

#[test]
fn get_endpoint_is_not_found_exactly_for_absent_paths() {
    let rows = vec![endpoint_row("/echo", "echo_fn", r#"{"type":"object"}"#)];
    let index = EndpointIndex::fetch(&vec![info_row()], &rows).unwrap();
    assert!(index.get_endpoint("echo").is_ok());
    assert_eq!(index.get_endpoint("/echo").err(), Some(Error::NotFound));
    assert_eq!(index.get_endpoint("missing").err(), Some(Error::NotFound));
    assert_eq!(index.get_endpoint("").err(), Some(Error::NotFound));
    assert_eq!(index.get_endpoint("Echo").err(), Some(Error::NotFound));
}

#[test]
fn fetch_of_no_endpoints_is_an_empty_registry() {
    let index = EndpointIndex::fetch(&vec![info_row()], &vec![]).unwrap();
    assert_eq!(index.get_count(), 0);
    assert_eq!(
        index.get_schema(),
        json(
            r#"{"openapi":"3.1.0","info":{"title":"Relay","description":"All the endpoints","version":"1.2.3"},"paths":{}}"#
        )
    );
}

#[test]
fn fetch_reports_the_info_rows_first() {
    let bad_endpoints = vec![row(vec![("path", text("/c"))])];
    match EndpointIndex::fetch(&vec![], &bad_endpoints) {
        Err(error) => assert_eq!(error, Error::MetadataFetch(FetchError::RowCount)),
        Ok(_) => panic!("a registry was built without info"),
    }
    match EndpointIndex::fetch(&vec![info_row()], &bad_endpoints) {
        Err(error) => {
            assert_eq!(error, Error::MetadataFetch(FetchError::MissingColumn(Field::FnName)))
        }
        Ok(_) => panic!("a registry was built from a row without a procedure"),
    }
}

#[test]
fn get_schema_has_one_path_item_per_endpoint() {
    let rows = vec![
        endpoint_row("/echo", "echo_fn", r#"{"type":"object"}"#),
        endpoint_row("/sum", "sum_fn", r#"{"type":"array"}"#),
    ];
    let index = EndpointIndex::fetch(&vec![info_row()], &rows).unwrap();
    let document = index.get_schema();
    assert_eq!(document["openapi"], json(r#""3.1.0""#));
    assert_eq!(
        document["info"],
        json(r#"{"title":"Relay","description":"All the endpoints","version":"1.2.3"}"#)
    );
    let paths = document["paths"].as_object().unwrap();
    let mut names: Vec<&String> = paths.keys().collect();
    names.sort();
    assert_eq!(names, vec!["echo", "sum"]);
    assert_eq!(paths["echo"], index.get_endpoint("echo").unwrap().get_schema());
    assert_eq!(paths["sum"], index.get_endpoint("sum").unwrap().get_schema());
    assert_eq!(
        paths["sum"]["post"]["requestBody"]["content"]["application/json"]["schema"],
        json(r#"{"type":"array"}"#)
    );
    assert_eq!(document.as_object().unwrap().len(), 3);
}

#[test]
fn refresh_replaces_info_and_table() {
    let first = vec![endpoint_row("/echo", "echo_fn", r#"{"type":"object"}"#)];
    let mut index = EndpointIndex::fetch(&vec![info_row()], &first).unwrap();
    let second = vec![
        endpoint_row("/sum", "sum_fn", r#"{"type":"array"}"#),
        endpoint_row("/max", "max_fn", r#"{"type":"array"}"#),
    ];
    let new_info = row(vec![
        ("title", text("Relay 2")),
        ("description", text("Fewer")),
        ("version", text("2.0.0")),
    ]);
    assert_eq!(index.refresh(&vec![new_info], &second), Ok(()));
    assert_eq!(index.get_count(), 2);
    assert_eq!(index.get_endpoint("echo").err(), Some(Error::NotFound));
    assert!(index.get_endpoint("sum").is_ok());
    assert!(index.get_endpoint("max").is_ok());
    assert_eq!(index.get_schema()["info"]["title"], json(r#""Relay 2""#));
}

#[test]
fn a_failed_refresh_leaves_the_registry_as_it_was() {
    let first = vec![endpoint_row("/echo", "echo_fn", r#"{"type":"object"}"#)];
    let mut index = EndpointIndex::fetch(&vec![info_row()], &first).unwrap();
    let before = index.get_schema();

    let bad_schema = vec![
        endpoint_row("/sum", "sum_fn", r#"{"type":"array"}"#),
        endpoint_row("/bad", "bad_fn", r#"{"type":12}"#),
    ];
    let new_info = row(vec![
        ("title", text("Relay 2")),
        ("description", text("Fewer")),
        ("version", text("2.0.0")),
    ]);
    let done = index.refresh(&vec![new_info], &bad_schema);
    assert_eq!(done.unwrap_err().kind(), ErrorKind::SchemaCompile);
    assert_eq!(index.get_schema(), before);
    assert_eq!(index.get_count(), 1);

    let done = index.refresh(&vec![], &first);
    assert_eq!(done, Err(Error::MetadataFetch(FetchError::RowCount)));
    assert_eq!(index.get_schema(), before);
}

#[test]
fn refreshing_twice_from_the_same_rows_changes_nothing() {
    let rows = vec![
        endpoint_row("/echo", "echo_fn", r#"{"type":"object"}"#),
        endpoint_row("/sum", "sum_fn", r#"{"type":"array"}"#),
        endpoint_row("/echo", "late_fn", r#"{"type":"string"}"#),
    ];
    let mut index = EndpointIndex::fetch(&vec![info_row()], &vec![]).unwrap();
    assert_eq!(index.refresh(&vec![info_row()], &rows), Ok(()));
    let once = index.get_schema();
    let count = index.get_count();
    assert_eq!(index.refresh(&vec![info_row()], &rows), Ok(()));
    assert_eq!(index.get_schema(), once);
    assert_eq!(index.get_count(), count);
    assert_eq!(count, 2);
}
