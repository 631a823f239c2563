use sheet_decode::{
    from_grid_data, grid_data, string_cell, Cell, Cursor, Deserializer, Error, Grid, RawValue,
};

#[derive(PartialEq, Debug)]
struct Test {
    col1: String,
}

#[derive(PartialEq, Debug)]
struct TestPair {
    col1: String,
    col2: String,
}

#[derive(PartialEq, Debug)]
enum Color {
    Red,
    Green,
}

fn missing_field(name: &str) -> Error {
    Error::custom(format!("missing field `{}`", name))
}

fn date_cell(serial: f64, shown: &str, format_kind: &str) -> Cell {
    Cell {
        raw_value: Some(RawValue {
            boolean: None,
            error: false,
            formula: false,
            number: Some(serial.to_bits()),
            text: None,
        }),
        formatted_value: Some(shown.to_owned()),
        format_kind: Some(format_kind.to_owned()),
    }
}

/// A header cell without text.
fn unnamed() -> Cell {
    Cell { raw_value: None, formatted_value: None, format_kind: None }
}

/// Decodes the rows that are left as a sequence, one element per row.
fn decode_seq<T>(
    de: &mut Deserializer,
    element: fn(&mut Deserializer) -> Result<T, Error>,
) -> Result<Vec<T>, Error> {
    let mut out = Vec::new();
    while de.next_element() {
        let value = element(de);
        de.finish_element();
        out.push(value?);
    }
    Ok(out)
}

/// Decodes the current row as a record of text fields, in the order of the keys.
fn decode_fields(de: &mut Deserializer) -> Result<Vec<(String, String)>, Error> {
    let mut out = Vec::new();
    while de.next_key()?.is_some() {
        let name = de.deserialize_identifier()?.to_owned();
        let value = de.deserialize_str()?.to_owned();
        out.push((name, value));
    }
    Ok(out)
}

fn decode_test(de: &mut Deserializer) -> Result<Test, Error> {
    let mut col1 = None;
    while de.next_key()?.is_some() {
        match de.deserialize_identifier()? {
            "col1" => col1 = Some(de.deserialize_str()?.to_owned()),
            _ => {
                de.deserialize_any()?;
            }
        }
    }
    Ok(Test { col1: col1.ok_or(missing_field("col1"))? })
}

fn decode_test_pair(de: &mut Deserializer) -> Result<TestPair, Error> {
    let mut col1 = None;
    let mut col2 = None;
    while de.next_key()?.is_some() {
        match de.deserialize_identifier()? {
            "col1" => col1 = Some(de.deserialize_str()?.to_owned()),
            "col2" => col2 = Some(de.deserialize_str()?.to_owned()),
            _ => {
                de.deserialize_any()?;
            }
        }
    }
    Ok(TestPair {
        col1: col1.ok_or(missing_field("col1"))?,
        col2: col2.ok_or(missing_field("col2"))?,
    })
}

fn decode_optional_test_pair(de: &mut Deserializer) -> Result<Option<TestPair>, Error> {
    if de.deserialize_option()? {
        decode_test_pair(de).map(Some)
    } else {
        Ok(None)
    }
}

/// Decodes the cell under the cursor as a `Color`, the way a consumer resolves
/// the tag of a tagged union.
fn decode_color(de: &mut Deserializer) -> Result<Color, Error> {
    de.begin_variant();
    let tag = de.deserialize_identifier()?;
    de.end_variant();
    match tag {
        "Red" => Ok(Color::Red),
        "Green" => Ok(Color::Green),
        other => Err(Error::custom(format!(
            "unknown variant `{}`, expected `Red` or `Green`",
            other
        ))),
    }
}

fn decode_colors(de: &mut Deserializer) -> Result<Vec<Color>, Error> {
    let mut out = Vec::new();
    while de.next_key()?.is_some() {
        out.push(decode_color(de)?);
    }
    Ok(out)
}

fn sorted(mut fields: Vec<(String, String)>) -> Vec<(String, String)> {
    fields.sort();
    fields
}

fn pair(name: &str, value: &str) -> (String, String) {
    (name.to_owned(), value.to_owned())
}

fn text_grid(rows: &[&[&str]]) -> Grid {
    grid_data(rows.iter().map(|row| row.iter().map(|text| string_cell(text)).collect()).collect())
}

#[test]
fn test_simple() {
    let data = grid_data(vec![
        vec![string_cell("col1")],
        vec![string_cell("Value in col 1")],
    ]);

    let expected = vec![Test {
        col1: "Value in col 1".to_owned(),
    }];

    let mut de = from_grid_data(&data).unwrap();
    let result: Vec<Test> = decode_seq(&mut de, decode_test).unwrap();

    assert_eq!(expected, result)
}

#[test]
fn test_empty() {
    let data = grid_data(vec![
        vec![string_cell("col1"), string_cell("col2")],
        vec![string_cell("v1"), string_cell("v2")],
        vec![Cell::default(), Cell::default()],
    ]);

    let expected = vec![
        Some(TestPair {
            col1: "v1".to_owned(),
            col2: "v2".to_owned(),
        }),
        None,
    ];

    let mut de = from_grid_data(&data).unwrap();
    let result: Vec<Option<TestPair>> = decode_seq(&mut de, decode_optional_test_pair).unwrap();

    assert_eq!(expected, result)
}

#[test]
fn column_without_header_text_is_never_a_field() {
    let data = grid_data(vec![
        vec![string_cell("first"), unnamed(), string_cell("third"), unnamed()],
        vec![string_cell("1"), string_cell("hidden"), string_cell("3"), string_cell("hidden")],
        vec![string_cell("4"), Cell::default(), string_cell("6"), string_cell("hidden")],
    ]);
    let mut de = from_grid_data(&data).unwrap();
    let result = decode_seq(&mut de, decode_fields).unwrap();
    assert_eq!(
        result,
        vec![
            vec![pair("first", "1"), pair("third", "3")],
            vec![pair("first", "4"), pair("third", "6")],
        ]
    );
}

#[test]
fn keys_move_the_cursor_over_named_columns_only() {
    let data = grid_data(vec![
        vec![unnamed(), string_cell("b"), unnamed(), unnamed(), string_cell("e")],
        vec![
            string_cell("0"),
            string_cell("1"),
            string_cell("2"),
            string_cell("3"),
            string_cell("4"),
        ],
    ]);
    let mut de = from_grid_data(&data).unwrap();
    assert!(de.next_element());
    assert_eq!(de.next_key(), Ok(Some("b")));
    assert_eq!(de.cursor(), Cursor { row: 1, column: Some(1) });
    assert_eq!(de.next_key(), Ok(Some("e")));
    assert_eq!(de.cursor(), Cursor { row: 1, column: Some(4) });
    assert_eq!(de.next_key(), Ok(None));
    assert_eq!(de.cursor(), Cursor { row: 1, column: Some(4) });
    assert_eq!(de.next_key(), Ok(None));
}

#[test]
fn header_without_any_name_gives_a_record_without_fields() {
    let data = grid_data(vec![vec![unnamed(), unnamed()], vec![string_cell("x"), string_cell("y")]]);
    let mut de = from_grid_data(&data).unwrap();
    assert_eq!(decode_seq(&mut de, decode_fields), Ok(vec![vec![]]));

    let data = grid_data(vec![vec![], vec![string_cell("x")], vec![]]);
    let mut de = from_grid_data(&data).unwrap();
    assert_eq!(decode_seq(&mut de, decode_fields), Ok(vec![vec![], vec![]]));
}

#[test]
fn keys_end_where_the_row_ends() {
    let data = text_grid(&[&["a", "b", "c"], &["1", "2"], &["3", "4", "5", "6"], &[]]);
    let mut de = from_grid_data(&data).unwrap();
    assert_eq!(
        decode_seq(&mut de, decode_fields),
        Ok(vec![
            vec![pair("a", "1"), pair("b", "2")],
            vec![pair("a", "3"), pair("b", "4"), pair("c", "5")],
            vec![],
        ])
    );
}

#[test]
fn row_is_none_iff_every_cell_is_unpopulated() {
    let shown_only = Cell { formatted_value: Some("shown".to_owned()), ..Cell::default() };
    let data = grid_data(vec![
        vec![string_cell("col1"), string_cell("col2")],
        vec![Cell::default(), Cell::default()],
        vec![Cell::default(), string_cell("v2")],
        vec![string_cell("v1"), Cell::default()],
        vec![],
        vec![shown_only, Cell::default()],
    ]);
    let mut de = from_grid_data(&data).unwrap();
    let mut seen = Vec::new();
    while de.next_element() {
        seen.push(de.deserialize_option());
        de.finish_element();
    }
    assert_eq!(seen, vec![Ok(false), Ok(true), Ok(true), Ok(false), Ok(false)]);
}

#[test]
fn partly_blank_row_is_some_and_its_blank_field_is_missing() {
    let data = grid_data(vec![
        vec![string_cell("col1"), string_cell("col2")],
        vec![string_cell("v1"), Cell::default()],
    ]);
    let mut de = from_grid_data(&data).unwrap();
    assert_eq!(
        decode_seq(&mut de, decode_optional_test_pair),
        Err(Error::MissingValue { at: Cursor { row: 1, column: Some(1) } })
    );
}

#[test]
fn blank_row_is_no_record() {
    let data = grid_data(vec![
        vec![string_cell("col1"), string_cell("col2")],
        vec![Cell::default(), Cell::default()],
    ]);
    let mut de = from_grid_data(&data).unwrap();
    assert_eq!(
        decode_seq(&mut de, decode_test_pair),
        Err(Error::MissingValue { at: Cursor { row: 1, column: Some(0) } })
    );
}

#[test]
fn field_is_none_iff_its_cell_is_unpopulated() {
    let data = grid_data(vec![
        vec![string_cell("a"), string_cell("b"), string_cell("c")],
        vec![string_cell("x"), Cell::default()],
    ]);
    let mut de = from_grid_data(&data).unwrap();
    assert!(de.next_element());
    assert_eq!(de.deserialize_option(), Ok(true));
    assert_eq!(de.next_key(), Ok(Some("a")));
    assert_eq!(de.deserialize_option(), Ok(true));
    assert_eq!(de.next_key(), Ok(Some("b")));
    assert_eq!(de.deserialize_option(), Ok(false));
    assert_eq!(de.next_key(), Ok(None));
}

#[test]
fn number_formatted_as_date_decodes_to_its_display_text() {
    let data = grid_data(vec![
        vec![string_cell("day"), string_cell("hour"), string_cell("moment")],
        vec![
            date_cell(45292.0, "2024-01-01", "DATE"),
            date_cell(0.75, "18:00:00", "TIME"),
            date_cell(45292.75, "2024-01-01 18:00:00", "DATE_TIME"),
        ],
    ]);
    let mut de = from_grid_data(&data).unwrap();
    assert_eq!(
        decode_seq(&mut de, decode_fields),
        Ok(vec![vec![
            pair("day", "2024-01-01"),
            pair("hour", "18:00:00"),
            pair("moment", "2024-01-01 18:00:00"),
        ]])
    );

    let mut de = from_grid_data(&data).unwrap();
    assert!(de.next_element());
    assert_eq!(de.next_key(), Ok(Some("day")));
    assert_eq!(de.deserialize_str(), Ok("2024-01-01"));
    assert_eq!(de.deserialize_any(), Ok(sheet_decode::AnyValue::Text("2024-01-01")));
    assert_eq!(
        de.deserialize_number(),
        Err(Error::NotNumber { at: Cursor { row: 1, column: Some(0) }, found: None })
    );
}

#[test]
fn sequence_has_one_element_per_data_row() {
    for n in 0..5usize {
        let mut rows = vec![vec![string_cell("col1")]];
        for i in 0..n {
            rows.push(vec![string_cell(&format!("v{}", i))]);
        }
        let data = grid_data(rows);
        let mut de = from_grid_data(&data).unwrap();
        let decoded = decode_seq(&mut de, decode_test).unwrap();
        assert_eq!(decoded.len(), n);
        for (i, record) in decoded.iter().enumerate() {
            assert_eq!(record.col1, format!("v{}", i));
        }
        assert!(!de.next_element());
        assert!(!de.next_element());
        assert_eq!(de.cursor().row, n + 1);
    }
}

#[test]
fn elements_are_counted_whatever_is_read_of_them() {
    let data = text_grid(&[&["a", "b"], &["1", "2"], &["3", "4"], &["5", "6"]]);
    let mut de = from_grid_data(&data).unwrap();
    assert!(de.next_element());
    de.finish_element();
    assert!(de.next_element());
    assert_eq!(de.next_key(), Ok(Some("a")));
    de.begin_variant();
    de.finish_element();
    assert!(de.next_element());
    assert_eq!(de.cursor(), Cursor { row: 3, column: None });
    assert_eq!(de.next_key(), Ok(Some("a")));
    assert_eq!(de.next_key(), Ok(Some("b")));
    assert_eq!(de.next_key(), Ok(None));
    de.finish_element();
    assert!(!de.next_element());
}

#[test]
fn reordered_columns_decode_to_the_same_records() {
    let data = text_grid(&[
        &["name", "city", "", "age"],
        &["Ann", "Oslo", "x", "41"],
        &["Bob", "Rome", "y", "29"],
    ]);
    let reordered = text_grid(&[
        &["age", "", "name", "city"],
        &["41", "x", "Ann", "Oslo"],
        &["29", "y", "Bob", "Rome"],
    ]);
    let mut de = from_grid_data(&data).unwrap();
    let records: Vec<_> =
        decode_seq(&mut de, decode_fields).unwrap().into_iter().map(sorted).collect();
    let mut de = from_grid_data(&reordered).unwrap();
    let records_reordered: Vec<_> =
        decode_seq(&mut de, decode_fields).unwrap().into_iter().map(sorted).collect();
    assert_eq!(records, records_reordered);
    assert_eq!(
        records,
        vec![
            vec![pair("", "x"), pair("age", "41"), pair("city", "Oslo"), pair("name", "Ann")],
            vec![pair("", "y"), pair("age", "29"), pair("city", "Rome"), pair("name", "Bob")],
        ]
    );
}

#[test]
fn reordered_columns_with_a_nameless_one_decode_to_the_same_records() {
    let data = grid_data(vec![
        vec![string_cell("name"), unnamed(), string_cell("age")],
        vec![string_cell("Ann"), string_cell("x"), string_cell("41")],
    ]);
    let reordered = grid_data(vec![
        vec![unnamed(), string_cell("age"), string_cell("name")],
        vec![string_cell("x"), string_cell("41"), string_cell("Ann")],
    ]);
    let mut de = from_grid_data(&data).unwrap();
    let records: Vec<_> =
        decode_seq(&mut de, decode_fields).unwrap().into_iter().map(sorted).collect();
    let mut de = from_grid_data(&reordered).unwrap();
    let records_reordered: Vec<_> =
        decode_seq(&mut de, decode_fields).unwrap().into_iter().map(sorted).collect();
    assert_eq!(records, vec![vec![pair("age", "41"), pair("name", "Ann")]]);
    assert_eq!(records, records_reordered);
}

#[test]
fn tag_of_a_known_variant_is_resolved() {
    let data = text_grid(&[&["first", "second"], &["Red", "Green"], &["Green", "Green"]]);
    let mut de = from_grid_data(&data).unwrap();
    assert_eq!(
        decode_seq(&mut de, decode_colors),
        Ok(vec![vec![Color::Red, Color::Green], vec![Color::Green, Color::Green]])
    );
}

#[test]
fn tag_of_an_unknown_variant_is_an_error() {
    let data = text_grid(&[&["first", "second"], &["Red", "Purple"]]);
    let mut de = from_grid_data(&data).unwrap();
    assert_eq!(
        decode_seq(&mut de, decode_colors),
        Err(Error::Custom("unknown variant `Purple`, expected `Red` or `Green`".to_owned()))
    );
}
