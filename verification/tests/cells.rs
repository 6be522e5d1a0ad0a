use jdbrowser::cell::{map_row, cell_text, CellValue};
use jdbrowser::decimal::{integer_text, unsigned_text};
use jdbrowser::page::PageResult;

#[test]
fn null_and_blob_are_shown_as_words() {
    assert_eq!(cell_text(&CellValue::Null), "null");
    assert_eq!(cell_text(&CellValue::Blob), "Blob");
    let row = map_row(&vec![CellValue::Integer(1), CellValue::Null, CellValue::Blob]);
    assert_eq!(row, vec!["1", "null", "Blob"]);
}

#[test]
fn whole_numbers_are_shown_in_decimal() {
    assert_eq!(cell_text(&CellValue::Integer(0)), "0");
    assert_eq!(cell_text(&CellValue::Integer(7)), "7");
    assert_eq!(cell_text(&CellValue::Integer(10)), "10");
    assert_eq!(cell_text(&CellValue::Integer(-1)), "-1");
    assert_eq!(cell_text(&CellValue::Integer(1234567890)), "1234567890");
    assert_eq!(cell_text(&CellValue::Integer(-9007199254740993)), "-9007199254740993");
    assert_eq!(cell_text(&CellValue::Integer(i64::MAX)), "9223372036854775807");
    assert_eq!(cell_text(&CellValue::Integer(i64::MIN)), "-9223372036854775808");
}

#[test]
fn decimal_text_agrees_with_the_standard_library() {
    let samples: [i64; 12] =
        [0, 1, 9, 10, 11, 99, 100, 101, 1000, -10, -100, 4611686018427387904];
    for v in samples {
        assert_eq!(integer_text(v), v.to_string());
        assert_eq!(integer_text(-v), (-v).to_string());
    }
    for n in [0u64, 5, 10, 109, 1000000, u64::MAX] {
        assert_eq!(unsigned_text(n), n.to_string());
    }
    assert_eq!(unsigned_text(u64::MAX), "18446744073709551615");
}

#[test]
fn numbers_with_a_fraction_are_shown_as_they_came() {
    assert_eq!(cell_text(&CellValue::Real(1.5f64.to_string())), "1.5");
    assert_eq!(cell_text(&CellValue::Real((-0.25f64).to_string())), "-0.25");
    assert_eq!(cell_text(&CellValue::Real(1e21f64.to_string())), "1000000000000000000000");
}

#[test]
fn texts_are_decoded_from_utf8() {
    assert_eq!(cell_text(&CellValue::Text(b"plain".to_vec())), "plain");
    assert_eq!(cell_text(&CellValue::Text(Vec::new())), "");
    assert_eq!(cell_text(&CellValue::Text("gr\u{fc}\u{df}e \u{65e5}\u{672c}".as_bytes().to_vec())), "gr\u{fc}\u{df}e \u{65e5}\u{672c}");
    assert_eq!(cell_text(&CellValue::Text(vec![0xF0, 0x9F, 0x98, 0x80])), "\u{1F600}");
    assert_eq!(cell_text(&CellValue::Text(b"null".to_vec())), "null");
}

#[test]
fn bytes_that_are_not_utf8_are_unreadable() {
    assert_eq!(cell_text(&CellValue::Text(vec![0xFF])), "unreadable");
    assert_eq!(cell_text(&CellValue::Text(vec![b'a', 0x80])), "unreadable");
    assert_eq!(cell_text(&CellValue::Text(vec![0xC0, 0xAF])), "unreadable");
    assert_eq!(cell_text(&CellValue::Text(vec![0xED, 0xA0, 0x80])), "unreadable");
    assert_eq!(cell_text(&CellValue::Text(vec![0xE6, 0x97])), "unreadable");
    assert_eq!(cell_text(&CellValue::Text(vec![0xF4, 0x90, 0x80, 0x80])), "unreadable");
}

#[test]
fn page_of_cells_is_shown_row_by_row() {
    let rows = vec![
        vec![CellValue::Integer(1), CellValue::Text(b"ann".to_vec()), CellValue::Null],
        vec![CellValue::Integer(2), CellValue::Text(vec![0xFE]), CellValue::Blob],
    ];
    let names = vec!["id".to_string(), "name".to_string(), "id".to_string()];
    let page = PageResult::from_cells(names.clone(), &rows).unwrap();
    assert_eq!(page.column_names(), &names);
    assert_eq!(page.column_count(), 3);
    assert_eq!(page.row_count(), 2);
    assert_eq!(page.rows()[0], vec!["1", "ann", "null"]);
    assert_eq!(page.rows()[1], vec!["2", "unreadable", "Blob"]);
    assert_eq!(page.cell(1, 2).unwrap(), "Blob");
    assert_eq!(page.cell(0, 1).unwrap(), "ann");
    assert!(page.cell(2, 0).is_none());
    assert!(page.cell(0, 3).is_none());
}

#[test]
fn page_needs_one_cell_for_each_column() {
    let names = vec!["a".to_string(), "b".to_string()];
    assert!(PageResult::new(names.clone(), vec![vec!["1".to_string()]]).is_none());
    assert!(PageResult::new(
        names.clone(),
        vec![vec!["1".to_string(), "2".to_string()], vec!["1".to_string(), "2".to_string(), "3".to_string()]]
    )
    .is_none());
    assert!(PageResult::new(names.clone(), Vec::new()).is_some());
    assert!(PageResult::new(names.clone(), vec![vec!["1".to_string(), "2".to_string()]]).is_some());
    assert!(PageResult::from_cells(names, &vec![vec![CellValue::Null]]).is_none());
    assert!(PageResult::new(Vec::new(), vec![Vec::new(), Vec::new()]).is_some());
}

#[test]
fn empty_page_has_no_cells() {
    let page = PageResult::empty();
    assert_eq!(page.column_count(), 0);
    assert_eq!(page.row_count(), 0);
    assert!(page.cell(0, 0).is_none());
}

fn request(name: &str, page_size: usize, offset: usize) -> jdbrowser::page::PageRequest {
    jdbrowser::page::PageRequest {
        relation: jdbrowser::app::Table {
            name: name.to_string(),
            sql: String::new(),
            kind: jdbrowser::app::RelationKind::Table,
        },
        page_size,
        offset,
    }
}

#[test]
fn page_is_read_with_limit_and_offset_and_no_order() {
    assert_eq!(
        request("users", 50, 100).select_query(),
        "SELECT * FROM \"users\" LIMIT 50 OFFSET 100;"
    );
    assert_eq!(request("t", 1, 0).select_query(), "SELECT * FROM \"t\" LIMIT 1 OFFSET 0;");
}

#[test]
fn rows_are_counted_in_full() {
    assert_eq!(request("users", 50, 100).count_query(), "SELECT COUNT(*) FROM \"users\";");
}

#[test]
fn names_are_quoted_whatever_they_hold() {
    assert_eq!(
        request("odd \"name\"; DROP", 5, 5).select_query(),
        "SELECT * FROM \"odd \"\"name\"\"; DROP\" LIMIT 5 OFFSET 5;"
    );
    assert_eq!(request("", 5, 5).count_query(), "SELECT COUNT(*) FROM \"\";");
    assert_eq!(request("\"", 5, 5).count_query(), "SELECT COUNT(*) FROM \"\"\"\";");
    assert_eq!(
        request("\u{65e5}\u{672c} \u{8a9e}", 5, 5).count_query(),
        "SELECT COUNT(*) FROM \"\u{65e5}\u{672c} \u{8a9e}\";"
    );
    let mut text = String::from("x");
    jdbrowser::page::push_quoted(&mut text, "a\"b");
    assert_eq!(text, "x\"a\"\"b\"");
}
