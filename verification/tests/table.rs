use demo_panels::table::{cell_text, stretched_text, table_texts};

const WORDS: [&str; 13] = [
    "random", "words", "in", "a", "random", "order", "that", "just", "keeps", "going", "with",
    "some", "more",
];

fn expected_cell(row: usize, col: usize) -> String {
    if col == 0 {
        return format!("row {row}");
    }
    let first = row * 3 + col * 5;
    let count = (row * 5 + col * 75) % 13;
    let mut text = String::new();
    for k in 0..count {
        text += WORDS[(first + k) % 13];
        text += " ";
    }
    text
}

#[test]
fn first_column_names_the_row() {
    assert_eq!(cell_text(0, 0), "row 0");
    assert_eq!(cell_text(7, 0), "row 7");
    assert_eq!(cell_text(19, 0), "row 19");
    assert_eq!(cell_text(usize::MAX, 0), format!("row {}", usize::MAX));
}

#[test]
fn cell_holds_a_run_of_words() {
    // Ten words, starting at the sixth of the list.
    assert_eq!(cell_text(0, 1), "order that just keeps going with some more random words ");
    // Two words, starting at the ninth of the list.
    assert_eq!(cell_text(1, 1), "keeps going ");
    // Seven words, starting at the eleventh of the list and wrapping round.
    assert_eq!(cell_text(0, 2), "with some more random words in a ");
}

#[test]
fn cell_may_be_empty() {
    // 11 * 5 + 1 * 75 = 130 = 10 * 13: no word at all.
    assert_eq!(cell_text(11, 1), "");
}

#[test]
fn cells_are_as_computed_by_hand() {
    for row in 0..40 {
        for col in 0..12 {
            assert_eq!(cell_text(row, col), expected_cell(row, col), "row {row}, col {col}");
        }
    }
}

#[test]
fn far_cells_do_not_overflow() {
    let row = usize::MAX;
    let col = usize::MAX - 1;
    let text = cell_text(row, col);
    let first = ((row as u128) * 3 + (col as u128) * 5) % 13;
    let count = ((row as u128) * 5 + (col as u128) * 75) % 13;
    let mut expected = String::new();
    for k in 0..count {
        expected += WORDS[((first + k) % 13) as usize];
        expected += " ";
    }
    assert_eq!(text, expected);
}

#[test]
fn table_is_filled_row_by_row() {
    let rows = table_texts(4, 4);
    assert_eq!(rows.len(), 4);
    for (r, row) in rows.iter().enumerate() {
        assert_eq!(row.len(), 4);
        for (c, text) in row.iter().enumerate() {
            assert_eq!(*text, expected_cell(r, c));
        }
    }
    assert_eq!(rows[2][0], "row 2");
    assert_eq!(rows[1][1], "keeps going ");
}

#[test]
fn table_may_have_no_rows_or_no_columns() {
    assert!(table_texts(0, 5).is_empty());
    let rows = table_texts(3, 0);
    assert_eq!(rows.len(), 3);
    assert!(rows.iter().all(|row| row.is_empty()));
}

#[test]
fn stretched_text_grows_with_its_length() {
    assert_eq!(stretched_text(0), "O");
    assert_eq!(stretched_text(1), "Oh");
    assert_eq!(stretched_text(10), "Ohhhhhhhhhh");
    assert_eq!(stretched_text(40).chars().count(), 41);
    assert!(stretched_text(40).chars().skip(1).all(|c| c == 'h'));
}
