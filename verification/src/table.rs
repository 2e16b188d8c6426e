//! The texts that fill the cells of the table test.

use crate::decimal::{decimal, decimal_string};
use vstd::arithmetic::div_mod::{lemma_add_mod_noop_right, lemma_mod_multiples_vanish};
use vstd::prelude::*;
use vstd::string::StringExecFns;

verus! {

/// How many words the cells cycle through.
pub const WORDS: usize = 13;

/// The `i`-th of the words that the cells cycle through.
pub open spec fn word(i: int) -> Seq<char>
    recommends
        0 <= i < WORDS,
{
    if i == 0 {
        "random"@
    } else if i == 1 {
        "words"@
    } else if i == 2 {
        "in"@
    } else if i == 3 {
        "a"@
    } else if i == 4 {
        "random"@
    } else if i == 5 {
        "order"@
    } else if i == 6 {
        "that"@
    } else if i == 7 {
        "just"@
    } else if i == 8 {
        "keeps"@
    } else if i == 9 {
        "going"@
    } else if i == 10 {
        "with"@
    } else if i == 11 {
        "some"@
    } else {
        "more"@
    }
}

/// `count` words, each followed by a space, taken from the endlessly
/// repeated word list beginning at position `start`.
pub open spec fn words_from(start: int, count: nat) -> Seq<char>
    decreases count,
{
    if count == 0 {
        Seq::empty()
    } else {
        words_from(start, (count - 1) as nat) + word((start + count - 1) % (WORDS as int)) + " "@
    }
}

/// The text of the cell in row `row` and column `col`: the first column
/// names the row, every other cell holds a run of words whose start and
/// length depend on its position.
pub open spec fn cell(row: nat, col: nat) -> Seq<char> {
    if col == 0 {
        "row "@ + decimal(row)
    } else {
        words_from(
            row as int * 3 + col as int * 5,
            ((row as int * 5 + col as int * 75) % (WORDS as int)) as nat,
        )
    }
}

/// A text that is `length` characters wider than its first letter.
pub open spec fn stretched(length: nat) -> Seq<char> {
    seq!['O'] + Seq::new(length, |i: int| 'h')
}

/// Reducing the row and the column modulo the length of the word list
/// before weighting them does not change the weighted sum modulo that length.
proof fn lemma_reduce_first(row: int, col: int, a: int, b: int)
    requires
        0 <= row,
        0 <= col,
    ensures
        ((row % 13) * a + (col % 13) * b) % 13 == (row * a + col * b) % 13,
{
    let q = (row / 13) * a + (col / 13) * b;
    let rest = (row % 13) * a + (col % 13) * b;
    assert(row * a + col * b == 13 * q + rest) by (nonlinear_arith)
        requires
            row == 13 * (row / 13) + row % 13,
            col == 13 * (col / 13) + col % 13,
            q == (row / 13) * a + (col / 13) * b,
            rest == (row % 13) * a + (col % 13) * b,
    ;
    lemma_mod_multiples_vanish(q, rest, 13);
}

/// The `i`-th of the words that the cells cycle through.
fn word_at(i: usize) -> (w: &'static str)
    requires
        i < WORDS,
    ensures
        w@ == word(i as int),
{
    match i {
        0 => "random",
        1 => "words",
        2 => "in",
        3 => "a",
        4 => "random",
        5 => "order",
        6 => "that",
        7 => "just",
        8 => "keeps",
        9 => "going",
        10 => "with",
        11 => "some",
        _ => "more",
    }
}

/// Computes the text of the cell in row `row` and column `col`.
pub fn cell_text(row: usize, col: usize) -> (text: String)
    ensures
        text@ == cell(row as nat, col as nat),
{
    if col == 0 {
        let mut text = String::from_str("row ");
        let number = decimal_string(row);
        text.append(number.as_str());
        return text;
    }
    let first: usize = ((row % WORDS) * 3 + (col % WORDS) * 5) % WORDS;
    let count: usize = ((row % WORDS) * 5 + (col % WORDS) * 75) % WORDS;
    let ghost start: int = row * 3 + col * 5;
    proof {
        lemma_reduce_first(row as int, col as int, 3, 5);
        lemma_reduce_first(row as int, col as int, 5, 75);
    }
    let mut text = String::new();
    let mut taken: usize = 0;
    while taken < count
        invariant
            taken <= count < WORDS,
            first == start % 13,
            text@ == words_from(start, taken as nat),
        decreases count - taken,
    {
        let at: usize = (first + taken) % WORDS;
        proof {
            lemma_add_mod_noop_right(taken as int, start, 13);
        }
        text.append(word_at(at));
        text.append(" ");
        taken = taken + 1;
    }
    text
}

/// Computes the texts of a table of `num_rows` rows and `num_cols` columns,
/// row by row.
pub fn table_texts(num_rows: usize, num_cols: usize) -> (rows: Vec<Vec<String>>)
    ensures
        rows@.len() == num_rows,
        forall|r: int| 0 <= r < num_rows ==> (#[trigger] rows@[r])@.len() == num_cols,
        forall|r: int, c: int|
            0 <= r < num_rows && 0 <= c < num_cols ==> (#[trigger] rows@[r]@[c])@ == cell(
                r as nat,
                c as nat,
            ),
{
    let mut rows: Vec<Vec<String>> = Vec::new();
    let mut row: usize = 0;
    while row < num_rows
        invariant
            row <= num_rows,
            rows@.len() == row,
            forall|r: int| 0 <= r < row ==> (#[trigger] rows@[r])@.len() == num_cols,
            forall|r: int, c: int|
                0 <= r < row && 0 <= c < num_cols ==> (#[trigger] rows@[r]@[c])@ == cell(
                    r as nat,
                    c as nat,
                ),
        decreases num_rows - row,
    {
        let mut cells: Vec<String> = Vec::new();
        let mut col: usize = 0;
        while col < num_cols
            invariant
                col <= num_cols,
                cells@.len() == col,
                forall|c: int| 0 <= c < col ==> (#[trigger] cells@[c])@ == cell(row as nat, c as nat),
            decreases num_cols - col,
        {
            cells.push(cell_text(row, col));
            col = col + 1;
        }
        rows.push(cells);
        row = row + 1;
    }
    rows
}

/// Builds a text that is `length` characters wider than its first letter.
pub fn stretched_text(length: usize) -> (text: String)
    ensures
        text@ == stretched(length as nat),
{
    let mut text = String::from_str("O");
    proof {
        reveal_strlit("O");
        reveal_strlit("h");
        assert(text@ =~= stretched(0));
    }
    let mut done: usize = 0;
    while done < length
        invariant
            done <= length,
            text@ == stretched(done as nat),
            "h"@ == seq!['h'],
        decreases length - done,
    {
        text.append("h");
        done = done + 1;
        assert(text@ =~= stretched(done as nat));
    }
    text
}

} // verus!
