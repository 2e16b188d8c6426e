use demo_panels::history::{DeduplicatedHistory, HistoryEntry, Row, CAPACITY};

fn recorded(texts: &[&str]) -> DeduplicatedHistory {
    let mut history = DeduplicatedHistory::new();
    for text in texts {
        history.add((*text).to_owned());
    }
    history
}

fn listed(history: &DeduplicatedHistory) -> Vec<(String, usize)> {
    history
        .entries()
        .iter()
        .map(|entry: &HistoryEntry| (entry.text().clone(), entry.repeated()))
        .collect()
}

fn lines(history: &DeduplicatedHistory) -> Vec<String> {
    history.rows().iter().map(|row: &Row| row.line()).collect()
}

#[test]
fn new_history_is_empty() {
    let history = DeduplicatedHistory::new();
    assert!(history.is_empty());
    assert_eq!(history.len(), 0);
    assert!(history.entries().is_empty());
    assert!(history.rows().is_empty());
    let by_default = DeduplicatedHistory::default();
    assert!(by_default.is_empty());
}

#[test]
fn repeats_collapse_into_one_entry() {
    let history = recorded(&["a", "a", "b"]);
    assert_eq!(listed(&history), vec![("a".to_owned(), 2), ("b".to_owned(), 1)]);
}

#[test]
fn empty_text_is_a_text_like_any_other() {
    let history = recorded(&["", ""]);
    assert_eq!(listed(&history), vec![(String::new(), 2)]);
    assert_eq!(lines(&history), vec!["(empty) x2".to_owned()]);
    let rows = history.rows();
    assert!(rows[0].blank);
    assert_eq!(rows[0].label, "(empty)");
    assert_eq!(rows[0].suffix.as_deref(), Some(" x2"));
}

#[test]
fn empty_text_differs_from_blank_text() {
    let history = recorded(&["", " ", ""]);
    assert_eq!(
        listed(&history),
        vec![(String::new(), 1), (" ".to_owned(), 1), (String::new(), 1)]
    );
}

#[test]
fn oldest_entry_is_evicted_when_full() {
    let mut history = DeduplicatedHistory::new();
    for i in 0..=100 {
        history.add(format!("t{i}"));
    }
    let entries = listed(&history);
    assert_eq!(entries.len(), 100);
    for (at, entry) in entries.iter().enumerate() {
        assert_eq!(entry.0, format!("t{}", at + 1));
        assert_eq!(entry.1, 1);
    }
    assert!(entries.iter().all(|entry| entry.0 != "t0"));
}

#[test]
fn a_full_history_is_not_evicted_by_a_repeat() {
    let mut history = DeduplicatedHistory::new();
    for i in 0..100 {
        history.add(format!("t{i}"));
    }
    assert_eq!(history.len(), CAPACITY);
    assert_eq!(listed(&history)[0], ("t0".to_owned(), 1));
    history.add("t99".to_owned());
    assert_eq!(history.len(), CAPACITY);
    assert_eq!(listed(&history)[0], ("t0".to_owned(), 1));
    assert_eq!(listed(&history)[99], ("t99".to_owned(), 2));
    history.add("new".to_owned());
    assert_eq!(history.len(), CAPACITY);
    assert_eq!(listed(&history)[0], ("t1".to_owned(), 1));
    assert_eq!(listed(&history)[98], ("t99".to_owned(), 2));
    assert_eq!(listed(&history)[99], ("new".to_owned(), 1));
}

#[test]
fn each_call_evicts_at_most_one_entry() {
    let mut history = DeduplicatedHistory::new();
    for i in 0..250 {
        let before = listed(&history);
        history.add(format!("t{i}"));
        let after = listed(&history);
        if before.len() < CAPACITY {
            assert_eq!(after.len(), before.len() + 1);
            assert_eq!(after[..before.len()], before[..]);
        } else {
            assert_eq!(after.len(), CAPACITY);
            assert_eq!(after[..CAPACITY - 1], before[1..]);
        }
    }
}

#[test]
fn length_never_exceeds_capacity() {
    let mut history = DeduplicatedHistory::new();
    for i in 0..1000 {
        history.add(format!("{}", (i * 7) % 300 / 2));
        assert!(history.len() <= CAPACITY);
        assert!(history.len() <= 100);
    }
    assert_eq!(history.len(), 100);
}

#[test]
fn count_is_the_number_of_consecutive_recordings() {
    for n in 1..40 {
        let mut history = recorded(&["before"]);
        for _ in 0..n {
            history.add("again".to_owned());
        }
        history.add("after".to_owned());
        assert_eq!(
            listed(&history),
            vec![("before".to_owned(), 1), ("again".to_owned(), n), ("after".to_owned(), 1)]
        );
    }
}

#[test]
fn a_text_that_returns_starts_a_new_run() {
    let history = recorded(&["a", "a", "b", "a", "a", "a"]);
    assert_eq!(
        listed(&history),
        vec![("a".to_owned(), 2), ("b".to_owned(), 1), ("a".to_owned(), 3)]
    );
}

#[test]
fn neighbours_never_share_a_text() {
    let mut history = DeduplicatedHistory::new();
    for i in 0..2000 {
        history.add(format!("{}", (i * i / 3) % 5));
        let entries = listed(&history);
        for pair in entries.windows(2) {
            assert_ne!(pair[0].0, pair[1].0);
        }
        assert!(entries.iter().all(|entry| entry.1 >= 1));
    }
}

#[test]
fn listing_does_not_change_the_history() {
    let history = recorded(&["x", "y", "y", ""]);
    let first = listed(&history);
    let second = listed(&history);
    assert_eq!(first, second);
    assert_eq!(lines(&history), lines(&history));
    assert_eq!(
        first,
        vec![("x".to_owned(), 1), ("y".to_owned(), 2), (String::new(), 1)]
    );
    assert_eq!(history.len(), 3);
}

#[test]
fn rows_come_newest_first() {
    let history = recorded(&["one", "two", "two", "two", ""]);
    assert_eq!(
        lines(&history),
        vec!["(empty)".to_owned(), "two x3".to_owned(), "one".to_owned()]
    );
    let rows = history.rows();
    assert!(rows[0].blank);
    assert_eq!(rows[0].suffix, None);
    assert!(!rows[1].blank);
    assert_eq!(rows[1].label, "two");
    assert_eq!(rows[1].suffix.as_deref(), Some(" x3"));
    assert!(!rows[2].blank);
    assert_eq!(rows[2].suffix, None);
}

#[test]
fn a_single_observation_has_no_repeat_mark() {
    let history = recorded(&["once"]);
    let entries = history.entries();
    let row = entries[0].row();
    assert_eq!(row.label, "once");
    assert_eq!(row.suffix, None);
    assert_eq!(row.line(), "once");
}

#[test]
fn repeat_mark_counts_in_decimal() {
    let mut history = DeduplicatedHistory::new();
    for _ in 0..1234 {
        history.add("tick".to_owned());
    }
    assert_eq!(lines(&history), vec!["tick x1234".to_owned()]);
}

#[test]
fn a_text_that_reads_like_the_placeholder_is_not_blank() {
    let history = recorded(&["(empty)"]);
    let rows = history.rows();
    assert!(!rows[0].blank);
    assert_eq!(rows[0].label, "(empty)");
}

#[test]
fn try_add_records_like_add() {
    let mut tried = DeduplicatedHistory::new();
    let mut added = DeduplicatedHistory::new();
    for text in ["a", "a", "", "b", "b", "b"] {
        assert!(tried.can_add(&text.to_owned()));
        assert!(tried.try_add(text.to_owned()));
        added.add(text.to_owned());
        assert_eq!(listed(&tried), listed(&added));
    }
    assert_eq!(
        listed(&tried),
        vec![("a".to_owned(), 2), (String::new(), 1), ("b".to_owned(), 3)]
    );
}
