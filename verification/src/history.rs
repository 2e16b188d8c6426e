//! A bounded history of text snapshots in which consecutive duplicates
//! collapse into a single entry with a repeat count.

use crate::decimal::{decimal, decimal_string};
use crate::laws::lemma_record_well_formed;
use std::collections::VecDeque;
use vstd::prelude::*;
use vstd::string::StringExecFns;

verus! {

/// The largest number of entries a history retains.
pub const CAPACITY: usize = 100;

/// Mathematical value of one history entry.
pub struct EntryView {
    /// The snapshot's content.
    pub text: Seq<char>,
    /// How many times in a row the snapshot was observed.
    pub repeated: nat,
}

/// The history that results from recording `text` on top of `log`.
///
/// A snapshot equal to the newest entry bumps that entry's count; any other
/// snapshot becomes a new newest entry, and the oldest entry is dropped if the
/// history would otherwise exceed [`CAPACITY`].
pub open spec fn record(log: Seq<EntryView>, text: Seq<char>) -> Seq<EntryView> {
    if log.len() > 0 && log.last().text == text {
        log.update(log.len() - 1, EntryView { text, repeated: log.last().repeated + 1 })
    } else {
        let grown = log.push(EntryView { text, repeated: 1 });
        if grown.len() > CAPACITY {
            grown.drop_first()
        } else {
            grown
        }
    }
}

/// The history that results from recording each of `texts` in turn on top of
/// `log`.
pub open spec fn record_all(log: Seq<EntryView>, texts: Seq<Seq<char>>) -> Seq<EntryView>
    decreases texts.len(),
{
    if texts.len() == 0 {
        log
    } else {
        record(record_all(log, texts.drop_last()), texts.last())
    }
}

/// The invariant of every history: bounded length, positive counts, and no
/// two neighbours with the same text.
pub open spec fn well_formed(log: Seq<EntryView>) -> bool {
    &&& log.len() <= CAPACITY
    &&& forall|i: int| 0 <= i < log.len() ==> (#[trigger] log[i]).repeated >= 1
    &&& forall|i: int| 0 <= i < log.len() - 1 ==> (#[trigger] log[i]).text != log[i + 1].text
}

/// Whether `text` can be recorded on `log` without the newest entry's count
/// leaving the range of `usize`.
pub open spec fn accepts(log: Seq<EntryView>, text: Seq<char>) -> bool {
    log.len() > 0 && log.last().text == text ==> log.last().repeated < usize::MAX
}

/// What is shown in place of an empty snapshot.
pub open spec fn placeholder() -> Seq<char> {
    "(empty)"@
}

/// Mathematical value of one displayed row.
pub struct RowView {
    /// What stands for the snapshot.
    pub label: Seq<char>,
    /// Whether the label is the placeholder for an empty snapshot.
    pub blank: bool,
    /// The repeat mark, for a snapshot that was observed more than once.
    pub suffix: Option<Seq<char>>,
}

/// How an entry is displayed: an empty snapshot shows as a placeholder, and a
/// snapshot observed more than once is followed by its count.
pub open spec fn row_of(entry: EntryView) -> RowView {
    RowView {
        label: if entry.text.len() == 0 {
            placeholder()
        } else {
            entry.text
        },
        blank: entry.text.len() == 0,
        suffix: if entry.repeated > 1 {
            Some(" x"@ + decimal(entry.repeated))
        } else {
            None
        },
    }
}

/// A row written out as a single line.
pub open spec fn line_of(row: RowView) -> Seq<char> {
    match row.suffix {
        Some(suffix) => row.label + suffix,
        None => row.label,
    }
}

/// The rows that display `log`, newest entry first.
pub open spec fn rows_of(log: Seq<EntryView>) -> Seq<RowView> {
    Seq::new(log.len(), |i: int| row_of(log[log.len() - 1 - i]))
}

/// One run of identical snapshots.
#[derive(Debug)]
pub struct HistoryEntry {
    text: String,
    repeated: usize,
}

impl View for HistoryEntry {
    type V = EntryView;

    closed spec fn view(&self) -> EntryView {
        EntryView { text: self.text@, repeated: self.repeated as nat }
    }
}

impl HistoryEntry {
    /// The snapshot's content.
    pub fn text(&self) -> (text: &String)
        ensures
            text@ == self@.text,
    {
        &self.text
    }

    /// How many times in a row the snapshot was observed.
    pub fn repeated(&self) -> (repeated: usize)
        ensures
            repeated == self@.repeated,
    {
        self.repeated
    }

    /// The row that displays this entry.
    pub fn row(&self) -> (row: Row)
        ensures
            row@ == row_of(self@),
    {
        let blank = self.text.as_str().is_empty();
        let label = if blank {
            String::from_str("(empty)")
        } else {
            self.text.clone()
        };
        let suffix = if 1 < self.repeated {
            let mut mark = String::from_str(" x");
            mark.append(decimal_string(self.repeated).as_str());
            Some(mark)
        } else {
            None
        };
        Row { label, blank, suffix }
    }
}

/// One displayed row of a history.
#[derive(Debug)]
pub struct Row {
    /// What stands for the snapshot: its text, or a placeholder if it is
    /// empty.
    pub label: String,
    /// Whether the label is the placeholder for an empty snapshot.
    pub blank: bool,
    /// The repeat mark, for a snapshot that was observed more than once.
    pub suffix: Option<String>,
}

impl View for Row {
    type V = RowView;

    open spec fn view(&self) -> RowView {
        RowView {
            label: self.label@,
            blank: self.blank,
            suffix: match self.suffix {
                Some(suffix) => Some(suffix@),
                None => None,
            },
        }
    }
}

impl Row {
    /// Writes the row out as a single line.
    pub fn line(&self) -> (line: String)
        ensures
            line@ == line_of(self@),
    {
        let mut line = self.label.clone();
        match &self.suffix {
            Some(suffix) => {
                line.append(suffix.as_str());
            },
            None => {},
        }
        line
    }
}

/// The mathematical values of a run of stored entries.
pub open spec fn views(entries: Seq<HistoryEntry>) -> Seq<EntryView> {
    Seq::new(entries.len(), |i: int| entries[i]@)
}

/// The mathematical values of a run of rows.
pub open spec fn row_views(rows: Seq<Row>) -> Seq<RowView> {
    Seq::new(rows.len(), |i: int| rows[i]@)
}

/// The most recent snapshots, oldest first, with consecutive duplicates
/// collapsed.
pub struct DeduplicatedHistory {
    history: VecDeque<HistoryEntry>,
}

impl View for DeduplicatedHistory {
    type V = Seq<EntryView>;

    closed spec fn view(&self) -> Seq<EntryView> {
        views(self.history@)
    }
}

/// Records `text` on a bare queue of entries.
fn record_on(entries: &mut VecDeque<HistoryEntry>, text: String)
    requires
        well_formed(views(old(entries)@)),
        accepts(views(old(entries)@), text@),
    ensures
        views(final(entries)@) == record(views(old(entries)@), text@),
        well_formed(views(final(entries)@)),
{
    proof {
        lemma_record_well_formed(views(entries@), text@);
    }
    let len: usize = entries.len();
    if len > 0 && entries[len - 1].text == text {
        let repeated: usize = entries[len - 1].repeated;
        let _ = entries.pop_back();
        entries.push_back(HistoryEntry { text, repeated: repeated + 1 });
    } else {
        entries.push_back(HistoryEntry { text, repeated: 1 });
        if entries.len() > CAPACITY {
            let _ = entries.pop_front();
        }
    }
    assert(views(entries@) =~= record(views(old(entries)@), text@));
}

impl DeduplicatedHistory {
    #[verifier::type_invariant]
    spec fn inv(self) -> bool {
        well_formed(self@)
    }

    /// An empty history.
    pub fn new() -> (history: Self)
        ensures
            history@ == Seq::<EntryView>::empty(),
    {
        DeduplicatedHistory { history: VecDeque::new() }
    }

    /// Records one observation of `text`.
    ///
    /// If `text` equals the newest entry's text, that entry's count goes up
    /// by one. Otherwise `text` becomes the newest entry, with a count of
    /// one, and the oldest entry is dropped if there are now more than
    /// [`CAPACITY`] entries.
    pub fn add(&mut self, text: String)
        requires
            accepts(old(self)@, text@),
        ensures
            final(self)@ == record(old(self)@, text@),
            well_formed(final(self)@),
    {
        proof {
            use_type_invariant(&*self);
        }
        // The queue is taken out while it changes, so that `self` holds a
        // well-formed history at every step.
        let mut entries: VecDeque<HistoryEntry> = VecDeque::new();
        std::mem::swap(&mut self.history, &mut entries);
        record_on(&mut entries, text);
        self.history = entries;
    }

    /// Records one observation of `text` if its count fits, and says whether
    /// it did; otherwise the history is left as it is.
    pub fn try_add(&mut self, text: String) -> (recorded: bool)
        ensures
            recorded == accepts(old(self)@, text@),
            final(self)@ == if recorded {
                record(old(self)@, text@)
            } else {
                old(self)@
            },
            well_formed(final(self)@),
    {
        proof {
            use_type_invariant(&*self);
        }
        if self.can_add(&text) {
            self.add(text);
            true
        } else {
            false
        }
    }

    /// Whether `text` can be recorded: it always can, unless it would repeat
    /// the newest entry once more than `usize` can count.
    pub fn can_add(&self, text: &String) -> (ok: bool)
        ensures
            ok == accepts(self@, text@),
    {
        let len: usize = self.history.len();
        if len > 0 && self.history[len - 1].text == *text {
            self.history[len - 1].repeated < usize::MAX
        } else {
            true
        }
    }

    /// The number of stored entries, which never exceeds [`CAPACITY`].
    pub fn len(&self) -> (len: usize)
        ensures
            len == self@.len(),
            len <= CAPACITY,
    {
        proof {
            use_type_invariant(self);
        }
        self.history.len()
    }

    /// Whether nothing has been recorded yet.
    pub fn is_empty(&self) -> (empty: bool)
        ensures
            empty == (self@.len() == 0),
    {
        self.history.len() == 0
    }

    /// The stored entries, oldest first. The history itself is left as it
    /// is, so listing it again gives the same entries.
    pub fn entries(&self) -> (entries: Vec<HistoryEntry>)
        ensures
            views(entries@) == self@,
            well_formed(views(entries@)),
    {
        proof {
            use_type_invariant(self);
        }
        let len: usize = self.history.len();
        let mut entries: Vec<HistoryEntry> = Vec::new();
        let mut at: usize = 0;
        while at < len
            invariant
                at <= len == self.history@.len(),
                entries@.len() == at,
                forall|i: int| 0 <= i < at ==> (#[trigger] entries@[i])@ == self.history@[i]@,
            decreases len - at,
        {
            let entry = &self.history[at];
            entries.push(HistoryEntry { text: entry.text.clone(), repeated: entry.repeated });
            at = at + 1;
        }
        assert(views(entries@) =~= self@);
        entries
    }

    /// The rows that display the history, newest entry first.
    pub fn rows(&self) -> (rows: Vec<Row>)
        ensures
            row_views(rows@) == rows_of(self@),
    {
        let len: usize = self.history.len();
        let mut rows: Vec<Row> = Vec::new();
        let mut at: usize = len;
        while at > 0
            invariant
                at <= len == self.history@.len(),
                rows@.len() == len - at,
                forall|i: int|
                    0 <= i < len - at ==> (#[trigger] rows@[i])@ == row_of(
                        self.history@[len - 1 - i]@,
                    ),
            decreases at,
        {
            at = at - 1;
            rows.push(self.history[at].row());
        }
        assert(row_views(rows@) =~= rows_of(self@));
        rows
    }
}

impl Default for DeduplicatedHistory {
    fn default() -> (history: Self)
        ensures
            history@ == Seq::<EntryView>::empty(),
    {
        DeduplicatedHistory::new()
    }
}

} // verus!
