//! What holds of every history, proved over its mathematical model.

use crate::history::{
    record, record_all, views, well_formed, DeduplicatedHistory, EntryView, HistoryEntry, CAPACITY,
};
use vstd::prelude::*;

verus! {

/// Recording keeps a history well formed: it never holds more than
/// [`CAPACITY`] entries, every count stays positive, and no two neighbouring
/// entries share a text.
pub proof fn lemma_record_well_formed(log: Seq<EntryView>, text: Seq<char>)
    requires
        well_formed(log),
    ensures
        well_formed(record(log, text)),
{
    let next = record(log, text);
    if log.len() > 0 && log.last().text == text {
        assert forall|i: int| 0 <= i < next.len() - 1 implies (#[trigger] next[i]).text != next[i
            + 1].text by {
            assert(log[i].text != log[i + 1].text);
        }
    } else {
        let grown = log.push(EntryView { text, repeated: 1 });
        assert forall|i: int| 0 <= i < grown.len() - 1 implies (#[trigger] grown[i]).text
            != grown[i + 1].text by {
            if i < log.len() - 1 {
                assert(log[i].text != log[i + 1].text);
            }
        }
        if grown.len() > CAPACITY {
            assert forall|i: int| 0 <= i < next.len() - 1 implies (#[trigger] next[i]).text
                != next[i + 1].text by {
                assert(grown[i + 1].text != grown[i + 2].text);
            }
        }
    }
}

/// Whatever is recorded, in whatever order, on a well-formed history, the
/// history stays well formed.
pub proof fn lemma_record_all_well_formed(log: Seq<EntryView>, texts: Seq<Seq<char>>)
    requires
        well_formed(log),
    ensures
        well_formed(record_all(log, texts)),
    decreases texts.len(),
{
    if texts.len() > 0 {
        lemma_record_all_well_formed(log, texts.drop_last());
        lemma_record_well_formed(record_all(log, texts.drop_last()), texts.last());
    }
}

/// A history that started empty never holds more than [`CAPACITY`] entries,
/// whatever was recorded.
pub proof fn lemma_length_bounded(texts: Seq<Seq<char>>)
    ensures
        record_all(Seq::empty(), texts).len() <= CAPACITY,
{
    lemma_record_all_well_formed(Seq::empty(), texts);
}

/// In a history that started empty no two neighbouring entries share a text,
/// whatever was recorded.
pub proof fn lemma_neighbours_differ(texts: Seq<Seq<char>>, i: int)
    requires
        0 <= i < record_all(Seq::empty(), texts).len() - 1,
    ensures
        record_all(Seq::empty(), texts)[i].text != record_all(Seq::empty(), texts)[i + 1].text,
{
    lemma_record_all_well_formed(Seq::empty(), texts);
}

/// Listing a history does not change it, so any two listings of one history
/// hold the same entries.
pub proof fn lemma_listing_repeatable(
    history: DeduplicatedHistory,
    first: Seq<HistoryEntry>,
    second: Seq<HistoryEntry>,
)
    requires
        views(first) == history@,
        views(second) == history@,
    ensures
        views(first) == views(second),
        first.len() == second.len(),
        forall|i: int| 0 <= i < first.len() ==> (#[trigger] first[i])@ == second[i]@,
{
    assert(views(first).len() == first.len());
    assert(views(second).len() == second.len());
    assert forall|i: int| 0 <= i < first.len() implies (#[trigger] first[i])@ == second[i]@ by {
        assert(views(first)[i] == first[i]@);
        assert(views(second)[i] == second[i]@);
    }
}

/// `text`, `count` times over.
pub open spec fn repeat(text: Seq<char>, count: nat) -> Seq<Seq<char>> {
    Seq::new(count, |i: int| text)
}

/// Recording the same text several times in a row leaves exactly one entry
/// for the run, and its count is the number of recordings (on top of the
/// count the newest entry already had, if the run continues it). The rest of
/// the history is as the first of these recordings left it.
pub proof fn lemma_repeats_collapse(log: Seq<EntryView>, text: Seq<char>, count: nat)
    requires
        count >= 1,
    ensures
        ({
            let first = record(log, text);
            let last = record_all(log, repeat(text, count));
            let before: nat = if log.len() > 0 && log.last().text == text {
                log.last().repeated
            } else {
                0
            };
            &&& last.len() == first.len() >= 1
            &&& last.last() == (EntryView { text, repeated: before + count })
            &&& last.drop_last() == first.drop_last()
            &&& well_formed(log) && last.len() >= 2 ==> last[last.len() - 2].text != text
        }),
    decreases count,
{
    let first = record(log, text);
    let last = record_all(log, repeat(text, count));
    assert(repeat(text, count).drop_last() =~= repeat(text, (count - 1) as nat));
    assert(repeat(text, count).last() == text);
    if count == 1 {
        assert(record_all(log, repeat(text, 0)) == log);
        assert(last == first);
    } else {
        let previous = record_all(log, repeat(text, (count - 1) as nat));
        lemma_repeats_collapse(log, text, (count - 1) as nat);
        assert(last == record(previous, text));
        assert(last.drop_last() =~= previous.drop_last());
    }
    if well_formed(log) && last.len() >= 2 {
        lemma_record_well_formed(log, text);
        assert(first[first.len() - 2].text != first[first.len() - 2 + 1].text);
        assert(last[last.len() - 2] == last.drop_last()[last.len() - 2]);
        assert(first[first.len() - 2] == first.drop_last()[first.len() - 2]);
    }
}

/// The run-length encoding of `runs` followed by one more `text`.
pub open spec fn extend(runs: Seq<EntryView>, text: Seq<char>) -> Seq<EntryView> {
    if runs.len() > 0 && runs.last().text == text {
        runs.update(runs.len() - 1, EntryView { text, repeated: runs.last().repeated + 1 })
    } else {
        runs.push(EntryView { text, repeated: 1 })
    }
}

/// The run-length encoding of `texts`: one entry for each maximal run of
/// equal neighbours, with the length of the run as its count.
pub open spec fn runs(texts: Seq<Seq<char>>) -> Seq<EntryView>
    decreases texts.len(),
{
    if texts.len() == 0 {
        Seq::empty()
    } else {
        extend(runs(texts.drop_last()), texts.last())
    }
}

/// The texts that `runs` stands for: each entry's text, as often as its
/// count says.
pub open spec fn expand(runs: Seq<EntryView>) -> Seq<Seq<char>>
    decreases runs.len(),
{
    if runs.len() == 0 {
        Seq::empty()
    } else {
        expand(runs.drop_last()) + repeat(runs.last().text, runs.last().repeated)
    }
}

/// The run-length encoding loses nothing and is as short as can be: written
/// out again it gives back the texts, every run has at least one member, and
/// no two neighbouring runs share a text.
pub proof fn lemma_runs_encode(texts: Seq<Seq<char>>)
    ensures
        expand(runs(texts)) == texts,
        forall|i: int| 0 <= i < runs(texts).len() ==> (#[trigger] runs(texts)[i]).repeated >= 1,
        forall|i: int|
            0 <= i < runs(texts).len() - 1 ==> (#[trigger] runs(texts)[i]).text != runs(texts)[i
                + 1].text,
    decreases texts.len(),
{
    if texts.len() > 0 {
        let front = runs(texts.drop_last());
        let text = texts.last();
        let all = runs(texts);
        lemma_runs_encode(texts.drop_last());
        if front.len() > 0 && front.last().text == text {
            assert(all.drop_last() =~= front.drop_last());
            assert(repeat(text, front.last().repeated + 1) =~= repeat(text, front.last().repeated)
                + seq![text]);
            assert forall|i: int| 0 <= i < all.len() - 1 implies (#[trigger] all[i]).text != all[i
                + 1].text by {
                assert(front[i].text != front[i + 1].text);
            }
        } else {
            assert(all.drop_last() =~= front);
            assert(repeat(text, 1) =~= seq![text]);
            assert forall|i: int| 0 <= i < all.len() - 1 implies (#[trigger] all[i]).text != all[i
                + 1].text by {
                if i < front.len() - 1 {
                    assert(front[i].text != front[i + 1].text);
                }
            }
        }
        assert(expand(all) =~= texts.drop_last() + seq![text]);
        assert(texts.drop_last() + seq![text] =~= texts);
    }
}

/// The last `limit` entries of `log`, or all of it if it has no more.
pub open spec fn newest(log: Seq<EntryView>, limit: nat) -> Seq<EntryView> {
    if log.len() <= limit {
        log
    } else {
        log.subrange(log.len() - limit, log.len() as int)
    }
}

/// Recording on the newest runs gives the newest runs of the extended
/// encoding.
proof fn lemma_record_newest(encoded: Seq<EntryView>, text: Seq<char>)
    ensures
        record(newest(encoded, CAPACITY as nat), text) == newest(
            extend(encoded, text),
            CAPACITY as nat,
        ),
{
    assert(record(newest(encoded, CAPACITY as nat), text) =~= newest(
        extend(encoded, text),
        CAPACITY as nat,
    ));
}

/// A history that started empty holds the run-length encoding of everything
/// that was recorded, cut down to its [`CAPACITY`] newest runs.
pub proof fn lemma_history_is_newest_runs(texts: Seq<Seq<char>>)
    ensures
        record_all(Seq::empty(), texts) == newest(runs(texts), CAPACITY as nat),
    decreases texts.len(),
{
    if texts.len() > 0 {
        lemma_history_is_newest_runs(texts.drop_last());
        lemma_record_newest(runs(texts.drop_last()), texts.last());
    }
}

/// Each of `texts` as a run of its own.
pub open spec fn singles(texts: Seq<Seq<char>>) -> Seq<EntryView> {
    Seq::new(texts.len(), |i: int| EntryView { text: texts[i], repeated: 1 })
}

/// If no recorded text equals the one recorded just before it, a history
/// that started empty holds the newest [`CAPACITY`] of them, each with a
/// count of one: the oldest are the ones that were dropped.
pub proof fn lemma_distinct_texts_keep_newest(texts: Seq<Seq<char>>)
    requires
        forall|i: int| 0 <= i < texts.len() - 1 ==> #[trigger] texts[i] != texts[i + 1],
    ensures
        record_all(Seq::empty(), texts) == newest(singles(texts), CAPACITY as nat),
{
    lemma_runs_of_distinct(texts);
    lemma_history_is_newest_runs(texts);
}

/// Texts that differ from their predecessors encode as runs of one.
proof fn lemma_runs_of_distinct(texts: Seq<Seq<char>>)
    requires
        forall|i: int| 0 <= i < texts.len() - 1 ==> #[trigger] texts[i] != texts[i + 1],
    ensures
        runs(texts) == singles(texts),
    decreases texts.len(),
{
    if texts.len() > 0 {
        let front = texts.drop_last();
        assert forall|i: int| 0 <= i < front.len() - 1 implies #[trigger] front[i] != front[i
            + 1] by {
            assert(texts[i] != texts[i + 1]);
        }
        lemma_runs_of_distinct(front);
        if front.len() > 0 {
            assert(texts[front.len() - 1] != texts[front.len() - 1 + 1]);
        }
        assert(runs(texts) =~= singles(texts));
    } else {
        assert(runs(texts) =~= singles(texts));
    }
}

} // verus!
