//! The state of the test panels.

use crate::history::{accepts, record, DeduplicatedHistory, EntryView};
use crate::summary::{response_summary, summary, Interaction};
use crate::text::{trim, trimmed};
use vstd::prelude::*;
use vstd::string::StringExecFns;

verus! {

/// A short filler text.
pub const LOREM_IPSUM: &'static str =
    "Lorem ipsum dolor sit amet, consectetur adipiscing elit, sed do eiusmod tempor incididunt ut labore et dolore magna aliqua. Ut enim ad minim veniam, quis nostrud exercitation ullamco laboris nisi ut aliquip ex ea commodo consequat.";

/// A filler text of two paragraphs.
pub const LOREM_IPSUM_LONG: &'static str =
    "Lorem ipsum dolor sit amet, consectetur adipiscing elit, sed do eiusmod tempor incididunt ut labore et dolore magna aliqua. Ut enim ad minim veniam, quis nostrud exercitation ullamco laboris nisi ut aliquip ex ea commodo consequat.\n\nCurabitur pretium tincidunt lacus. Nulla gravida orci a odio. Nullam varius, turpis et commodo pharetra, est eros bibendum elit, nec luctus magna felis sollicitudin mauris. Integer in mauris eu nibh euismod gravida. Duis ac tellus et risus vulputate vehicula. Donec lobortis risus a elit. Etiam tempor. Ut ullamcorper, ligula eu tempor congue, eros est euismod turpis, id tincidunt sapien risus a quam. Maecenas fermentum consequat mi. Donec fermentum. Pellentesque malesuada nulla a mi. Duis sapien sem, aliquet nec, commodo eget, consequat quis, neque. Aliquam faucibus, elit ut dictum aliquet, felis nisl adipiscing sapien, sed malesuada diam lacus eget erat. Cras mollis scelerisque nunc. Nullam arcu. Aliquam consequat. Curabitur augue lorem, dapibus quis, laoreet et, pretium ac, nisi. Aenean magna nisl, mollis quis, molestie eu, feugiat in, orci. In hac habitasse platea dictumst.";

/// Shows every cursor icon on hover.
#[derive(Default)]
pub struct CursorTest {}

impl CursorTest {
    /// The panel's title.
    pub fn name(&self) -> (name: &'static str)
        ensures
            name@ == "Cursor Test"@,
    {
        "Cursor Test"
    }
}

/// Shows what happens when two widgets share an identifier.
#[derive(Default)]
pub struct IdTest {}

impl IdTest {
    /// The panel's title.
    pub fn name(&self) -> (name: &'static str)
        ensures
            name@ == "ID Test"@,
    {
        "ID Test"
    }
}

/// Shows windows that resize in different ways.
pub struct WindowResizeTest {
    /// The text that the user edits in the last of the windows.
    pub text: String,
}

impl WindowResizeTest {
    /// The panel's title.
    pub fn name(&self) -> (name: &'static str)
        ensures
            name@ == "\u{2194} Window Resize"@,
    {
        "\u{2194} Window Resize"
    }

    /// A filler text long enough to need scrolling: the long filler text
    /// twice, with an empty line in between.
    pub fn extra_long_text() -> (text: String)
        ensures
            text@ == LOREM_IPSUM_LONG@ + "\n\n"@ + LOREM_IPSUM_LONG@,
    {
        let mut text = String::from_str(LOREM_IPSUM_LONG);
        text.append("\n\n");
        text.append(LOREM_IPSUM_LONG);
        text
    }
}

impl Default for WindowResizeTest {
    fn default() -> (panel: Self)
        ensures
            panel.text@ == LOREM_IPSUM_LONG@,
    {
        WindowResizeTest { text: String::from_str(LOREM_IPSUM_LONG) }
    }
}

/// How many widgets the input test watches side by side.
pub const COLUMNS: usize = 4;

/// Mathematical value of an [`InputTest`].
pub struct InputTestView {
    /// The history of each watched widget.
    pub logs: Seq<Seq<EntryView>>,
    /// Whether the widgets are made sensitive only after they were added.
    pub late_interaction: bool,
    /// Whether the summaries include the hover state.
    pub show_hovers: bool,
}

/// The value of a panel on which nothing has happened yet.
pub open spec fn fresh() -> InputTestView {
    InputTestView {
        logs: Seq::new(COLUMNS as nat, |column: int| Seq::empty()),
        late_interaction: false,
        show_hovers: false,
    }
}

/// Reports how widgets of different sensitivity respond to the pointer.
pub struct InputTest {
    history: [DeduplicatedHistory; 4],
    late_interaction: bool,
    show_hovers: bool,
}

impl View for InputTest {
    type V = InputTestView;

    closed spec fn view(&self) -> InputTestView {
        InputTestView {
            logs: Seq::new(COLUMNS as nat, |column: int| self.history@[column]@),
            late_interaction: self.late_interaction,
            show_hovers: self.show_hovers,
        }
    }
}

impl InputTest {
    /// The panel's title.
    pub fn name(&self) -> (name: &'static str)
        ensures
            name@ == "Input Test"@,
    {
        "Input Test"
    }

    /// Whether the widgets are made sensitive only after they were added.
    pub fn late_interaction(&self) -> (on: bool)
        ensures
            on == self@.late_interaction,
    {
        self.late_interaction
    }

    /// Chooses whether the widgets are made sensitive only after they were
    /// added.
    pub fn set_late_interaction(&mut self, on: bool)
        ensures
            final(self)@ == (InputTestView { late_interaction: on, ..old(self)@ }),
    {
        self.late_interaction = on;
    }

    /// Whether the summaries include the hover state.
    pub fn show_hovers(&self) -> (on: bool)
        ensures
            on == self@.show_hovers,
    {
        self.show_hovers
    }

    /// Chooses whether the summaries include the hover state.
    pub fn set_show_hovers(&mut self, on: bool)
        ensures
            final(self)@ == (InputTestView { show_hovers: on, ..old(self)@ }),
    {
        self.show_hovers = on;
    }

    /// The history of the widget in column `column`.
    pub fn history(&self, column: usize) -> (history: &DeduplicatedHistory)
        requires
            column < COLUMNS,
        ensures
            history@ == self@.logs[column as int],
    {
        &self.history[column]
    }

    /// Forgets everything: the panel is as new.
    pub fn clear(&mut self)
        ensures
            final(self)@ == fresh(),
    {
        *self = InputTest::default();
    }

    /// Records what the pointer did to the widget in column `column` during
    /// this refresh cycle: its summary, without surrounding white space,
    /// goes into that widget's history. Says whether it was recorded; it is
    /// not if that would repeat the newest entry once more than `usize` can
    /// count, and then nothing changes.
    pub fn observe(&mut self, column: usize, response: &Interaction) -> (recorded: bool)
        requires
            column < COLUMNS,
        ensures
            recorded == accepts(
                old(self)@.logs[column as int],
                trimmed(summary(*response, old(self)@.show_hovers)),
            ),
            final(self)@ == if recorded {
                InputTestView {
                    logs: old(self)@.logs.update(
                        column as int,
                        record(
                            old(self)@.logs[column as int],
                            trimmed(summary(*response, old(self)@.show_hovers)),
                        ),
                    ),
                    ..old(self)@
                }
            } else {
                old(self)@
            },
    {
        let info = response_summary(response, self.show_hovers);
        let recorded = self.history[column].try_add(trim(info.as_str()));
        assert(self@.logs =~= if recorded {
            old(self)@.logs.update(
                column as int,
                record(old(self)@.logs[column as int], trimmed(info@)),
            )
        } else {
            old(self)@.logs
        });
        recorded
    }
}

impl Default for InputTest {
    fn default() -> (panel: Self)
        ensures
            panel@ == fresh(),
    {
        let panel = InputTest {
            history: [
                DeduplicatedHistory::new(),
                DeduplicatedHistory::new(),
                DeduplicatedHistory::new(),
                DeduplicatedHistory::new(),
            ],
            late_interaction: false,
            show_hovers: false,
        };
        assert(panel@.logs =~= fresh().logs);
        panel
    }
}

} // verus!
