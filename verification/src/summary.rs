//! The textual summary of what a pointer did to a widget during one refresh
//! cycle.

use vstd::prelude::*;
use vstd::string::StringExecFns;

verus! {

/// A pointer button.
#[derive(Clone, Copy, Debug, PartialEq, Eq, Structural)]
pub enum PointerButton {
    /// Usually the left mouse button.
    Primary,
    /// Usually the right mouse button.
    Secondary,
    /// Usually the middle mouse button.
    Middle,
    /// The first extra button some mice have.
    Extra1,
    /// The second extra button some mice have.
    Extra2,
}

impl PointerButton {
    /// The button's name as it is written in a summary.
    pub open spec fn label(self) -> Seq<char> {
        match self {
            PointerButton::Primary => "Primary"@,
            PointerButton::Secondary => "Secondary"@,
            PointerButton::Middle => "Middle"@,
            PointerButton::Extra1 => "Extra1"@,
            PointerButton::Extra2 => "Extra2"@,
        }
    }

    /// The button's name.
    pub fn name(self) -> (name: &'static str)
        ensures
            name@ == self.label(),
    {
        match self {
            PointerButton::Primary => "Primary",
            PointerButton::Secondary => "Secondary",
            PointerButton::Middle => "Middle",
            PointerButton::Extra1 => "Extra1",
            PointerButton::Extra2 => "Extra2",
        }
    }
}

/// What one pointer button did to a widget during a refresh cycle.
#[derive(Clone, Copy, Debug, PartialEq, Eq, Default)]
pub struct ButtonEvents {
    /// The button triple-clicked the widget.
    pub triple_clicked: bool,
    /// The button double-clicked the widget.
    pub double_clicked: bool,
    /// The button clicked the widget.
    pub clicked: bool,
    /// A drag by the button ended.
    pub drag_released: bool,
    /// The button is dragging the widget.
    pub dragged: bool,
    /// A drag by the button began.
    pub drag_started: bool,
}

/// The outcome of the pointer's interaction with one widget during a refresh
/// cycle.
#[derive(Debug, Default)]
pub struct Interaction {
    /// The pointer hovers over the widget.
    pub hovered: bool,
    /// The pointer is inside the widget's area.
    pub contains_pointer: bool,
    /// A pointer button is held down on the widget.
    pub pointer_down_on: bool,
    /// Where the pointer touched the widget, already written out as text.
    pub interact_pointer_pos: Option<String>,
    /// What the primary button did.
    pub primary: ButtonEvents,
    /// What the secondary button did.
    pub secondary: ButtonEvents,
    /// What the middle button did.
    pub middle: ButtonEvents,
    /// What the first extra button did.
    pub extra1: ButtonEvents,
    /// What the second extra button did.
    pub extra2: ButtonEvents,
}

/// `text` followed by a line break.
pub open spec fn line(text: Seq<char>) -> Seq<char> {
    text.push('\n')
}

/// `text` if `flag` holds, and nothing otherwise.
pub open spec fn when(flag: bool, text: Seq<char>) -> Seq<char> {
    if flag {
        text
    } else {
        Seq::empty()
    }
}

/// The words that say which button caused an event. The primary button is
/// the common case and is left unnamed.
pub open spec fn by_button(button: PointerButton) -> Seq<char> {
    if button == PointerButton::Primary {
        Seq::empty()
    } else {
        " by "@ + button.label() + " button"@
    }
}

/// The line that reports where the pointer touched the widget, if it did.
pub open spec fn position_line(response: Interaction) -> Seq<char> {
    match response.interact_pointer_pos {
        Some(pos) => line("response.interact_pointer_pos: "@ + pos@),
        None => Seq::empty(),
    }
}

/// The lines that report the hover state.
pub open spec fn hover_lines(response: Interaction) -> Seq<char> {
    when(response.hovered, line("hovered"@)) + when(
        response.contains_pointer,
        line("contains_pointer"@),
    ) + when(response.pointer_down_on, line("pointer_down_on"@)) + position_line(response)
}

/// The lines that report one button's events, latest stage of a gesture
/// first.
pub open spec fn button_lines(events: ButtonEvents, button: PointerButton) -> Seq<char> {
    let by = by_button(button);
    when(events.triple_clicked, line("Triple-clicked"@ + by)) + when(
        events.double_clicked,
        line("Double-clicked"@ + by),
    ) + when(events.clicked, line("Clicked"@ + by)) + when(
        events.drag_released,
        line("Drag ended"@ + by),
    ) + when(events.dragged, line("Dragged"@ + by)) + when(
        events.drag_started,
        line("Drag started"@ + by),
    )
}

/// The whole summary: the hover lines, if asked for, then each button's
/// lines, from the primary button to the second extra one.
pub open spec fn summary(response: Interaction, show_hovers: bool) -> Seq<char> {
    when(show_hovers, hover_lines(response)) + button_lines(
        response.primary,
        PointerButton::Primary,
    ) + button_lines(response.secondary, PointerButton::Secondary) + button_lines(
        response.middle,
        PointerButton::Middle,
    ) + button_lines(response.extra1, PointerButton::Extra1) + button_lines(
        response.extra2,
        PointerButton::Extra2,
    )
}

/// Appends the line `head` `tail` to `info` if `flag` holds.
fn write_line(info: &mut String, flag: bool, head: &str, tail: &str)
    ensures
        final(info)@ == old(info)@ + when(flag, line(head@ + tail@)),
{
    if flag {
        info.append(head);
        info.append(tail);
        info.append("\n");
        proof {
            reveal_strlit("\n");
            assert(info@ =~= old(info)@ + line(head@ + tail@));
        }
    } else {
        assert(info@ =~= old(info)@ + Seq::<char>::empty());
    }
}

/// The words that say which button caused an event.
fn button_suffix(button: PointerButton) -> (suffix: String)
    ensures
        suffix@ == by_button(button),
{
    match button {
        PointerButton::Primary => String::new(),
        _ => {
            let mut suffix = String::from_str(" by ");
            suffix.append(button.name());
            suffix.append(" button");
            suffix
        },
    }
}

/// Four pieces appended one after the other amount to their concatenation
/// appended at once.
proof fn lemma_appended_four(
    start: Seq<char>,
    a: Seq<char>,
    b: Seq<char>,
    c: Seq<char>,
    d: Seq<char>,
)
    ensures
        start + a + b + c + d == start + (a + b + c + d),
{
    assert(start + a + b + c + d =~= start + (a + b + c + d));
}

/// Six pieces appended one after the other amount to their concatenation
/// appended at once.
proof fn lemma_appended_six(
    start: Seq<char>,
    a: Seq<char>,
    b: Seq<char>,
    c: Seq<char>,
    d: Seq<char>,
    e: Seq<char>,
    f: Seq<char>,
)
    ensures
        start + a + b + c + d + e + f == start + (a + b + c + d + e + f),
{
    assert(start + a + b + c + d + e + f =~= start + (a + b + c + d + e + f));
}

/// Appends the lines that report one button's events.
fn write_button_lines(info: &mut String, events: &ButtonEvents, button: PointerButton)
    ensures
        final(info)@ == old(info)@ + button_lines(*events, button),
{
    let suffix = button_suffix(button);
    let by = suffix.as_str();
    write_line(info, events.triple_clicked, "Triple-clicked", by);
    write_line(info, events.double_clicked, "Double-clicked", by);
    write_line(info, events.clicked, "Clicked", by);
    write_line(info, events.drag_released, "Drag ended", by);
    write_line(info, events.dragged, "Dragged", by);
    write_line(info, events.drag_started, "Drag started", by);
    proof {
        lemma_appended_six(
            old(info)@,
            when(events.triple_clicked, line("Triple-clicked"@ + by@)),
            when(events.double_clicked, line("Double-clicked"@ + by@)),
            when(events.clicked, line("Clicked"@ + by@)),
            when(events.drag_released, line("Drag ended"@ + by@)),
            when(events.dragged, line("Dragged"@ + by@)),
            when(events.drag_started, line("Drag started"@ + by@)),
        );
    }
}

/// Appends the lines that report the hover state.
fn write_hover_lines(info: &mut String, response: &Interaction)
    ensures
        final(info)@ == old(info)@ + hover_lines(*response),
{
    write_line(info, response.hovered, "hovered", "");
    write_line(info, response.contains_pointer, "contains_pointer", "");
    write_line(info, response.pointer_down_on, "pointer_down_on", "");
    match &response.interact_pointer_pos {
        Some(pos) => write_line(info, true, "response.interact_pointer_pos: ", pos.as_str()),
        None => write_line(info, false, "", ""),
    }
    proof {
        reveal_strlit("");
        assert("hovered"@ + ""@ =~= "hovered"@);
        assert("contains_pointer"@ + ""@ =~= "contains_pointer"@);
        assert("pointer_down_on"@ + ""@ =~= "pointer_down_on"@);
        lemma_appended_four(
            old(info)@,
            when(response.hovered, line("hovered"@)),
            when(response.contains_pointer, line("contains_pointer"@)),
            when(response.pointer_down_on, line("pointer_down_on"@)),
            position_line(*response),
        );
    }
}

/// Summarises what the pointer did to a widget, one event per line.
///
/// With `show_hovers` the summary starts with the hover state. Then come the
/// events of each button, the primary button first; within a button the
/// latest stage of a gesture comes first.
pub fn response_summary(response: &Interaction, show_hovers: bool) -> (info: String)
    ensures
        info@ == summary(*response, show_hovers),
{
    let mut info = String::new();
    if show_hovers {
        write_hover_lines(&mut info, response);
    }
    assert(info@ =~= when(show_hovers, hover_lines(*response)));
    write_button_lines(&mut info, &response.primary, PointerButton::Primary);
    write_button_lines(&mut info, &response.secondary, PointerButton::Secondary);
    write_button_lines(&mut info, &response.middle, PointerButton::Middle);
    write_button_lines(&mut info, &response.extra1, PointerButton::Extra1);
    write_button_lines(&mut info, &response.extra2, PointerButton::Extra2);
    info
}

} // verus!
