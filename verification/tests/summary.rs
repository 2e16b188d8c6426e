use demo_panels::summary::{response_summary, ButtonEvents, Interaction, PointerButton};

fn all_events() -> ButtonEvents {
    ButtonEvents {
        triple_clicked: true,
        double_clicked: true,
        clicked: true,
        drag_released: true,
        dragged: true,
        drag_started: true,
    }
}

#[test]
fn nothing_happened() {
    let response = Interaction::default();
    assert_eq!(response_summary(&response, false), "");
    assert_eq!(response_summary(&response, true), "");
}

#[test]
fn hover_state_is_shown_on_request_only() {
    let response = Interaction {
        hovered: true,
        contains_pointer: true,
        pointer_down_on: true,
        interact_pointer_pos: Some("[10.0 20.5]".to_owned()),
        ..Interaction::default()
    };
    assert_eq!(response_summary(&response, false), "");
    assert_eq!(
        response_summary(&response, true),
        "hovered\ncontains_pointer\npointer_down_on\nresponse.interact_pointer_pos: [10.0 20.5]\n"
    );
}

#[test]
fn each_hover_line_stands_alone() {
    let hovered = Interaction { hovered: true, ..Interaction::default() };
    assert_eq!(response_summary(&hovered, true), "hovered\n");
    let contains = Interaction { contains_pointer: true, ..Interaction::default() };
    assert_eq!(response_summary(&contains, true), "contains_pointer\n");
    let down = Interaction { pointer_down_on: true, ..Interaction::default() };
    assert_eq!(response_summary(&down, true), "pointer_down_on\n");
    let at = Interaction { interact_pointer_pos: Some(String::new()), ..Interaction::default() };
    assert_eq!(response_summary(&at, true), "response.interact_pointer_pos: \n");
}

#[test]
fn primary_button_is_not_named() {
    let response = Interaction { primary: all_events(), ..Interaction::default() };
    assert_eq!(
        response_summary(&response, false),
        "Triple-clicked\nDouble-clicked\nClicked\nDrag ended\nDragged\nDrag started\n"
    );
}

#[test]
fn other_buttons_are_named() {
    let response = Interaction { secondary: all_events(), ..Interaction::default() };
    assert_eq!(
        response_summary(&response, false),
        "Triple-clicked by Secondary button\n\
         Double-clicked by Secondary button\n\
         Clicked by Secondary button\n\
         Drag ended by Secondary button\n\
         Dragged by Secondary button\n\
         Drag started by Secondary button\n"
    );
}

#[test]
fn buttons_come_in_order() {
    let clicked = ButtonEvents { clicked: true, ..ButtonEvents::default() };
    let response = Interaction {
        primary: clicked,
        secondary: clicked,
        middle: clicked,
        extra1: clicked,
        extra2: clicked,
        ..Interaction::default()
    };
    assert_eq!(
        response_summary(&response, false),
        "Clicked\n\
         Clicked by Secondary button\n\
         Clicked by Middle button\n\
         Clicked by Extra1 button\n\
         Clicked by Extra2 button\n"
    );
}

#[test]
fn hover_lines_come_before_button_lines() {
    let response = Interaction {
        hovered: true,
        primary: ButtonEvents { dragged: true, ..ButtonEvents::default() },
        extra2: ButtonEvents { drag_released: true, ..ButtonEvents::default() },
        ..Interaction::default()
    };
    assert_eq!(
        response_summary(&response, true),
        "hovered\nDragged\nDrag ended by Extra2 button\n"
    );
    assert_eq!(response_summary(&response, false), "Dragged\nDrag ended by Extra2 button\n");
}

#[test]
fn every_event_of_every_button() {
    let response = Interaction {
        hovered: true,
        contains_pointer: true,
        pointer_down_on: true,
        interact_pointer_pos: Some("[1.0 2.0]".to_owned()),
        primary: all_events(),
        secondary: all_events(),
        middle: all_events(),
        extra1: all_events(),
        extra2: all_events(),
    };
    let mut expected = String::from(
        "hovered\ncontains_pointer\npointer_down_on\nresponse.interact_pointer_pos: [1.0 2.0]\n",
    );
    for suffix in
        ["", " by Secondary button", " by Middle button", " by Extra1 button", " by Extra2 button"]
    {
        for event in
            ["Triple-clicked", "Double-clicked", "Clicked", "Drag ended", "Dragged", "Drag started"]
        {
            expected += &format!("{event}{suffix}\n");
        }
    }
    assert_eq!(response_summary(&response, true), expected);
    assert_eq!(response_summary(&response, true).lines().count(), 34);
}

#[test]
fn button_names() {
    assert_eq!(PointerButton::Primary.name(), "Primary");
    assert_eq!(PointerButton::Secondary.name(), "Secondary");
    assert_eq!(PointerButton::Middle.name(), "Middle");
    assert_eq!(PointerButton::Extra1.name(), "Extra1");
    assert_eq!(PointerButton::Extra2.name(), "Extra2");
}

#[test]
fn button_names_are_those_of_the_toolkit() {
    let pairs = [
        (PointerButton::Primary, egui::PointerButton::Primary),
        (PointerButton::Secondary, egui::PointerButton::Secondary),
        (PointerButton::Middle, egui::PointerButton::Middle),
        (PointerButton::Extra1, egui::PointerButton::Extra1),
        (PointerButton::Extra2, egui::PointerButton::Extra2),
    ];
    for (ours, theirs) in pairs {
        assert_eq!(ours.name(), format!("{theirs:?}"));
        assert_eq!(format!("{ours:?}"), format!("{theirs:?}"));
    }
}
