use color_picker::{
    key_action, Action, ColorPicker, ColorSpaceCombo, ColorSpaceMessage, Message, Number, Task,
};

fn num(v: f32) -> Number {
    Number { bits: v.to_bits(), text: v.to_string() }
}

fn clipboard(task: Task) -> String {
    match task {
        Task::SetClipboard(text) => text,
        _ => panic!("expected a clipboard task"),
    }
}

/// A picker whose three cards are RGB, HSV and CMYK, in that order.
fn three_cards() -> ColorPicker {
    let mut p = ColorPicker::new();
    p.add();
    p.add();
    p.change_space(1, ColorSpaceCombo::Hsv, vec![num(0.0), num(0.0), num(1.0)]);
    p.change_space(2, ColorSpaceCombo::Cmyk, vec![num(0.0), num(0.0), num(0.0), num(0.0)]);
    p
}

#[test]
fn starts_with_one_white_card() {
    let p = ColorPicker::new();
    assert_eq!(p.spaces.len(), 1);
    assert_eq!(p.spaces[0].kind(), ColorSpaceCombo::Rgb);
    assert_eq!(p.last_edited, 0);
    assert!(!p.show_graphs);
    assert_eq!(p.clipboard_text_for(0), "1, 1, 1");
}

#[test]
fn remove_shifts_later_cards_down() {
    let mut p = three_cards();
    p.remove(0);
    assert_eq!(p.spaces.len(), 2);
    assert_eq!(p.spaces[0].kind(), ColorSpaceCombo::Hsv);
    assert_eq!(p.spaces[1].kind(), ColorSpaceCombo::Cmyk);
    assert_eq!(p.clipboard_text_for(0), "0, 0, 1");
}

#[test]
fn add_appends_white_card() {
    let mut p = three_cards();
    p.add();
    assert_eq!(p.spaces.len(), 4);
    assert_eq!(p.spaces[2].kind(), ColorSpaceCombo::Cmyk);
    assert_eq!(p.spaces[3].kind(), ColorSpaceCombo::Rgb);
    assert_eq!(p.clipboard_text_for(3), "1, 1, 1");
}

#[test]
fn change_space_replaces_only_that_card() {
    let mut p = three_cards();
    p.change_space(0, ColorSpaceCombo::Oklch, vec![num(1.0), num(0.0), num(90.0)]);
    assert_eq!(p.spaces[0].kind(), ColorSpaceCombo::Oklch);
    assert_eq!(p.spaces[0].channel(2).text, "90");
    assert_eq!(p.spaces[1].kind(), ColorSpaceCombo::Hsv);
    assert_eq!(p.spaces[2].kind(), ColorSpaceCombo::Cmyk);
}

#[test]
fn edit_marks_last_edited_card() {
    let mut p = three_cards();
    p.edit(2, ColorSpaceMessage::ChangeValue { index: 3, value: num(1.0) });
    assert_eq!(p.last_edited, 2);
    assert_eq!(p.clipboard_text_for(2), "0, 0, 0, 1");
    p.edit(1, ColorSpaceMessage::ChangeString { index: 0, string: "x".to_string(), parsed: None });
    assert_eq!(p.last_edited, 1);
    assert_eq!(p.spaces[1].channel(0).text, "x");
    assert_eq!(p.clipboard_text_for(1), "0, 0, 1");
}

#[test]
fn pick_response_rebuilds_matching_card() {
    let mut p = three_cards();
    assert!(p.pick_response(1, ColorSpaceCombo::Hsv, vec![num(120.0), num(1.0), num(1.0)]));
    assert_eq!(p.clipboard_text_for(1), "120, 1, 1");
    assert_eq!(p.spaces[1].channel(0).text, "120");
}

#[test]
fn stale_pick_response_is_dropped() {
    let mut p = three_cards();
    assert!(!p.pick_response(3, ColorSpaceCombo::Rgb, vec![num(0.0), num(0.0), num(0.0)]));
    assert!(!p.pick_response(0, ColorSpaceCombo::Hsv, vec![num(0.0), num(0.0), num(0.0)]));
    assert!(!p.pick_response(0, ColorSpaceCombo::Rgb, vec![num(0.0), num(0.0)]));
    assert_eq!(p.spaces.len(), 3);
    assert_eq!(p.clipboard_text_for(0), "1, 1, 1");
}

#[test]
fn update_routes_structural_messages() {
    let mut p = ColorPicker::new();
    assert!(matches!(p.update(Message::AddSpace), Task::Nothing));
    assert!(matches!(p.update(Message::AddSpace), Task::Nothing));
    assert_eq!(p.spaces.len(), 3);
    let t = p.update(Message::ChangeColorSpace {
        index: 2,
        selected: ColorSpaceCombo::Cmyk,
        values: vec![num(0.0), num(0.0), num(0.0), num(0.0)],
    });
    assert!(matches!(t, Task::Nothing));
    p.update(Message::RemoveSpace(0));
    assert_eq!(p.spaces.len(), 2);
    assert_eq!(p.spaces[1].kind(), ColorSpaceCombo::Cmyk);
    assert!(matches!(p.update(Message::Nothing), Task::Nothing));
}

#[test]
fn update_toggles_and_outside_work() {
    let mut p = ColorPicker::new();
    p.update(Message::ToggleGraphs);
    assert!(p.show_graphs);
    p.update(Message::ToggleAboutPage);
    assert!(p.show_about);
    assert!(matches!(p.update(Message::PickScreenRequest(0)), Task::PickScreen(0)));
    match p.update(Message::LaunchUrl("https://example.org".to_string())) {
        Task::LaunchUrl(url) => assert_eq!(url, "https://example.org"),
        _ => panic!("expected a launch task"),
    }
    assert_eq!(clipboard(p.update(Message::CopyToClipboard(0))), "1, 1, 1");
}

#[test]
fn update_edits_and_picks() {
    let mut p = ColorPicker::new();
    p.update(Message::AddSpace);
    p.update(Message::ColorSpace {
        index: 1,
        message: ColorSpaceMessage::ChangeValue { index: 0, value: num(0.5) },
    });
    assert_eq!(p.last_edited, 1);
    assert_eq!(p.clipboard_text_for(1), "0.5, 1, 1");
    p.update(Message::PickScreenResponse {
        index: 0,
        kind: ColorSpaceCombo::Rgb,
        values: vec![num(0.25), num(0.5), num(0.75)],
    });
    assert_eq!(p.clipboard_text_for(0), "0.25, 0.5, 0.75");
    p.update(Message::PickScreenResponse {
        index: 5,
        kind: ColorSpaceCombo::Rgb,
        values: vec![num(0.0), num(0.0), num(0.0)],
    });
    assert_eq!(p.spaces.len(), 2);
}

#[test]
fn shortcuts() {
    let mut p = ColorPicker::new();
    p.update(Message::AddSpace);
    p.update(Message::ColorSpace {
        index: 1,
        message: ColorSpaceMessage::ChangeValue { index: 2, value: num(0.0) },
    });
    assert_eq!(
        clipboard(p.update(Message::Key { character: 'c', ctrl: true })),
        "1, 1, 0"
    );
    assert!(matches!(p.update(Message::Key { character: 'c', ctrl: false }), Task::Nothing));
    p.update(Message::Key { character: 'g', ctrl: true });
    assert!(p.show_graphs);
    p.update(Message::Key { character: 'g', ctrl: false });
    assert!(p.show_graphs);
    p.update(Message::RemoveSpace(1));
    assert!(matches!(p.update(Message::Key { character: 'c', ctrl: true }), Task::Nothing));
}

#[test]
fn actions_and_bindings() {
    assert!(matches!(Action::ToggleGraphs.message(), Message::ToggleGraphs));
    assert!(matches!(Action::About.message(), Message::ToggleAboutPage));
    assert_eq!(key_action('g', true), Some(Action::ToggleGraphs));
    assert_eq!(key_action('g', false), None);
    assert_eq!(key_action('h', true), None);
}

#[test]
fn can_take_checks_indices() {
    let p = ColorPicker::new();
    assert!(p.can_take(&Message::RemoveSpace(0)));
    assert!(!p.can_take(&Message::RemoveSpace(1)));
    assert!(p.can_take(&Message::CopyToClipboard(0)));
    assert!(!p.can_take(&Message::CopyToClipboard(3)));
    assert!(p.can_take(&Message::ColorSpace {
        index: 0,
        message: ColorSpaceMessage::ChangeValue { index: 2, value: num(0.0) },
    }));
    assert!(!p.can_take(&Message::ColorSpace {
        index: 0,
        message: ColorSpaceMessage::ChangeString { index: 3, string: "1".to_string(), parsed: None },
    }));
    assert!(!p.can_take(&Message::ColorSpace {
        index: 1,
        message: ColorSpaceMessage::ChangeValue { index: 0, value: num(0.0) },
    }));
    assert!(p.can_take(&Message::ChangeColorSpace {
        index: 0,
        selected: ColorSpaceCombo::Cmyk,
        values: vec![num(0.0), num(0.0), num(0.0), num(0.0)],
    }));
    assert!(!p.can_take(&Message::ChangeColorSpace {
        index: 0,
        selected: ColorSpaceCombo::Cmyk,
        values: vec![num(0.0), num(0.0), num(0.0)],
    }));
    assert!(p.can_take(&Message::PickScreenResponse {
        index: 9,
        kind: ColorSpaceCombo::Rgb,
        values: vec![],
    }));
    assert!(p.can_take(&Message::AddSpace));
}

#[test]
fn selector_order() {
    assert_eq!(
        ColorSpaceCombo::all(),
        vec![
            ColorSpaceCombo::Rgb,
            ColorSpaceCombo::Hsv,
            ColorSpaceCombo::Oklab,
            ColorSpaceCombo::Oklch,
            ColorSpaceCombo::Cmyk,
        ]
    );
}
