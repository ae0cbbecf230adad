use theme_switch::geometry::{pos2, vec2, Rect};
use theme_switch::options::{Icon, SwitchOption};
use theme_switch::painting::{animate_active_indicator, draw_active_indicator, request_paint, Animation};
use theme_switch::response::{Id, Response};
use theme_switch::space_allocation::{
    allocate_space, allocate_switch, button_rects, can_allocate_switch, min_size, AllocatedSpace,
};
use theme_switch::style::{Color32, Spacing};
use theme_switch::theme::ThemePreference;
use theme_switch::widget::{switch, ThemeSwitch};

fn standard_spacing() -> Spacing {
    Spacing {
        interact_size: vec2(40, 18),
        button_padding: vec2(4, 1),
        item_spacing: vec2(8, 3),
    }
}

fn layout(
    options: Vec<SwitchOption<ThemePreference>>,
    clicked: Option<usize>,
) -> AllocatedSpace<ThemePreference> {
    let spacing = standard_spacing();
    let size = min_size(&spacing, options.len());
    let rect = Rect::from_min_max(pos2(0, 0), pos2(size.x as i32, size.y as i32));
    assert!(can_allocate_switch(&spacing, options.len(), rect));
    let measurements = allocate_switch(&spacing, options.len(), rect);
    let responses: Vec<Response> = button_rects(rect, &measurements)
        .iter()
        .enumerate()
        .map(|(n, _)| Response { clicked: clicked == Some(n), ..Response::idle(Id(10 + n as u64)) })
        .collect();
    allocate_space(rect, Response::idle(Id(1)), &measurements, options, &responses)
}

fn values(options: &[SwitchOption<ThemePreference>]) -> Vec<ThemePreference> {
    options.iter().map(|o| o.value).collect()
}

#[test]
fn theme_switch_offers_follow_system_by_default() {
    let mut preference = ThemePreference::Dark;
    let widget = ThemeSwitch::new(&mut preference);
    assert!(widget.show_follow_system);
    assert_eq!(*widget.value, ThemePreference::Dark);
}

#[test]
fn theme_switch_options_with_follow_system() {
    let mut preference = ThemePreference::Dark;
    let options = ThemeSwitch::new(&mut preference).options();
    assert_eq!(values(&options), vec![ThemePreference::System, ThemePreference::Dark, ThemePreference::Light]);
    let icons: Vec<Icon> = options.iter().map(|o| o.icon).collect();
    assert_eq!(icons, vec![Icon::Cogwheel, Icon::Moon, Icon::Sun]);
    let labels: Vec<&str> = options.iter().map(|o| o.label).collect();
    assert_eq!(labels, vec!["Follow System", "Dark", "Light"]);
}

#[test]
fn theme_switch_options_without_follow_system() {
    let mut preference = ThemePreference::Dark;
    let widget = ThemeSwitch::new(&mut preference).show_follow_system(false);
    assert!(!widget.show_follow_system);
    let options = widget.options();
    assert_eq!(values(&options), vec![ThemePreference::Dark, ThemePreference::Light]);
    let labels: Vec<&str> = options.iter().map(|o| o.label).collect();
    assert_eq!(labels, vec!["Dark", "Light"]);
    let widget = widget.show_follow_system(true);
    assert_eq!(widget.options().len(), 3);
}

#[test]
fn dark_of_three_is_shown_as_selected() {
    let mut preference = ThemePreference::Dark;
    let widget = ThemeSwitch::new(&mut preference);
    let space = layout(widget.options(), None);
    let dark_center = space.buttons[1].center;
    let frame = widget.ui(space, true);
    assert_eq!(frame.update, None);
    assert_eq!(frame.value, ThemePreference::Dark);
    assert!(!frame.response.changed);
    assert_eq!(frame.response, Response::idle(Id(1)));
    assert!(frame.space.buttons.iter().all(|b| !b.response.changed));
    let selected: Vec<bool> = frame.accessibility.buttons.iter().map(|b| b.info.selected).collect();
    assert_eq!(selected, vec![false, true, false]);
    assert_eq!(frame.accessibility.label, "Theme");
    assert_eq!(
        animate_active_indicator(&frame.space, &frame.value),
        Some(Animation { id: Id(1), target: 32 })
    );
    let fill = Color32 { r: 0, g: 0, b: 255, a: 255 };
    let circle = draw_active_indicator(&frame.space, &frame.value, fill, dark_center.x).unwrap();
    assert_eq!(circle.center, dark_center);
    assert_eq!(circle.center, pos2(32, 10));
    assert_eq!(preference, ThemePreference::Dark);
}

#[test]
fn click_on_light_selects_light() {
    let mut preference = ThemePreference::Dark;
    let widget = ThemeSwitch::new(&mut preference);
    let space = layout(widget.options(), Some(2));
    let frame = widget.ui(space, true);
    assert_eq!(frame.update, Some(ThemePreference::Light));
    assert!(frame.response.changed);
    assert_eq!(frame.value, ThemePreference::Light);
    let changed: Vec<bool> = frame.space.buttons.iter().map(|b| b.response.changed).collect();
    assert_eq!(changed, vec![false, false, true]);
    let selected: Vec<bool> = frame.accessibility.buttons.iter().map(|b| b.info.selected).collect();
    assert_eq!(selected, vec![false, false, true]);
    assert_eq!(preference, ThemePreference::Light);
}

#[test]
fn follow_system_hidden_leaves_two_buttons() {
    let spacing = standard_spacing();
    let mut preference = ThemePreference::Dark;
    let widget = ThemeSwitch::new(&mut preference).show_follow_system(false);
    let options = widget.options();
    assert_eq!(min_size(&spacing, options.len()), vec2(42, 20));
    assert_eq!(min_size(&spacing, 3), vec2(64, 20));
    let space = layout(options, None);
    assert_eq!(space.rect.width(), 42);
    assert_eq!(space.buttons.len(), 2);
    assert_eq!(space.buttons[0].rect, Rect::from_min_max(pos2(0, 0), pos2(21, 20)));
    assert_eq!(space.buttons[1].rect, Rect::from_min_max(pos2(21, 0), pos2(42, 20)));
    let frame = widget.ui(space, true);
    assert_eq!(frame.accessibility.buttons.len(), 2);
    assert_eq!(frame.accessibility.button_group, vec![10, 11]);
    let labels: Vec<&str> = frame.accessibility.buttons.iter().map(|b| b.info.label).collect();
    assert_eq!(labels, vec!["Dark", "Light"]);
    let selected: Vec<bool> = frame.accessibility.buttons.iter().map(|b| b.info.selected).collect();
    assert_eq!(selected, vec![true, false]);
}

#[test]
fn click_on_the_selected_option_leaves_the_frame_unchanged() {
    let mut preference = ThemePreference::Dark;
    let widget = ThemeSwitch::new(&mut preference);
    let space = layout(widget.options(), Some(1));
    let frame = widget.ui(space, true);
    assert_eq!(frame.update, None);
    assert!(!frame.response.changed);
    assert!(frame.space.buttons.iter().all(|b| !b.response.changed));
    assert_eq!(preference, ThemePreference::Dark);
}

#[test]
fn the_clicked_option_is_selected_in_the_next_frame() {
    let mut preference = ThemePreference::Dark;
    for clicked in [0usize, 2, 1, 0] {
        let before = preference;
        let widget = ThemeSwitch::new(&mut preference);
        let space = layout(widget.options(), Some(clicked));
        let clicked_value = space.buttons[clicked].option.value;
        let frame = widget.ui(space, true);
        assert_eq!(frame.update, if clicked_value == before { None } else { Some(clicked_value) });
        assert_eq!(preference, clicked_value);

        let widget = ThemeSwitch::new(&mut preference);
        let space = layout(widget.options(), None);
        let center = space.buttons[clicked].center;
        let frame = widget.ui(space, true);
        assert_eq!(frame.update, None);
        let request = request_paint(&frame.space, &frame.value);
        assert_eq!(request.indicator, Some(Animation { id: Id(1), target: center.x as i64 }));
        for (n, button) in frame.accessibility.buttons.iter().enumerate() {
            assert_eq!(button.info.selected, n == clicked);
            assert_eq!(request.buttons[n].selected, n == clicked);
        }
    }
}

#[test]
fn a_value_that_no_option_stands_for() {
    let mut preference = ThemePreference::System;
    let widget = ThemeSwitch::new(&mut preference).show_follow_system(false);
    let space = layout(widget.options(), None);
    let frame = widget.ui(space, true);
    assert_eq!(frame.update, None);
    assert_eq!(frame.value, ThemePreference::System);
    assert!(frame.accessibility.buttons.iter().all(|b| !b.info.selected));
    assert_eq!(animate_active_indicator(&frame.space, &frame.value), None);
    let fill = Color32 { r: 0, g: 0, b: 255, a: 255 };
    assert_eq!(draw_active_indicator(&frame.space, &frame.value, fill, 0), None);
    assert_eq!(preference, ThemePreference::System);
}

#[test]
fn the_export_has_one_radio_button_for_each_option() {
    for count in 0..6usize {
        let options: Vec<SwitchOption<u8>> =
            (0..count).map(|n| SwitchOption { value: n as u8, icon: Icon::Sun, label: "option" }).collect();
        let spacing = standard_spacing();
        let size = min_size(&spacing, count);
        let rect = Rect::from_min_max(pos2(0, 0), pos2(size.x as i32, size.y as i32));
        let measurements = allocate_switch(&spacing, count, rect);
        let responses: Vec<Response> = (0..count).map(|n| Response::idle(Id(50 + n as u64))).collect();
        let space = allocate_space(rect, Response::idle(Id(7)), &measurements, options, &responses);
        let frame = switch(space, 1u8, "Numbers", false);
        assert_eq!(frame.accessibility.buttons.len(), count);
        assert_eq!(frame.accessibility.button_group.len(), count);
        assert_eq!(frame.accessibility.group, Id(7));
        assert_eq!(frame.accessibility.bounds, rect);
        assert_eq!(frame.accessibility.label, "Numbers");
        for (n, button) in frame.accessibility.buttons.iter().enumerate() {
            assert_eq!(button.id, Id(50 + n as u64));
            assert_eq!(frame.accessibility.button_group[n], 50 + n as u64);
            assert_eq!(button.info.selected, n == 1);
            assert!(!button.info.enabled);
        }
    }
}

#[test]
fn switch_over_any_value_type() {
    let options = vec![
        SwitchOption { value: String::from("a"), icon: Icon::Sun, label: "A" },
        SwitchOption { value: String::from("b"), icon: Icon::Moon, label: "B" },
    ];
    let spacing = standard_spacing();
    let rect = Rect::from_min_max(pos2(0, 0), pos2(42, 20));
    let measurements = allocate_switch(&spacing, 2, rect);
    let responses = vec![Response::idle(Id(2)), Response { clicked: true, ..Response::idle(Id(3)) }];
    let space = allocate_space(rect, Response::idle(Id(1)), &measurements, options, &responses);
    let frame = switch(space, String::from("a"), "Letters", true);
    assert_eq!(frame.update, Some(String::from("b")));
    assert_eq!(frame.value, "b");
    assert!(frame.response.changed);
    assert!(frame.space.buttons[1].response.changed);
    assert!(!frame.space.response.changed);
}

#[test]
fn the_same_frame_twice_gives_the_same_result() {
    let frames: Vec<_> = (0..2)
        .map(|_| {
            let mut preference = ThemePreference::Dark;
            let widget = ThemeSwitch::new(&mut preference);
            let space = layout(widget.options(), Some(0));
            widget.ui(space, true)
        })
        .collect();
    let (first, second) = (&frames[0], &frames[1]);
    assert_eq!(first.update, second.update);
    assert_eq!(first.value, second.value);
    assert_eq!(first.response, second.response);
    assert_eq!(first.space.rect, second.space.rect);
    assert_eq!(first.accessibility.button_group, second.accessibility.button_group);
    for n in 0..3 {
        assert_eq!(first.space.buttons[n].rect, second.space.buttons[n].rect);
        assert_eq!(first.space.buttons[n].center, second.space.buttons[n].center);
        assert_eq!(first.space.buttons[n].response, second.space.buttons[n].response);
        assert_eq!(first.accessibility.buttons[n].id, second.accessibility.buttons[n].id);
        assert_eq!(
            first.accessibility.buttons[n].info.selected,
            second.accessibility.buttons[n].info.selected
        );
    }
    let requests: Vec<_> = frames.iter().map(|f| request_paint(&f.space, &f.value)).collect();
    assert_eq!(requests[0].indicator, requests[1].indicator);
    assert_eq!(requests[0].buttons, requests[1].buttons);
}
