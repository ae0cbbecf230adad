use accesskit::{NodeBuilder, NodeId, Role};
use theme_switch::accessibility::{
    attach_widget_info, attach_widget_info_to_button, button_group, button_widget_info,
    configure_accesskit_radio_button, configure_accesskit_radio_group, WidgetInfo, WidgetType,
};
use theme_switch::geometry::{pos2, Rect};
use theme_switch::options::{Icon, SwitchOption};
use theme_switch::response::{Id, Response};
use theme_switch::space_allocation::{AllocatedSpace, ButtonSpace};
use theme_switch::theme::ThemePreference;

fn button(value: ThemePreference, label: &'static str, id: u64) -> ButtonSpace<ThemePreference> {
    ButtonSpace {
        rect: Rect::from_min_max(pos2(0, 0), pos2(20, 20)),
        center: pos2(10, 10),
        response: Response::idle(Id(id)),
        radius: 9,
        option: SwitchOption { value, icon: Icon::Sun, label },
    }
}

fn space() -> AllocatedSpace<ThemePreference> {
    AllocatedSpace {
        response: Response::idle(Id(1)),
        rect: Rect::from_min_max(pos2(3, 5), pos2(67, 25)),
        buttons: vec![
            button(ThemePreference::System, "Follow System", 20),
            button(ThemePreference::Dark, "Dark", 30),
            button(ThemePreference::Light, "Light", 40),
        ],
        radius: 9,
    }
}

#[test]
fn button_group_lists_the_ids_in_order() {
    assert_eq!(button_group(&space()), vec![20, 30, 40]);
    let mut empty = space();
    empty.buttons.clear();
    assert_eq!(button_group(&empty), Vec::<u64>::new());
}

#[test]
fn widget_info_of_a_radio_button() {
    let info = button_widget_info(true, "Dark", false);
    assert_eq!(info.typ, WidgetType::RadioButton);
    assert!(info.enabled);
    assert!(!info.selected);
    assert_eq!(info.label, "Dark");
    let info = button_widget_info(false, "Light", true);
    assert!(!info.enabled);
    assert!(info.selected);
}

#[test]
fn one_button_is_exported_under_its_label() {
    let exported = attach_widget_info_to_button(&button(ThemePreference::Dark, "Dark", 30), true, true);
    assert_eq!(exported.id, Id(30));
    assert_eq!(exported.hover_text, "Dark");
    assert_eq!(exported.info.typ, WidgetType::RadioButton);
    assert_eq!(exported.info.label, "Dark");
    assert!(exported.info.selected);
    assert!(exported.info.enabled);
}

#[test]
fn the_switch_is_exported_as_a_group_of_its_buttons() {
    let s = space();
    let exported = attach_widget_info(&s, "Theme", &ThemePreference::Dark, true);
    assert_eq!(exported.group, Id(1));
    assert_eq!(exported.bounds, s.rect);
    assert_eq!(exported.label, "Theme");
    assert_eq!(exported.button_group, vec![20, 30, 40]);
    assert_eq!(exported.buttons.len(), s.buttons.len());
    let ids: Vec<Id> = exported.buttons.iter().map(|b| b.id).collect();
    assert_eq!(ids, vec![Id(20), Id(30), Id(40)]);
    let selected: Vec<bool> = exported.buttons.iter().map(|b| b.info.selected).collect();
    assert_eq!(selected, vec![false, true, false]);
    let labels: Vec<&str> = exported.buttons.iter().map(|b| b.info.label).collect();
    assert_eq!(labels, vec!["Follow System", "Dark", "Light"]);
    let hover: Vec<&str> = exported.buttons.iter().map(|b| b.hover_text).collect();
    assert_eq!(hover, labels);
    assert!(exported.buttons.iter().all(|b| b.info.enabled && b.info.typ == WidgetType::RadioButton));
}

#[test]
fn no_button_is_selected_where_the_value_matches_none() {
    let mut s = space();
    s.buttons.remove(0);
    let exported = attach_widget_info(&s, "Theme", &ThemePreference::System, false);
    assert_eq!(exported.buttons.len(), 2);
    assert!(exported.buttons.iter().all(|b| !b.info.selected && !b.info.enabled));
    assert_eq!(exported.button_group, vec![30, 40]);
}

#[test]
fn every_button_of_the_same_value_is_selected() {
    let mut s = space();
    s.buttons[2].option.value = ThemePreference::Dark;
    let exported = attach_widget_info(&s, "Theme", &ThemePreference::Dark, true);
    let selected: Vec<bool> = exported.buttons.iter().map(|b| b.info.selected).collect();
    assert_eq!(selected, vec![false, true, true]);
}

#[test]
fn radio_group_node_gets_role_bounds_and_name() {
    let mut builder = NodeBuilder::new(Role::Unknown);
    builder.set_selected(true);
    configure_accesskit_radio_group(&mut builder, Rect::from_min_max(pos2(3, -5), pos2(67, 25)), "Theme");
    assert_eq!(builder.role(), Role::RadioGroup);
    assert_eq!(builder.name(), Some("Theme"));
    let bounds = builder.bounds().unwrap();
    assert_eq!(bounds.x0, 3.0);
    assert_eq!(bounds.y0, -5.0);
    assert_eq!(bounds.x1, 67.0);
    assert_eq!(bounds.y1, 25.0);
    assert_eq!(builder.is_selected(), Some(true));
    assert!(builder.radio_group().is_empty());
}

#[test]
fn radio_group_node_at_the_corners_of_the_grid() {
    let mut builder = NodeBuilder::new(Role::Unknown);
    configure_accesskit_radio_group(
        &mut builder,
        Rect::from_min_max(pos2(i32::MIN, i32::MIN), pos2(i32::MAX, i32::MAX)),
        "",
    );
    let bounds = builder.bounds().unwrap();
    assert_eq!(bounds.x0, -2147483648.0);
    assert_eq!(bounds.y1, 2147483647.0);
    assert_eq!(builder.name(), Some(""));
}

#[test]
fn radio_button_node_gets_role_name_state_and_group() {
    let info = WidgetInfo { typ: WidgetType::RadioButton, enabled: true, selected: true, label: "Dark" };
    let mut builder = NodeBuilder::new(Role::Unknown);
    configure_accesskit_radio_button(&mut builder, &info, &vec![20, 30, 40]);
    assert_eq!(builder.role(), Role::RadioButton);
    assert_eq!(builder.name(), Some("Dark"));
    assert_eq!(builder.is_selected(), Some(true));
    assert_eq!(builder.radio_group(), &[NodeId(20), NodeId(30), NodeId(40)]);
    assert!(builder.bounds().is_none());
}

#[test]
fn radio_button_node_is_overwritten_in_the_next_frame() {
    let mut builder = NodeBuilder::new(Role::RadioGroup);
    let dark = WidgetInfo { typ: WidgetType::RadioButton, enabled: true, selected: true, label: "Dark" };
    configure_accesskit_radio_button(&mut builder, &dark, &vec![20, 30, 40]);
    let light = WidgetInfo { typ: WidgetType::RadioButton, enabled: true, selected: false, label: "Light" };
    configure_accesskit_radio_button(&mut builder, &light, &vec![30, 40]);
    assert_eq!(builder.role(), Role::RadioButton);
    assert_eq!(builder.name(), Some("Light"));
    assert_eq!(builder.is_selected(), Some(false));
    assert_eq!(builder.radio_group(), &[NodeId(30), NodeId(40)]);
}

#[test]
fn the_nodes_of_a_switch_match_its_buttons() {
    let s = space();
    let exported = attach_widget_info(&s, "Theme", &ThemePreference::Light, true);
    let mut group = NodeBuilder::new(Role::Unknown);
    configure_accesskit_radio_group(&mut group, exported.bounds, exported.label);
    assert_eq!(group.role(), Role::RadioGroup);
    let mut radio_buttons = 0;
    for (n, button) in exported.buttons.iter().enumerate() {
        let mut node = NodeBuilder::new(Role::Unknown);
        configure_accesskit_radio_button(&mut node, &button.info, &exported.button_group);
        assert_eq!(node.role(), Role::RadioButton);
        assert_eq!(node.name(), Some(s.buttons[n].option.label));
        assert_eq!(node.is_selected(), Some(n == 2));
        assert_eq!(node.radio_group().len(), 3);
        assert_eq!(node.radio_group()[n], NodeId(button.id.accesskit_id()));
        radio_buttons += 1;
    }
    assert_eq!(radio_buttons, s.buttons.len());
}
