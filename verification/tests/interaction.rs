use theme_switch::geometry::{pos2, Rect};
use theme_switch::interactivity::update_value_on_click;
use theme_switch::options::{Icon, SwitchOption};
use theme_switch::response::{Id, Response};
use theme_switch::space_allocation::{AllocatedSpace, ButtonSpace};
use theme_switch::theme::ThemePreference;

fn button(value: ThemePreference, id: u64, clicked: bool) -> ButtonSpace<ThemePreference> {
    ButtonSpace {
        rect: Rect::from_min_max(pos2(0, 0), pos2(20, 20)),
        center: pos2(10, 10),
        response: Response { clicked, ..Response::idle(Id(id)) },
        radius: 9,
        option: SwitchOption { value, icon: Icon::Sun, label: "option" },
    }
}

fn space(clicked: [bool; 3]) -> AllocatedSpace<ThemePreference> {
    AllocatedSpace {
        response: Response::idle(Id(1)),
        rect: Rect::from_min_max(pos2(0, 0), pos2(64, 20)),
        buttons: vec![
            button(ThemePreference::System, 2, clicked[0]),
            button(ThemePreference::Dark, 3, clicked[1]),
            button(ThemePreference::Light, 4, clicked[2]),
        ],
        radius: 9,
    }
}

fn changed_flags(space: &AllocatedSpace<ThemePreference>) -> Vec<bool> {
    space.buttons.iter().map(|b| b.response.changed).collect()
}

#[test]
fn response_idle_has_no_flag() {
    let r = Response::idle(Id(7));
    assert_eq!(r.id, Id(7));
    assert!(!r.clicked() && !r.hovered() && !r.has_focus());
    assert!(!r.is_pointer_button_down_on() && !r.changed());
    assert_eq!(Id(7).accesskit_id(), 7);
}

#[test]
fn response_getters_read_their_flags() {
    let idle = Response::idle(Id(7));
    assert!(Response { clicked: true, ..idle }.clicked());
    assert!(Response { hovered: true, ..idle }.hovered());
    assert!(Response { focused: true, ..idle }.has_focus());
    assert!(Response { pointer_down_on: true, ..idle }.is_pointer_button_down_on());
    assert!(Response { changed: true, ..idle }.changed());
}

#[test]
fn mark_changed_raises_only_the_changed_flag() {
    let mut r = Response { hovered: true, ..Response::idle(Id(7)) };
    r.mark_changed();
    assert_eq!(r, Response { hovered: true, changed: true, ..Response::idle(Id(7)) });
    r.mark_changed();
    assert_eq!(r, Response { hovered: true, changed: true, ..Response::idle(Id(7)) });
}

#[test]
fn no_click_no_update() {
    let mut s = space([false, false, false]);
    assert_eq!(update_value_on_click(&mut s, &ThemePreference::Dark), None);
    assert_eq!(changed_flags(&s), vec![false, false, false]);
}

#[test]
fn click_on_another_option_returns_its_value() {
    let mut s = space([false, false, true]);
    assert_eq!(update_value_on_click(&mut s, &ThemePreference::Dark), Some(ThemePreference::Light));
    assert_eq!(changed_flags(&s), vec![false, false, true]);
    assert_eq!(s.buttons[2].response, Response { clicked: true, changed: true, ..Response::idle(Id(4)) });
    assert_eq!(s.response, Response::idle(Id(1)));
}

#[test]
fn click_on_the_selected_option_changes_nothing() {
    let mut s = space([false, true, false]);
    assert_eq!(update_value_on_click(&mut s, &ThemePreference::Dark), None);
    assert_eq!(changed_flags(&s), vec![false, false, false]);
}

#[test]
fn the_first_click_on_another_option_wins() {
    let mut s = space([true, false, true]);
    assert_eq!(update_value_on_click(&mut s, &ThemePreference::Dark), Some(ThemePreference::System));
    assert_eq!(changed_flags(&s), vec![true, false, false]);
}

#[test]
fn a_click_on_the_selected_option_does_not_hide_a_later_click() {
    let mut s = space([false, true, true]);
    assert_eq!(update_value_on_click(&mut s, &ThemePreference::Dark), Some(ThemePreference::Light));
    assert_eq!(changed_flags(&s), vec![false, false, true]);
}

#[test]
fn click_while_the_value_matches_no_option() {
    let mut s = space([false, false, true]);
    s.buttons.remove(0);
    assert_eq!(update_value_on_click(&mut s, &ThemePreference::System), Some(ThemePreference::Light));
    assert_eq!(changed_flags(&s), vec![false, true]);
}

#[test]
fn click_in_a_switch_without_buttons() {
    let mut s = space([true, true, true]);
    s.buttons.clear();
    assert_eq!(update_value_on_click(&mut s, &ThemePreference::Dark), None);
}
