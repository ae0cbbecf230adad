//! The two themes, and the user's choice among them.
use vstd::prelude::*;

use crate::response::Response;

verus! {

/// Dark or light theme.
#[derive(Clone, Copy, Debug, Eq, Hash)]
pub enum Theme {
    /// Dark mode: light text on a dark background.
    Dark,
    /// Light mode: dark text on a light background.
    Light,
}

/// The user's theme preference.
#[derive(Clone, Copy, Debug, Eq, Hash)]
pub enum ThemePreference {
    /// Dark mode: light text on a dark background.
    Dark,
    /// Light mode: dark text on a light background.
    Light,
    /// Follow the system's theme preference.
    System,
}

/// The toolkit's visual style, as far as a theme decides it.
#[derive(Clone, Copy, Debug, PartialEq, Eq, Structural, Hash)]
pub struct Visuals {
    /// Whether the style draws light content on a dark background.
    pub dark_mode: bool,
}

/// Which of the three theme labels were clicked in the current frame.
#[derive(Clone, Copy, Debug, PartialEq, Eq, Structural, Hash)]
pub struct ThemeClicks {
    /// The label "Follow System" was clicked.
    pub system: bool,
    /// The label "Dark" was clicked.
    pub dark: bool,
    /// The label "Light" was clicked.
    pub light: bool,
}

impl PartialEq for Theme {
    fn eq(&self, other: &Self) -> (r: bool) {
        match (*self, *other) {
            (Theme::Dark, Theme::Dark) => true,
            (Theme::Light, Theme::Light) => true,
            _ => false,
        }
    }
}

impl vstd::std_specs::cmp::PartialEqSpecImpl for Theme {
    open spec fn obeys_eq_spec() -> bool {
        true
    }

    open spec fn eq_spec(&self, other: &Self) -> bool {
        *self == *other
    }
}

impl PartialEq for ThemePreference {
    fn eq(&self, other: &Self) -> (r: bool) {
        match (*self, *other) {
            (ThemePreference::Dark, ThemePreference::Dark) => true,
            (ThemePreference::Light, ThemePreference::Light) => true,
            (ThemePreference::System, ThemePreference::System) => true,
            _ => false,
        }
    }
}

impl vstd::std_specs::cmp::PartialEqSpecImpl for ThemePreference {
    open spec fn obeys_eq_spec() -> bool {
        true
    }

    open spec fn eq_spec(&self, other: &Self) -> bool {
        *self == *other
    }
}

impl From<Theme> for ThemePreference {
    fn from(value: Theme) -> (preference: Self) {
        match value {
            Theme::Dark => ThemePreference::Dark,
            Theme::Light => ThemePreference::Light,
        }
    }
}

impl vstd::std_specs::convert::FromSpecImpl<Theme> for ThemePreference {
    open spec fn obeys_from_spec() -> bool {
        true
    }

    open spec fn from_spec(value: Theme) -> Self {
        match value {
            Theme::Dark => ThemePreference::Dark,
            Theme::Light => ThemePreference::Light,
        }
    }
}

impl Visuals {
    /// The style for dark mode.
    pub fn dark() -> (v: Visuals)
        ensures
            v.dark_mode,
    {
        Visuals { dark_mode: true }
    }

    /// The style for light mode.
    pub fn light() -> (v: Visuals)
        ensures
            !v.dark_mode,
    {
        Visuals { dark_mode: false }
    }
}

impl Theme {
    /// The visual style that belongs to this theme.
    pub fn egui_visuals(self) -> (v: Visuals)
        ensures
            v.dark_mode == (self == Theme::Dark),
    {
        match self {
            Theme::Dark => Visuals::dark(),
            Theme::Light => Visuals::light(),
        }
    }
}

/// The value after one selectable label: the label's own preference where the
/// label was clicked, the value as it was where not.
pub open spec fn after_click(
    current: ThemePreference,
    option: ThemePreference,
    clicked: bool,
) -> ThemePreference {
    if clicked {
        option
    } else {
        current
    }
}

/// The value after the labels "Follow System", "Dark" and "Light", in this
/// order.
pub open spec fn after_clicks(current: ThemePreference, clicks: ThemeClicks) -> ThemePreference {
    after_click(
        after_click(
            after_click(current, ThemePreference::System, clicks.system),
            ThemePreference::Dark,
            clicks.dark,
        ),
        ThemePreference::Light,
        clicks.light,
    )
}

/// Whether one of the three labels changed the value: whether a label was
/// clicked while the value was another than the label's own.
pub open spec fn clicks_change(current: ThemePreference, clicks: ThemeClicks) -> bool {
    let after_system = after_click(current, ThemePreference::System, clicks.system);
    let after_dark = after_click(after_system, ThemePreference::Dark, clicks.dark);
    ||| clicks.system && current != ThemePreference::System
    ||| clicks.dark && after_system != ThemePreference::Dark
    ||| clicks.light && after_dark != ThemePreference::Light
}

impl ThemePreference {
    /// One selectable label: a click on it selects `option`. Tells whether
    /// that changed the value.
    pub fn selectable_value(&mut self, option: ThemePreference, clicked: bool) -> (changed: bool)
        ensures
            *final(self) == after_click(*old(self), option, clicked),
            changed == (clicked && *old(self) != option),
    {
        if clicked && *self != option {
            *self = option;
            true
        } else {
            false
        }
    }

    /// Three selectable labels to switch between follow system, dark and
    /// light. Tells whether one of them changed the value.
    pub fn radio_buttons_impl(&mut self, clicks: &ThemeClicks) -> (changed: bool)
        ensures
            *final(self) == after_clicks(*old(self), *clicks),
            changed == clicks_change(*old(self), *clicks),
    {
        let system = self.selectable_value(ThemePreference::System, clicks.system);
        let dark = self.selectable_value(ThemePreference::Dark, clicks.dark);
        let light = self.selectable_value(ThemePreference::Light, clicks.light);
        system || dark || light
    }

    /// Radio buttons to switch between dark, light and follow system.
    ///
    /// `response` is what the toolkit reports about the row of labels; it is
    /// returned, marked as changed where a click changed the value.
    pub fn radio_buttons(&mut self, clicks: &ThemeClicks, response: Response) -> (row: Response)
        ensures
            *final(self) == after_clicks(*old(self), *clicks),
            row == (if clicks_change(*old(self), *clicks) {
                response.marked_changed()
            } else {
                response
            }),
    {
        let mut response = response;
        if self.radio_buttons_impl(clicks) {
            response.mark_changed();
        }
        response
    }

    /// A combo box to switch between dark, light and follow system.
    ///
    /// `clicks` is there while the box is open and shows its labels.
    /// `response` is what the toolkit reports about the box; it is returned,
    /// marked as changed where a click changed the value.
    pub fn small_combo_box(&mut self, clicks: Option<ThemeClicks>, response: Response) -> (combo:
        Response)
        ensures
            *final(self) == (match clicks {
                Some(open) => after_clicks(*old(self), open),
                None => *old(self),
            }),
            combo == (if clicks matches Some(open) && clicks_change(*old(self), open) {
                response.marked_changed()
            } else {
                response
            }),
    {
        let mut response = response;
        let changed = match clicks {
            Some(open) => self.radio_buttons_impl(&open),
            None => false,
        };
        if changed {
            response.mark_changed();
        }
        response
    }
}

/// The glyph that stands for `preference`.
pub open spec fn icon_text(preference: ThemePreference) -> Seq<char> {
    match preference {
        ThemePreference::Dark => "🌙"@,
        ThemePreference::Light => "☀"@,
        ThemePreference::System => "✨"@,
    }
}

/// The glyph and the name of `preference`.
pub open spec fn label_text(preference: ThemePreference) -> Seq<char> {
    match preference {
        ThemePreference::Dark => "🌙 Dark"@,
        ThemePreference::Light => "☀ Light"@,
        ThemePreference::System => "✨ Follow System"@,
    }
}

/// The text on a combo box that shows `preference`.
pub fn icon(preference: ThemePreference) -> (text: &'static str)
    ensures
        text@ == icon_text(preference),
{
    match preference {
        ThemePreference::Dark => "🌙",
        ThemePreference::Light => "☀",
        ThemePreference::System => "✨",
    }
}

/// The text on the selectable label of `preference`.
pub fn label(preference: ThemePreference) -> (text: &'static str)
    ensures
        text@ == label_text(preference),
{
    match preference {
        ThemePreference::Dark => "🌙 Dark",
        ThemePreference::Light => "☀ Light",
        ThemePreference::System => "✨ Follow System",
    }
}

} // verus!
