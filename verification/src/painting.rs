//! Drawing the switch: the track, the indicator of the selected option, and
//! the buttons.
//!
//! Positions and sizes that move are eased by the toolkit. The library says
//! which value to ease and towards what ([`Animation`]), and draws with what
//! the toolkit hands back, whatever it is.
use vstd::prelude::*;
use vstd::std_specs::cmp::PartialEqSpec;

use crate::geometry::{Pos2, Rect};
use crate::options::Icon;
use crate::response::{Id, Response};
use crate::search::{first_where, lemma_first_from_skips};
use crate::space_allocation::{AllocatedSpace, ButtonSpace};
use crate::style::{Color32, Stroke, SwitchVisuals, WidgetVisuals};

verus! {

/// The animation factor of a button at rest, in thousandths.
pub const FACTOR_RELEASED: u32 = 1000;

/// The animation factor of a button that is held down, in thousandths.
pub const FACTOR_PRESSED: u32 = 900;

/// A value that the toolkit eases over its animation time: whose it is, and
/// what it moves towards.
#[derive(Clone, Copy, Debug, PartialEq, Eq, Structural, Hash)]
pub struct Animation {
    pub id: Id,
    pub target: i64,
}

/// A filled rectangle with rounded corners.
#[derive(Clone, Copy, Debug, PartialEq, Eq, Structural, Hash)]
pub struct RectShape {
    pub rect: Rect,
    pub rounding: u32,
    pub fill: Color32,
    pub stroke: Stroke,
}

/// A filled circle.
#[derive(Clone, Copy, Debug, PartialEq, Eq, Structural, Hash)]
pub struct CircleShape {
    pub center: Pos2,
    pub radius: u64,
    pub fill: Color32,
    pub stroke: Stroke,
}

/// A glyph, drawn to fit a circle.
#[derive(Clone, Copy, Debug, PartialEq, Eq, Structural, Hash)]
pub struct IconShape {
    pub icon: Icon,
    pub center: Pos2,
    pub radius: u64,
    pub color: Color32,
}

/// What is drawn for one button: its circle, and its glyph on top.
#[derive(Clone, Copy, Debug, PartialEq, Eq, Structural, Hash)]
pub struct ButtonShapes {
    pub circle: CircleShape,
    pub icon: IconShape,
}

/// What the toolkit supplies for drawing one button.
#[derive(Clone, Copy, Debug, PartialEq, Eq, Structural, Hash)]
pub struct ButtonPaint {
    /// The looks of a selectable widget in the button's state.
    pub visuals: WidgetVisuals,
    /// The eased animation factor of the button, in thousandths.
    pub animation_factor: u32,
}

/// What the toolkit is asked for before one button is drawn.
#[derive(Clone, Copy, Debug, PartialEq, Eq, Structural, Hash)]
pub struct ButtonRequest {
    /// Towards what the button's animation factor is to be eased.
    pub animation: Animation,
    /// Whether the looks are to be those of a selected widget.
    pub selected: bool,
}

/// What the toolkit is asked for before the switch is drawn.
#[derive(Debug)]
pub struct PaintRequest {
    /// Towards what the position of the indicator is to be eased, where an
    /// option is selected.
    pub indicator: Option<Animation>,
    /// One request for each button, in the order of the options.
    pub buttons: Vec<ButtonRequest>,
}

/// What is drawn for the switch, from back to front.
#[derive(Debug)]
pub struct SwitchShapes {
    /// The track.
    pub background: RectShape,
    /// The indicator, where an option is selected.
    pub indicator: Option<CircleShape>,
    /// The buttons, in the order of the options.
    pub buttons: Vec<ButtonShapes>,
}

/// Whether `button` stands for `value`.
pub open spec fn is_selected<T: PartialEq>(button: ButtonSpace<T>, value: T) -> bool {
    button.option.value.eq_spec(&value)
}

/// The button that shows as selected: the first, in the order of the options,
/// that stands for `value`.
pub open spec fn selected_button<T: PartialEq>(buttons: Seq<ButtonSpace<T>>, value: T) -> Option<
    int,
> {
    first_where(buttons, |button: ButtonSpace<T>| is_selected(button, value))
}

/// The looks of the track: those of a hovered widget while the switch has
/// keyboard focus, those of an inactive widget otherwise.
pub open spec fn spec_switch_visuals(visuals: SwitchVisuals, response: Response) -> WidgetVisuals {
    if response.focused {
        visuals.hovered
    } else {
        visuals.inactive
    }
}

/// Half of `height`, for a height that is not negative, and else nothing.
pub open spec fn half_height(height: int) -> int {
    if height >= 0 {
        height / 2
    } else {
        0
    }
}

/// The track: the rectangle of the switch, rounded by half its height.
pub open spec fn background<T>(space: AllocatedSpace<T>, visuals: SwitchVisuals) -> RectShape {
    RectShape {
        rect: space.rect,
        rounding: half_height(space.rect.spec_height()) as u32,
        fill: spec_switch_visuals(visuals, space.response).bg_fill,
        stroke: spec_switch_visuals(visuals, space.response).bg_stroke,
    }
}

/// Whether the pointer or the keyboard is at the region.
pub open spec fn spec_interacted(response: Response) -> bool {
    response.clicked || response.hovered || response.focused
}

/// The background of a button: the background of `visuals` while the button
/// is interacted with, none otherwise.
pub open spec fn spec_button_fill(response: Response, visuals: WidgetVisuals) -> Color32 {
    if spec_interacted(response) {
        visuals.bg_fill
    } else {
        Color32::spec_transparent()
    }
}

/// What the animation factor of a button moves towards: a button that is
/// held down shrinks.
pub open spec fn click_animation(response: Response) -> Animation {
    Animation {
        id: response.id,
        target: if response.pointer_down_on {
            FACTOR_PRESSED as i64
        } else {
            FACTOR_RELEASED as i64
        },
    }
}

/// `radius` scaled by `factor` thousandths, rounded down.
pub open spec fn scaled(radius: int, factor: int) -> int {
    factor * radius / 1000
}

/// One button: a circle of the button's radius scaled by the animation
/// factor, and in it the glyph at half that radius.
pub open spec fn button_shapes<T>(button: ButtonSpace<T>, paint: ButtonPaint) -> ButtonShapes {
    let radius = scaled(button.radius as int, paint.animation_factor as int);
    ButtonShapes {
        circle: CircleShape {
            center: button.center,
            radius: radius as u64,
            fill: spec_button_fill(button.response, paint.visuals),
            stroke: paint.visuals.bg_stroke,
        },
        icon: IconShape {
            icon: button.option.icon,
            center: button.center,
            radius: (radius / 2) as u64,
            color: paint.visuals.fg_stroke.color,
        },
    }
}

/// What the position of the indicator moves towards: the centre of the
/// selected button. Where no button is selected, nothing moves.
pub open spec fn indicator_animation<T: PartialEq>(space: AllocatedSpace<T>, value: T) -> Option<
    Animation,
> {
    match selected_button(space.buttons@, value) {
        Some(k) => Some(Animation { id: space.response.id, target: space.buttons[k].center.x as i64 }),
        None => None,
    }
}

/// The indicator: a circle of the button's radius at the eased position `x`,
/// on the height of the selected button. Where no button is selected, there is
/// no indicator.
pub open spec fn indicator<T: PartialEq>(
    space: AllocatedSpace<T>,
    value: T,
    fill: Color32,
    x: i32,
) -> Option<CircleShape> {
    match selected_button(space.buttons@, value) {
        Some(k) => Some(
            CircleShape {
                center: Pos2 { x, y: space.buttons[k].center.y },
                radius: space.radius as u64,
                fill,
                stroke: Stroke::spec_none(),
            },
        ),
        None => None,
    }
}

/// Picks the looks of the track.
#[verifier::when_used_as_spec(spec_switch_visuals)]
pub fn switch_visuals(visuals: SwitchVisuals, response: Response) -> (looks: WidgetVisuals)
    ensures
        looks == spec_switch_visuals(visuals, response),
{
    if response.has_focus() {
        visuals.hovered
    } else {
        visuals.inactive
    }
}

/// Draws the track of the switch.
pub fn draw_switch_background<T>(space: &AllocatedSpace<T>, visuals: &SwitchVisuals) -> (shape:
    RectShape)
    ensures
        shape == background(*space, *visuals),
{
    let rect = space.rect;
    let height: i64 = rect.height();
    let rounding: u32 = if height >= 0 {
        (height / 2) as u32
    } else {
        0
    };
    let looks = switch_visuals(*visuals, space.response);
    RectShape { rect, rounding, fill: looks.bg_fill, stroke: looks.bg_stroke }
}

/// Finds the button that shows as selected.
pub fn find_selected<T: PartialEq>(space: &AllocatedSpace<T>, value: &T) -> (found: Option<usize>)
    ensures
        T::obeys_eq_spec() ==> match found {
            Some(k) => selected_button(space.buttons@, *value) == Some(k as int),
            None => selected_button(space.buttons@, *value) is None,
        },
        found matches Some(k) ==> k < space.buttons.len(),
{
    let ghost wanted = |button: ButtonSpace<T>| is_selected(button, *value);
    let mut n: usize = 0;
    while n < space.buttons.len()
        invariant
            n <= space.buttons.len(),
            wanted == |button: ButtonSpace<T>| is_selected(button, *value),
            T::obeys_eq_spec() ==> forall|j: int| 0 <= j < n ==> !wanted(#[trigger] space.buttons[j]),
        decreases space.buttons.len() - n,
    {
        if space.buttons[n].option.value == *value {
            proof {
                if T::obeys_eq_spec() {
                    lemma_first_from_skips(space.buttons@, wanted, n as int);
                }
            }
            return Some(n);
        }
        n += 1;
    }
    proof {
        if T::obeys_eq_spec() {
            lemma_first_from_skips(space.buttons@, wanted, n as int);
        }
    }
    None
}

/// Says towards what the toolkit is to ease the position of the indicator.
pub fn animate_active_indicator<T: PartialEq>(space: &AllocatedSpace<T>, value: &T) -> (animation:
    Option<Animation>)
    ensures
        T::obeys_eq_spec() ==> animation == indicator_animation(*space, *value),
{
    match find_selected(space, value) {
        Some(k) => Some(
            Animation { id: space.response.id, target: space.buttons[k].center.x as i64 },
        ),
        None => None,
    }
}

/// The position of the indicator: `pos`, moved along the switch to the eased
/// position `x`.
pub fn animate_active_indicator_position(x: i32, pos: Pos2) -> (eased: Pos2)
    ensures
        eased == (Pos2 { x, y: pos.y }),
{
    Pos2 { x, y: pos.y }
}

/// Draws the indicator of the selected option at the eased position `x`.
pub fn draw_active_indicator<T: PartialEq>(
    space: &AllocatedSpace<T>,
    value: &T,
    fill: Color32,
    x: i32,
) -> (shape: Option<CircleShape>)
    ensures
        T::obeys_eq_spec() ==> shape == indicator(*space, *value, fill, x),
{
    match find_selected(space, value) {
        Some(k) => {
            let pos = animate_active_indicator_position(x, space.buttons[k].center);
            Some(
                CircleShape { center: pos, radius: space.radius as u64, fill, stroke: Stroke::none() },
            )
        },
        None => None,
    }
}

/// Tells whether the pointer or the keyboard is at the region.
pub fn interacted(response: &Response) -> (yes: bool)
    ensures
        yes == spec_interacted(*response),
{
    response.clicked() || response.hovered() || response.has_focus()
}

/// Picks the background of a button.
pub fn button_fill(response: &Response, visuals: &WidgetVisuals) -> (fill: Color32)
    ensures
        fill == spec_button_fill(*response, *visuals),
{
    if interacted(response) {
        visuals.bg_fill
    } else {
        Color32::transparent()
    }
}

/// Says towards what the toolkit is to ease the animation factor of a button.
pub fn animate_click(response: &Response) -> (animation: Animation)
    ensures
        animation == click_animation(*response),
{
    let target: u32 = if response.is_pointer_button_down_on() {
        FACTOR_PRESSED
    } else {
        FACTOR_RELEASED
    };
    Animation { id: response.id, target: target as i64 }
}

/// Draws one button with the looks and the eased animation factor that the
/// toolkit supplied for it.
pub fn draw_button<T>(button: &ButtonSpace<T>, paint: &ButtonPaint) -> (shapes: ButtonShapes)
    ensures
        shapes == button_shapes(*button, *paint),
{
    let factor: u64 = paint.animation_factor as u64;
    let full: u64 = button.radius as u64;
    assert(factor * full <= 0xffff_ffff * 0xffff_ffff) by (nonlinear_arith)
        requires
            factor <= 0xffff_ffff,
            full <= 0xffff_ffff,
    ;
    let radius: u64 = factor * full / 1000;
    let icon_radius: u64 = radius / 2;
    let bg_fill = button_fill(&button.response, &paint.visuals);
    ButtonShapes {
        circle: CircleShape {
            center: button.center,
            radius,
            fill: bg_fill,
            stroke: paint.visuals.bg_stroke,
        },
        icon: IconShape {
            icon: button.option.icon,
            center: button.center,
            radius: icon_radius,
            color: paint.visuals.fg_stroke.color,
        },
    }
}

/// What the toolkit is asked for before `button` is drawn.
pub open spec fn button_request<T: PartialEq>(button: ButtonSpace<T>, value: T) -> ButtonRequest {
    ButtonRequest { animation: click_animation(button.response), selected: is_selected(button, value) }
}

/// Says what the toolkit has to supply before the switch can be drawn: the
/// eased position of the indicator, and for each button its eased animation
/// factor and the looks of a widget that is or is not selected.
pub fn request_paint<T: PartialEq>(space: &AllocatedSpace<T>, value: &T) -> (request: PaintRequest)
    ensures
        request.buttons.len() == space.buttons.len(),
        T::obeys_eq_spec() ==> request.indicator == indicator_animation(*space, *value),
        forall|n: int|
            0 <= n < space.buttons.len() ==> (#[trigger] request.buttons[n]).animation
                == click_animation(space.buttons[n].response),
        T::obeys_eq_spec() ==> forall|n: int|
            0 <= n < space.buttons.len() ==> #[trigger] request.buttons[n] == button_request(
                space.buttons[n],
                *value,
            ),
{
    let indicator = animate_active_indicator(space, value);
    let mut buttons: Vec<ButtonRequest> = Vec::new();
    let mut n: usize = 0;
    while n < space.buttons.len()
        invariant
            n <= space.buttons.len(),
            buttons.len() == n,
            forall|k: int|
                0 <= k < n ==> (#[trigger] buttons[k]).animation == click_animation(
                    space.buttons[k].response,
                ),
            T::obeys_eq_spec() ==> forall|k: int|
                0 <= k < n ==> #[trigger] buttons[k] == button_request(space.buttons[k], *value),
        decreases space.buttons.len() - n,
    {
        let button = &space.buttons[n];
        let selected = button.option.value == *value;
        buttons.push(ButtonRequest { animation: animate_click(&button.response), selected });
        n += 1;
    }
    PaintRequest { indicator, buttons }
}

/// Draws the switch, unless it is out of sight: the track, on it the
/// indicator of the selected option at the eased position `indicator_x`, and
/// on top the buttons, each with what the toolkit supplied for it in `paints`.
pub fn draw_switch<T: PartialEq>(
    space: &AllocatedSpace<T>,
    value: &T,
    visible: bool,
    visuals: &SwitchVisuals,
    indicator_x: i32,
    paints: &Vec<ButtonPaint>,
) -> (shapes: Option<SwitchShapes>)
    requires
        paints.len() == space.buttons.len(),
    ensures
        shapes is Some <==> visible,
        shapes matches Some(drawn) ==> {
            &&& drawn.background == background(*space, *visuals)
            &&& T::obeys_eq_spec() ==> drawn.indicator == indicator(
                *space,
                *value,
                visuals.selection_bg_fill,
                indicator_x,
            )
            &&& drawn.buttons.len() == space.buttons.len()
            &&& forall|n: int|
                0 <= n < space.buttons.len() ==> #[trigger] drawn.buttons[n] == button_shapes(
                    space.buttons[n],
                    paints[n],
                )
        },
{
    if !visible {
        return None;
    }
    let background = draw_switch_background(space, visuals);
    let indicator = draw_active_indicator(space, value, visuals.selection_bg_fill, indicator_x);
    let mut buttons: Vec<ButtonShapes> = Vec::new();
    let mut n: usize = 0;
    while n < space.buttons.len()
        invariant
            paints.len() == space.buttons.len(),
            n <= space.buttons.len(),
            buttons.len() == n,
            forall|k: int|
                0 <= k < n ==> #[trigger] buttons[k] == button_shapes(space.buttons[k], paints[k]),
        decreases space.buttons.len() - n,
    {
        buttons.push(draw_button(&space.buttons[n], &paints[n]));
        n += 1;
    }
    Some(SwitchShapes { background, indicator, buttons })
}

} // verus!
