//! Measuring the switch and dividing its rectangle among the buttons.
//!
//! The switch is a row of round buttons. A padding separates the first and the
//! last button from the edge of the switch, a gap separates neighbours. Every
//! point of the switch belongs to exactly one button: a gap is shared between
//! the two buttons beside it, and when the switch is given more width than it
//! asked for, the gaps grow. Where the width to share is no multiple of the
//! number of gaps, the first gaps are one unit wider than the others.
use vstd::prelude::*;

use vstd::arithmetic::div_mod::{
    lemma_div_by_multiple, lemma_div_is_ordered, lemma_div_nonincreasing, lemma_div_pos_is_pos,
    lemma_fundamental_div_mod, lemma_mod_pos_bound,
};
use crate::geometry::{midpoint, spec_min, Pos2, Rect, Vec2};
use crate::options::SwitchOption;
use crate::response::Response;
use crate::style::Spacing;

verus! {

/// The sizes from which the buttons of one switch are laid out.
#[derive(Clone, Copy, Debug, PartialEq, Eq, Structural, Hash)]
pub struct SwitchMeasurements {
    /// The width of a gap between two neighbouring buttons.
    pub gap: u32,
    /// How many gaps, counted from the left, are one unit wider than `gap`.
    pub wide_gaps: u32,
    /// The radius of a button.
    pub radius: u32,
    /// The space between the edge of the switch and its outermost buttons.
    pub padding: u32,
    /// The number of buttons.
    pub buttons: usize,
}

/// The space that one button occupies, and what happened to it in this frame.
#[derive(Debug)]
pub struct ButtonSpace<T> {
    /// The part of the switch that belongs to this button.
    pub rect: Rect,
    /// The centre of the button's circle.
    pub center: Pos2,
    /// What the toolkit reports about `rect`.
    pub response: Response,
    /// The radius of the button's circle.
    pub radius: u32,
    /// The option that the button selects.
    pub option: SwitchOption<T>,
}

/// The layout of one switch for one frame.
#[derive(Debug)]
pub struct AllocatedSpace<T> {
    /// What the toolkit reports about the switch as a whole.
    pub response: Response,
    /// The rectangle of the switch.
    pub rect: Rect,
    /// One entry for each option, in the order of the options.
    pub buttons: Vec<ButtonSpace<T>>,
    /// The radius of a button.
    pub radius: u32,
}

/// The number of gaps between `buttons` buttons.
pub open spec fn gap_count(buttons: int) -> int {
    if buttons <= 0 {
        0
    } else {
        buttons - 1
    }
}

/// The width that the switch asks for.
pub open spec fn min_width(spacing: Spacing, buttons: int) -> int {
    buttons * spacing.diameter() + gap_count(buttons) * spacing.min_gap() + 2 * spacing.padding()
}

/// The height that the switch asks for.
pub open spec fn min_height(spacing: Spacing) -> int {
    spacing.diameter() + 2 * spacing.padding()
}

/// The width that the buttons and the padding take up, without any gap.
pub open spec fn bare_width(spacing: Spacing, buttons: int) -> int {
    buttons * (2 * spacing.radius()) + 2 * spacing.padding()
}

/// The width that is left for the gaps in a switch that is `width` wide.
pub open spec fn total_gap(spacing: Spacing, buttons: int, width: int) -> int {
    width - bare_width(spacing, buttons)
}

impl SwitchMeasurements {
    /// The width of the gap between button `g` and button `g + 1`.
    pub open spec fn gap_width(&self, g: int) -> int {
        if g < self.wide_gaps {
            self.gap + 1
        } else {
            self.gap as int
        }
    }

    /// The width of the first `g` gaps together.
    pub open spec fn gaps_before(&self, g: int) -> int {
        self.gap * g + spec_min(g, self.wide_gaps as int)
    }

    /// The space between the left edge of button `n`'s part and its circle.
    pub open spec fn leading(&self, n: int) -> int {
        if n == 0 {
            self.padding as int
        } else {
            self.gap_width(n - 1) - self.gap_width(n - 1) / 2
        }
    }

    /// The space between button `n`'s circle and the right edge of its part.
    pub open spec fn trailing(&self, n: int) -> int {
        if n + 1 == self.buttons {
            self.padding as int
        } else {
            self.gap_width(n) / 2
        }
    }

    /// The width of button `n`'s part: its circle and the space on both sides.
    pub open spec fn button_width(&self, n: int) -> int {
        self.leading(n) + 2 * self.radius + self.trailing(n)
    }

    /// How far the centre of button `n` lies from the left edge of the switch.
    pub open spec fn center_offset(&self, n: int) -> int {
        self.padding + self.radius + n * (2 * self.radius) + self.gaps_before(n)
    }

    /// How far button `n`'s part begins from the left edge of the switch.
    pub open spec fn left_edge(&self, n: int) -> int {
        self.center_offset(n) - self.radius - self.leading(n)
    }

    /// How far button `n`'s part ends from the left edge of a switch that is
    /// `width` wide. The last button's part ends where the switch ends.
    pub open spec fn right_edge(&self, n: int, width: int) -> int {
        if n + 1 == self.buttons {
            width
        } else {
            self.left_edge(n) + self.button_width(n)
        }
    }

    /// The width of all buttons, gaps and both paddings together.
    pub open spec fn total_width(&self) -> int {
        2 * self.padding + self.buttons * (2 * self.radius) + self.gaps_before(
            gap_count(self.buttons as int),
        )
    }

    /// The wider gaps are fewer than the gaps, and a switch without a gap
    /// records none.
    pub open spec fn wf(&self) -> bool {
        if self.buttons >= 2 {
            self.wide_gaps < self.buttons - 1
        } else {
            self.gap == 0 && self.wide_gaps == 0
        }
    }

    /// The measurements belong to a switch that is `width` wide: two or more
    /// buttons take up the width exactly, a single button at most.
    pub open spec fn fills(&self, width: int) -> bool {
        &&& self.wf()
        &&& self.buttons >= 2 ==> self.total_width() == width
        &&& self.buttons == 1 ==> self.total_width() <= width
    }

    /// The part of the switch `rect` that belongs to button `n`.
    pub open spec fn button_rect(&self, rect: Rect, n: int) -> Rect {
        Rect {
            min: Pos2 { x: (rect.min.x + self.left_edge(n)) as i32, y: rect.min.y },
            max: Pos2 {
                x: (rect.min.x + self.right_edge(n, rect.spec_width())) as i32,
                y: rect.max.y,
            },
        }
    }

    /// The centre of button `n` in the switch `rect`.
    pub open spec fn button_center(&self, rect: Rect, n: int) -> Pos2 {
        Pos2 {
            x: (rect.min.x + self.center_offset(n)) as i32,
            y: midpoint(rect.min.y as int, rect.max.y as int) as i32,
        }
    }
}

/// The size that the switch asks the toolkit for: room for `buttons` buttons
/// of the standard diameter, the narrowest gaps between them, and the padding
/// all round. A size beyond the grid is cut down to the largest on it.
pub fn min_size(spacing: &Spacing, buttons: usize) -> (size: Vec2)
    ensures
        size.x == spec_min(min_width(*spacing, buttons as int), u32::MAX as int),
        size.y == spec_min(min_height(*spacing), u32::MAX as int),
{
    let diameter: u128 = spacing.interact_size.y as u128;
    let padding: u128 = spacing.button_padding.min_elem() as u128;
    let min_gap: u128 = (spacing.item_spacing.x / 2) as u128;
    let button_count: u128 = buttons as u128;
    let gaps: u128 = buttons.saturating_sub(1) as u128;
    assert(button_count * diameter <= 0xffff_ffff_ffff_ffff * 0xffff_ffff) by (nonlinear_arith)
        requires
            0 <= button_count <= 0xffff_ffff_ffff_ffff,
            0 <= diameter <= 0xffff_ffff,
    ;
    assert(gaps * min_gap <= 0xffff_ffff_ffff_ffff * 0xffff_ffff) by (nonlinear_arith)
        requires
            0 <= gaps <= 0xffff_ffff_ffff_ffff,
            0 <= min_gap <= 0xffff_ffff,
    ;
    let width: u128 = button_count * diameter + gaps * min_gap + 2 * padding;
    let height: u128 = diameter + 2 * padding;
    let limit: u128 = u32::MAX as u128;
    Vec2 {
        x: if width <= limit {
            width as u32
        } else {
            u32::MAX
        },
        y: if height <= limit {
            height as u32
        } else {
            u32::MAX
        },
    }
}

/// Whether a switch of `buttons` buttons can be laid out in `rect`: whether
/// `rect` is at least as wide as the buttons and the padding.
pub open spec fn holds_buttons(spacing: Spacing, buttons: int, rect: Rect) -> bool {
    bare_width(spacing, buttons) <= rect.spec_width()
}

/// Tells whether `rect` is wide enough for `buttons` buttons and the padding.
pub fn can_allocate_switch(spacing: &Spacing, buttons: usize, rect: Rect) -> (ok: bool)
    ensures
        ok == holds_buttons(*spacing, buttons as int, rect),
{
    let radius: u128 = (spacing.interact_size.y / 2) as u128;
    let padding: u128 = spacing.button_padding.min_elem() as u128;
    let button_count: u128 = buttons as u128;
    assert(button_count * (2 * radius) <= 0xffff_ffff_ffff_ffff * 0xffff_ffff) by (nonlinear_arith)
        requires
            0 <= button_count <= 0xffff_ffff_ffff_ffff,
            0 <= 2 * radius <= 0xffff_ffff,
    ;
    let bare: u128 = button_count * (2 * radius) + 2 * padding;
    let width: i64 = rect.width();
    width >= 0 && bare <= width as u128
}

/// The measurements of a switch of `buttons` buttons that is `width` wide.
///
/// The radius and the padding come from the toolkit's standard sizes. The width
/// that the buttons and the padding leave over is divided evenly among the
/// gaps; what cannot be divided widens the first gaps by one unit each. A
/// switch of fewer than two buttons has no gap.
pub open spec fn measure(spacing: Spacing, buttons: int, width: int) -> SwitchMeasurements {
    let total = total_gap(spacing, buttons, width);
    SwitchMeasurements {
        gap: if buttons >= 2 {
            (total / (buttons - 1)) as u32
        } else {
            0
        },
        wide_gaps: if buttons >= 2 {
            (total % (buttons - 1)) as u32
        } else {
            0
        },
        radius: spacing.radius() as u32,
        padding: spacing.padding() as u32,
        buttons: buttons as usize,
    }
}

/// Measures the switch once the toolkit has given it `rect`.
pub fn allocate_switch(spacing: &Spacing, buttons: usize, rect: Rect) -> (m: SwitchMeasurements)
    requires
        holds_buttons(*spacing, buttons as int, rect),
    ensures
        m == measure(*spacing, buttons as int, rect.spec_width()),
        m.fills(rect.spec_width()),
{
    let radius: u32 = spacing.interact_size.y / 2;
    let padding: u32 = spacing.button_padding.min_elem();
    proof {
        lemma_measure_fills(*spacing, buttons as int, rect);
    }
    if buttons < 2 {
        return SwitchMeasurements { gap: 0, wide_gaps: 0, radius, padding, buttons };
    }
    let width: u64 = rect.width() as u64;
    let taken: u64 = (buttons as u64) * (2 * (radius as u64)) + 2 * (padding as u64);
    let total: u64 = width - taken;
    let gaps: u64 = (buttons - 1) as u64;
    SwitchMeasurements {
        gap: (total / gaps) as u32,
        wide_gaps: (total % gaps) as u32,
        radius,
        padding,
        buttons,
    }
}

/// In a rectangle that holds the buttons, the measurements take up the width:
/// the shares of the gaps are whole, fit their fields and add up.
pub proof fn lemma_measure_fills(spacing: Spacing, buttons: int, rect: Rect)
    requires
        0 <= buttons <= usize::MAX,
        holds_buttons(spacing, buttons, rect),
    ensures
        measure(spacing, buttons, rect.spec_width()).fills(rect.spec_width()),
        measure(spacing, buttons, rect.spec_width()).radius == spacing.radius(),
        measure(spacing, buttons, rect.spec_width()).padding == spacing.padding(),
        measure(spacing, buttons, rect.spec_width()).buttons == buttons,
        buttons >= 2 ==> measure(spacing, buttons, rect.spec_width()).gap == total_gap(
            spacing,
            buttons,
            rect.spec_width(),
        ) / (buttons - 1),
        buttons >= 2 ==> measure(spacing, buttons, rect.spec_width()).wide_gaps == total_gap(
            spacing,
            buttons,
            rect.spec_width(),
        ) % (buttons - 1),
{
    let width = rect.spec_width();
    let total = total_gap(spacing, buttons, width);
    let radius = spacing.radius();
    let m = measure(spacing, buttons, width);
    assert(0 <= buttons * (2 * radius)) by (nonlinear_arith)
        requires
            0 <= buttons,
            0 <= radius,
    ;
    assert(m.radius == radius);
    assert(m.padding == spacing.padding());
    assert(m.buttons == buttons);
    if buttons >= 2 {
        let gaps = buttons - 1;
        lemma_fundamental_div_mod(total, gaps);
        lemma_mod_pos_bound(total, gaps);
        lemma_div_nonincreasing(total, gaps);
        lemma_div_pos_is_pos(total, gaps);
        assert(m.gap == total / gaps);
        assert(m.wide_gaps == total % gaps);
        assert((total / gaps) * gaps == gaps * (total / gaps)) by (nonlinear_arith);
        assert(m.gaps_before(gaps) == total);
        assert(m.total_width() == width);
    } else if buttons == 1 {
        assert(buttons * (2 * radius) == 2 * radius) by (nonlinear_arith)
            requires
                buttons == 1,
        ;
        assert(m.gap * 0 == 0) by (nonlinear_arith);
        assert(m.gaps_before(0) == 0);
        assert(m.total_width() <= width);
    }
}

/// The space before and after the circle of button `n`: the padding at the
/// ends of the switch, half a gap between neighbours. Where a gap has an odd
/// width, the button on its right gets the larger half.
pub fn offset(n: usize, measurements: &SwitchMeasurements) -> (margins: (u32, u32))
    ensures
        margins.0 == measurements.leading(n as int),
        margins.1 == measurements.trailing(n as int),
{
    let leading: u32 = if n == 0 {
        measurements.padding
    } else {
        let gap: u64 = gap_at(measurements, n - 1);
        (gap - gap / 2) as u32
    };
    let trailing: u32 = if measurements.buttons > 0 && n == measurements.buttons - 1 {
        measurements.padding
    } else {
        (gap_at(measurements, n) / 2) as u32
    };
    (leading, trailing)
}

/// The width of the gap after button `g`.
fn gap_at(measurements: &SwitchMeasurements, g: usize) -> (width: u64)
    ensures
        width == measurements.gap_width(g as int),
{
    if (g as u64) < measurements.wide_gaps as u64 {
        measurements.gap as u64 + 1
    } else {
        measurements.gap as u64
    }
}

/// Where `partition` cuts `remaining` for button `n`: after the button's width,
/// or, for the last button, at the right edge.
pub open spec fn cut(measurements: SwitchMeasurements, remaining: Rect, n: int) -> int {
    if n + 1 == measurements.buttons {
        remaining.max.x as int
    } else {
        remaining.min.x + measurements.button_width(n)
    }
}

/// Cuts the part of button `n` off the left of `remaining`, which holds what
/// the buttons before `n` left over, and finds the centre of the button's
/// circle. The last button takes all that is left.
pub fn partition(remaining: &mut Rect, measurements: &SwitchMeasurements, n: usize) -> (part: (
    Rect,
    Pos2,
))
    requires
        n < measurements.buttons,
        old(remaining).min.x + measurements.button_width(n as int) <= old(remaining).max.x,
    ensures
        part.0 == old(remaining).left_of(cut(*measurements, *old(remaining), n as int) as i32),
        part.1 == (Pos2 {
            x: (old(remaining).min.x + measurements.leading(n as int) + measurements.radius) as i32,
            y: midpoint(old(remaining).min.y as int, old(remaining).max.y as int) as i32,
        }),
        *final(remaining) == old(remaining).right_of(
            cut(*measurements, *old(remaining), n as int) as i32,
        ),
{
    let (leading, trailing) = offset(n, measurements);
    let left: i64 = remaining.min.x as i64;
    let radius: i64 = measurements.radius as i64;
    let center = Pos2 { x: (left + leading as i64 + radius) as i32, y: remaining.left_center().y };
    let right: i32 = if n == measurements.buttons - 1 {
        remaining.max.x
    } else {
        (left + leading as i64 + 2 * radius + trailing as i64) as i32
    };
    let (rect, new_remaining) = remaining.split_left_right_at_x(right);
    *remaining = new_remaining;
    (rect, center)
}

/// Gives button `n` its part of `remaining` and records what the toolkit
/// reports about it.
pub fn allocate_button<T>(
    remaining: &mut Rect,
    measurements: &SwitchMeasurements,
    n: usize,
    option: SwitchOption<T>,
    response: Response,
) -> (button: ButtonSpace<T>)
    requires
        n < measurements.buttons,
        old(remaining).min.x + measurements.button_width(n as int) <= old(remaining).max.x,
    ensures
        button.rect == old(remaining).left_of(cut(*measurements, *old(remaining), n as int) as i32),
        button.center == (Pos2 {
            x: (old(remaining).min.x + measurements.leading(n as int) + measurements.radius) as i32,
            y: midpoint(old(remaining).min.y as int, old(remaining).max.y as int) as i32,
        }),
        button.response == response,
        button.radius == measurements.radius,
        button.option == option,
        *final(remaining) == old(remaining).right_of(
            cut(*measurements, *old(remaining), n as int) as i32,
        ),
{
    let (rect, center) = partition(remaining, measurements, n);
    ButtonSpace { rect, center, response, radius: measurements.radius, option }
}

/// The gaps before button `g + 1` are those before button `g` and the gap
/// after it.
proof fn lemma_gaps_before_step(m: SwitchMeasurements, g: int)
    requires
        0 <= g,
    ensures
        m.gaps_before(g + 1) == m.gaps_before(g) + m.gap_width(g),
        0 <= m.gaps_before(g),
{
    let gap = m.gap as int;
    assert(gap * (g + 1) == gap * g + gap) by (nonlinear_arith);
    assert(0 <= gap * g) by (nonlinear_arith)
        requires
            0 <= gap,
            0 <= g,
    ;
}

/// Each button's part begins where the part before it ends.
proof fn lemma_left_edge_step(m: SwitchMeasurements, n: int)
    requires
        0 <= n,
        n + 1 < m.buttons,
    ensures
        m.left_edge(n + 1) == m.left_edge(n) + m.button_width(n),
{
    lemma_gaps_before_step(m, n);
    let diameter = 2 * m.radius;
    assert((n + 1) * diameter == n * diameter + diameter) by (nonlinear_arith);
}

/// The last button's part ends where the buttons, gaps and paddings end.
proof fn lemma_last_edge(m: SwitchMeasurements)
    requires
        m.buttons >= 1,
    ensures
        m.left_edge(m.buttons - 1) + m.button_width(m.buttons - 1) == m.total_width(),
{
    let diameter = 2 * m.radius;
    let last = m.buttons - 1;
    assert((last + 1) * diameter == last * diameter + diameter) by (nonlinear_arith);
}

/// No part begins left of the switch.
proof fn lemma_left_edge_nonnegative(m: SwitchMeasurements, n: int)
    requires
        0 <= n < m.buttons,
    ensures
        0 <= m.left_edge(n),
        0 <= m.button_width(n),
    decreases n,
{
    if n > 0 {
        lemma_left_edge_nonnegative(m, n - 1);
        lemma_left_edge_step(m, n - 1);
    }
}

/// No part ends right of the buttons, gaps and paddings.
proof fn lemma_right_edge_bounded(m: SwitchMeasurements, n: int)
    requires
        0 <= n < m.buttons,
    ensures
        m.left_edge(n) + m.button_width(n) <= m.total_width(),
    decreases m.buttons - n,
{
    if n + 1 == m.buttons {
        lemma_last_edge(m);
    } else {
        lemma_right_edge_bounded(m, n + 1);
        lemma_left_edge_step(m, n);
        lemma_left_edge_nonnegative(m, n + 1);
    }
}

/// In a switch that its measurements fill, every part lies within the switch
/// and has room for its button.
pub proof fn lemma_part_within(m: SwitchMeasurements, width: int, n: int)
    requires
        m.fills(width),
        0 <= n < m.buttons,
    ensures
        0 <= m.left_edge(n),
        m.left_edge(n) + m.button_width(n) <= m.right_edge(n, width) <= width,
        m.buttons >= 2 ==> m.left_edge(n) + m.button_width(n) == m.right_edge(n, width),
        0 <= m.leading(n),
        0 <= m.trailing(n),
        m.left_edge(n) + m.leading(n) + m.radius == m.center_offset(n),
{
    lemma_left_edge_nonnegative(m, n);
    lemma_right_edge_bounded(m, n);
    if n + 1 == m.buttons {
        lemma_last_edge(m);
    }
}

/// The parts that the buttons of the switch `rect` get, from left to right.
pub fn button_rects(rect: Rect, measurements: &SwitchMeasurements) -> (parts: Vec<Rect>)
    requires
        measurements.fills(rect.spec_width()),
    ensures
        parts.len() == measurements.buttons,
        forall|n: int|
            0 <= n < measurements.buttons ==> #[trigger] parts[n] == measurements.button_rect(
                rect,
                n,
            ),
{
    let mut parts: Vec<Rect> = Vec::new();
    let mut remaining = rect;
    let mut n: usize = 0;
    while n < measurements.buttons
        invariant
            measurements.fills(rect.spec_width()),
            n <= measurements.buttons,
            parts.len() == n,
            remaining.max == rect.max,
            remaining.min.y == rect.min.y,
            n < measurements.buttons ==> remaining.min.x == rect.min.x + measurements.left_edge(
                n as int,
            ),
            forall|k: int|
                0 <= k < n ==> #[trigger] parts[k] == measurements.button_rect(rect, k),
        decreases measurements.buttons - n,
    {
        proof {
            lemma_part_within(*measurements, rect.spec_width(), n as int);
            if n + 1 < measurements.buttons {
                lemma_left_edge_step(*measurements, n as int);
            }
        }
        let (part, _) = partition(&mut remaining, measurements, n);
        parts.push(part);
        n += 1;
    }
    parts
}

/// Lays out the switch: gives each option, in order, its part of `rect` and
/// the response that the toolkit reported for that part.
pub fn allocate_space<T>(
    rect: Rect,
    response: Response,
    measurements: &SwitchMeasurements,
    options: Vec<SwitchOption<T>>,
    responses: &Vec<Response>,
) -> (space: AllocatedSpace<T>)
    requires
        measurements.fills(rect.spec_width()),
        measurements.buttons == options.len(),
        responses.len() == options.len(),
    ensures
        space.response == response,
        space.rect == rect,
        space.radius == measurements.radius,
        space.buttons.len() == options.len(),
        forall|n: int|
            0 <= n < options.len() ==> #[trigger] space.buttons[n] == (ButtonSpace {
                rect: measurements.button_rect(rect, n),
                center: measurements.button_center(rect, n),
                response: responses[n],
                radius: measurements.radius,
                option: options[n],
            }),
{
    let mut buttons: Vec<ButtonSpace<T>> = Vec::new();
    let mut remaining = rect;
    let ghost all = options@;
    for option in iter: options
        invariant
            measurements.fills(rect.spec_width()),
            measurements.buttons == all.len(),
            responses.len() == all.len(),
            iter.seq() == all,
            buttons.len() == iter.index(),
            remaining.max == rect.max,
            remaining.min.y == rect.min.y,
            iter.index() < all.len() ==> remaining.min.x == rect.min.x + measurements.left_edge(
                iter.index() as int,
            ),
            forall|k: int|
                0 <= k < iter.index() ==> #[trigger] buttons[k] == (ButtonSpace {
                    rect: measurements.button_rect(rect, k),
                    center: measurements.button_center(rect, k),
                    response: responses[k],
                    radius: measurements.radius,
                    option: all[k],
                }),
    {
        let n: usize = buttons.len();
        proof {
            lemma_part_within(*measurements, rect.spec_width(), n as int);
            if n + 1 < measurements.buttons {
                lemma_left_edge_step(*measurements, n as int);
            }
        }
        let button = allocate_button(&mut remaining, measurements, n, option, responses[n]);
        buttons.push(button);
    }
    AllocatedSpace { response, rect, buttons, radius: measurements.radius }
}

/// The widths of the parts of the first `k` buttons of the switch `rect`,
/// added up.
pub open spec fn parts_width(m: SwitchMeasurements, rect: Rect, k: int) -> int
    decreases k,
{
    if k <= 0 {
        0
    } else {
        parts_width(m, rect, k - 1) + m.button_rect(rect, k - 1).spec_width()
    }
}

/// A rectangle as wide as the size that the switch asks for holds the
/// buttons, and leaves each gap at least the narrowest gap.
pub proof fn lemma_min_size_holds_buttons(spacing: Spacing, buttons: int, rect: Rect)
    requires
        0 <= buttons <= usize::MAX,
        min_width(spacing, buttons) <= rect.spec_width(),
    ensures
        holds_buttons(spacing, buttons, rect),
        buttons >= 2 ==> measure(spacing, buttons, rect.spec_width()).gap >= spacing.min_gap(),
{
    let diameter = spacing.diameter();
    let radius = spacing.radius();
    let min_gap = spacing.min_gap();
    let gaps = gap_count(buttons);
    assert(buttons * (2 * radius) <= buttons * diameter) by (nonlinear_arith)
        requires
            0 <= buttons,
            2 * radius <= diameter,
    ;
    assert(0 <= gaps * min_gap) by (nonlinear_arith)
        requires
            0 <= gaps,
            0 <= min_gap,
    ;
    if buttons >= 2 {
        let total = total_gap(spacing, buttons, rect.spec_width());
        lemma_measure_fills(spacing, buttons, rect);
        assert(gaps * min_gap == min_gap * gaps) by (nonlinear_arith);
        lemma_div_by_multiple(min_gap, gaps);
        lemma_div_is_ordered(min_gap * gaps, total, gaps);
    }
}

/// The parts of the first `k` buttons reach from the left edge of the switch
/// to where the part of button `k` begins.
proof fn lemma_parts_width(m: SwitchMeasurements, rect: Rect, k: int)
    requires
        m.fills(rect.spec_width()),
        0 <= k <= m.buttons,
    ensures
        k < m.buttons ==> parts_width(m, rect, k) == m.left_edge(k),
        k == m.buttons ==> parts_width(m, rect, k) == (if k == 0 {
            0
        } else {
            rect.spec_width()
        }),
    decreases k,
{
    if k > 0 {
        lemma_parts_width(m, rect, k - 1);
        lemma_part_within(m, rect.spec_width(), k - 1);
        if k < m.buttons {
            lemma_left_edge_step(m, k - 1);
        }
    }
}

/// The buttons' parts tile the switch.
///
/// For one button or more, in a rectangle that holds the buttons: the first
/// part begins at the left edge of the switch, each part ends where the next
/// begins, and the last ends at the right edge. Every part is as high as the
/// switch and holds its button's circle with the space before and after it.
/// The widths of the parts add up to the width of the switch, and where there
/// are two buttons or more, so do the buttons' diameters, the gaps and the two
/// paddings.
pub proof fn lemma_buttons_tile_the_switch(spacing: Spacing, buttons: int, rect: Rect)
    requires
        1 <= buttons <= usize::MAX,
        holds_buttons(spacing, buttons, rect),
    ensures
        ({
            let m = measure(spacing, buttons, rect.spec_width());
            &&& m.button_rect(rect, 0).min.x == rect.min.x
            &&& m.button_rect(rect, buttons - 1).max.x == rect.max.x
            &&& forall|n: int|
                0 <= n && n + 1 < buttons ==> (#[trigger] m.button_rect(rect, n)).max.x
                    == m.button_rect(rect, n + 1).min.x
            &&& forall|n: int|
                0 <= n < buttons ==> {
                    let part = #[trigger] m.button_rect(rect, n);
                    let center = m.button_center(rect, n);
                    &&& part.min.y == rect.min.y
                    &&& part.max.y == rect.max.y
                    &&& part.min.x + m.leading(n) + m.radius == center.x
                    &&& center.x + m.radius + m.trailing(n) <= part.max.x
                    &&& 0 <= m.leading(n)
                    &&& 0 <= m.trailing(n)
                }
            &&& parts_width(m, rect, buttons) == rect.spec_width()
            &&& buttons >= 2 ==> buttons * (2 * m.radius) + m.gaps_before(buttons - 1) + 2
                * m.padding == rect.spec_width()
        }),
{
    let m = measure(spacing, buttons, rect.spec_width());
    let width = rect.spec_width();
    lemma_measure_fills(spacing, buttons, rect);
    lemma_part_within(m, width, 0);
    lemma_part_within(m, width, buttons - 1);
    lemma_parts_width(m, rect, buttons);
    assert forall|n: int| 0 <= n && n + 1 < buttons implies (#[trigger] m.button_rect(
        rect,
        n,
    )).max.x == m.button_rect(rect, n + 1).min.x by {
        lemma_part_within(m, width, n);
        lemma_part_within(m, width, n + 1);
        lemma_left_edge_step(m, n);
    }
    assert forall|n: int| 0 <= n < buttons implies {
        let part = #[trigger] m.button_rect(rect, n);
        let center = m.button_center(rect, n);
        &&& part.min.y == rect.min.y
        &&& part.max.y == rect.max.y
        &&& part.min.x + m.leading(n) + m.radius == center.x
        &&& center.x + m.radius + m.trailing(n) <= part.max.x
        &&& 0 <= m.leading(n)
        &&& 0 <= m.trailing(n)
    } by {
        lemma_part_within(m, width, n);
    }
}

} // verus!
