//! The tray icon of the application and the popover that hangs from it. Positions and sizes
//! are physical pixels, unless said otherwise.

use vstd::math::{max, min};
use vstd::prelude::*;

use crate::geometry::{clamp_wide, clamped, fits, half, half_wide, halved};
use crate::picture::{decoded, decoding, load_from_memory, Picture};

verus! {

/// Width of the popover in logical pixels: a card of 320 with a padding of 8 on either side.
pub const POPOVER_WIDTH: u32 = 336;

/// Height of the popover in logical pixels until its content is measured.
pub const POPOVER_DEFAULT_HEIGHT: u32 = 560;

/// Distance of the popover from the icon.
pub const GAP: i32 = 6;

/// Distance of the popover from the edges of the screen.
pub const MARGIN: i32 = 8;

/// Where the tray icon was when it was last clicked. The popover is placed by it whenever the
/// popover's height changes.
#[derive(Clone, Copy, Debug, PartialEq, Eq, Structural)]
pub struct TrayAnchor {
    /// The middle of the icon.
    pub center_x: i32,
    pub icon_top: i32,
    pub icon_bottom: i32,
}

/// The icon's place as the platform reports it; a size of zero where it does not know.
#[derive(Clone, Copy, Debug, PartialEq, Eq, Structural)]
pub struct IconRect {
    pub x: i32,
    pub y: i32,
    pub width: u32,
    pub height: u32,
}

/// The place of the icon, or of the click where the icon's is not known.
pub open spec fn anchor_of(icon: IconRect, click_x: i32, click_y: i32) -> TrayAnchor {
    if icon.width > 0 && icon.height > 0 {
        TrayAnchor {
            center_x: (icon.x + halved((icon.width as i32) as int)) as i32,
            icon_top: icon.y,
            icon_bottom: (icon.y + icon.height as i32) as i32,
        }
    } else {
        TrayAnchor { center_x: click_x, icon_top: click_y, icon_bottom: click_y }
    }
}

/// Whether the middle and the bottom of an icon can be held.
pub open spec fn has_anchor(icon: IconRect) -> bool {
    icon.width > 0 && icon.height > 0 ==> {
        &&& fits(icon.x + halved((icon.width as i32) as int))
        &&& fits(icon.y + icon.height as i32)
    }
}

/// Takes the place of the icon, or of the click where the icon's is not known.
pub fn tray_anchor(icon: &IconRect, click_x: i32, click_y: i32) -> (r: TrayAnchor)
    requires
        has_anchor(*icon),
    ensures
        r == anchor_of(*icon, click_x, click_y),
{
    if icon.width > 0 && icon.height > 0 {
        TrayAnchor {
            center_x: icon.x + half(icon.width as i32),
            icon_top: icon.y,
            icon_bottom: icon.y + icon.height as i32,
        }
    } else {
        TrayAnchor { center_x: click_x, icon_top: click_y, icon_bottom: click_y }
    }
}

/// The part of a screen that is free of task and menu bars.
#[derive(Clone, Copy, Debug, PartialEq, Eq, Structural)]
pub struct WorkArea {
    pub x: i32,
    pub y: i32,
    pub width: i32,
    pub height: i32,
}

/// The work area of the monitor with the icon, or one of a common size where no monitor is
/// known.
pub fn work_area_or_default(known: Option<WorkArea>) -> (r: WorkArea)
    ensures
        r == (match known {
            Some(area) => area,
            None => WorkArea { x: 0, y: 0, width: 1920, height: 1040 },
        }),
{
    match known {
        Some(area) => area,
        None => WorkArea { x: 0, y: 0, width: 1920, height: 1040 },
    }
}

/// Whether the icon is in the lower half of the screen.
pub open spec fn is_low(anchor: TrayAnchor, area: WorkArea) -> bool {
    halved(anchor.icon_top + anchor.icon_bottom) > area.y + halved(area.height as int)
}

/// How far down a popover of this height would go by the icon alone: above the icon where the
/// icon is in the lower half of the screen, else below it.
pub open spec fn wanted_y(anchor: TrayAnchor, area: WorkArea, h: int) -> int {
    if is_low(anchor, area) {
        anchor.icon_top - h - 6
    } else {
        anchor.icon_bottom + 6
    }
}

/// Where the icon puts a popover of this size: centred on the icon, with a margin of 8 pixels on
/// both sides; and above the icon, with that margin at the top, or below it, with that margin at
/// the bottom. Of a popover that is too large the margin on the left and at the top counts.
pub open spec fn place_by_icon(anchor: TrayAnchor, area: WorkArea, w: int, h: int) -> (int, int) {
    (
        clamped(
            anchor.center_x - halved(w),
            area.x + 8,
            max(area.x + area.width - w - 8, area.x + 8),
        ),
        if is_low(anchor, area) {
            max(wanted_y(anchor, area, h), area.y + 8)
        } else {
            min(wanted_y(anchor, area, h), max(area.y + area.height - h - 8, area.y + 8))
        },
    )
}

/// A start along an axis of a work area, moved so that nothing sticks out; one of something
/// that is longer than the area stays as it is.
pub open spec fn moved_inside(v: int, start: int, size: int, length: int) -> int {
    if length <= size {
        clamped(v, start, start + size - length)
    } else {
        v
    }
}

/// Where a popover of this size goes: where the icon puts it, clamped to the work area.
pub open spec fn popover_place(anchor: TrayAnchor, area: WorkArea, w: int, h: int) -> (int, int) {
    let (x, y) = place_by_icon(anchor, area, w, h);
    (
        moved_inside(x, area.x as int, area.width as int, w),
        moved_inside(y, area.y as int, area.height as int, h),
    )
}

/// Whether the place of a popover can be held: the one that the icon asks for, and the margins.
pub open spec fn is_placeable(anchor: TrayAnchor, area: WorkArea, w: int, h: int) -> bool {
    &&& fits(anchor.center_x - halved(w))
    &&& fits(wanted_y(anchor, area, h))
    &&& fits(area.x + 8)
    &&& fits(area.y + 8)
}

fn move_inside(v: i64, start: i32, size: i32, length: i32) -> (r: i32)
    requires
        fits(v as int),
    ensures
        r == moved_inside(v as int, start as int, size as int, length as int),
{
    if length <= size {
        clamp_wide(v, start as i64, start as i64 + size as i64 - length as i64) as i32
    } else {
        v as i32
    }
}

/// Where a popover of this size goes.
pub fn place_popover(anchor: &TrayAnchor, area: &WorkArea, w: i32, h: i32) -> (r: (i32, i32))
    requires
        is_placeable(*anchor, *area, w as int, h as int),
    ensures
        (r.0 as int, r.1 as int) == popover_place(*anchor, *area, w as int, h as int),
{
    let left: i64 = area.x as i64 + MARGIN as i64;
    let right: i64 = area.x as i64 + area.width as i64 - w as i64 - MARGIN as i64;
    let right: i64 = if right < left {
        left
    } else {
        right
    };
    let x: i64 = clamp_wide(anchor.center_x as i64 - half(w) as i64, left, right);

    let top: i64 = area.y as i64 + MARGIN as i64;
    let middle: i64 = half_wide(anchor.icon_top as i64 + anchor.icon_bottom as i64);
    let y: i64 = if middle > area.y as i64 + half(area.height) as i64 {
        let above: i64 = anchor.icon_top as i64 - h as i64 - GAP as i64;
        if above < top {
            top
        } else {
            above
        }
    } else {
        let below: i64 = anchor.icon_bottom as i64 + GAP as i64;
        let lowest: i64 = area.y as i64 + area.height as i64 - h as i64 - MARGIN as i64;
        let lowest: i64 = if lowest < top {
            top
        } else {
            lowest
        };
        if below > lowest {
            lowest
        } else {
            below
        }
    };
    (move_inside(x, area.x, area.width, w), move_inside(y, area.y, area.height, h))
}

/// What a click on the tray icon does.
#[derive(Clone, Copy, Debug, PartialEq, Eq, Structural)]
pub enum Toggle {
    /// The popover is hidden.
    Hide,
    /// The popover is put here and shown.
    Show { x: i32, y: i32 },
}

/// Hides the popover where it is visible; else puts it to the icon that was clicked, and
/// keeps the icon's place in mind. `w` and `h` are the popover's size.
pub fn toggle_popover(
    visible: bool,
    kept: &mut Option<TrayAnchor>,
    icon: &IconRect,
    click: (i32, i32),
    area: &WorkArea,
    w: i32,
    h: i32,
) -> (r: Toggle)
    requires
        !visible ==> has_anchor(*icon) && is_placeable(
            anchor_of(*icon, click.0, click.1),
            *area,
            w as int,
            h as int,
        ),
    ensures
        visible ==> r == Toggle::Hide && *final(kept) == *old(kept),
        !visible ==> {
            let anchor = anchor_of(*icon, click.0, click.1);
            let place = popover_place(anchor, *area, w as int, h as int);
            &&& *final(kept) == Some(anchor)
            &&& r == (Toggle::Show { x: place.0 as i32, y: place.1 as i32 })
        },
{
    if visible {
        return Toggle::Hide;
    }
    let anchor = tray_anchor(icon, click.0, click.1);
    *kept = Some(anchor);
    let (x, y) = place_popover(&anchor, area, w, h);
    Toggle::Show { x, y }
}

/// Where a popover goes that has changed its height; it stays where it is as long as no icon
/// was clicked.
pub fn set_popover_height(kept: &Option<TrayAnchor>, area: &WorkArea, w: i32, h: i32) -> (r: Option<
    (i32, i32),
>)
    requires
        *kept matches Some(anchor) ==> is_placeable(anchor, *area, w as int, h as int),
    ensures
        match *kept {
            Some(anchor) => {
                let place = popover_place(anchor, *area, w as int, h as int);
                r == Some((place.0 as i32, place.1 as i32))
            },
            None => r is None,
        },
{
    match kept {
        Some(anchor) => Some(place_popover(anchor, area, w, h)),
        None => None,
    }
}

/// A popover that fits the work area lies inside it, wherever the icon is.
pub proof fn law_popover_stays_on_screen(anchor: TrayAnchor, area: WorkArea, w: int, h: int)
    requires
        0 <= w <= area.width,
        0 <= h <= area.height,
    ensures
        ({
            let (x, y) = popover_place(anchor, area, w, h);
            &&& area.x <= x
            &&& x + w <= area.x + area.width
            &&& area.y <= y
            &&& y + h <= area.y + area.height
        }),
{
}

/// A popover goes exactly where the icon puts it, as long as it lies in the work area there.
pub proof fn law_popover_goes_where_the_icon_puts_it(anchor: TrayAnchor, area: WorkArea, w: int, h: int)
    ensures
        ({
            let (x, y) = place_by_icon(anchor, area, w, h);
            let place = popover_place(anchor, area, w, h);
            &&& area.x <= x <= area.x + area.width - w ==> place.0 == x
            &&& area.y <= y <= area.y + area.height - h ==> place.1 == y
        }),
{
}

/// A popover that is small enough keeps a margin of 8 pixels, wherever the icon is: on both
/// sides; and at the top where it opens upwards, at the bottom where it opens downwards.
pub proof fn law_popover_keeps_its_margins(anchor: TrayAnchor, area: WorkArea, w: int, h: int)
    ensures
        ({
            let (x, y) = popover_place(anchor, area, w, h);
            &&& w <= area.width - 16 ==> area.x + 8 <= x && x + w <= area.x + area.width - 8
            &&& is_low(anchor, area) && h <= area.height - 8 ==> area.y + 8 <= y
            &&& !is_low(anchor, area) && h <= area.height - 16 ==> y + h <= area.y + area.height
                - 8
        }),
{
}

/// Where there is room, the popover hangs 6 pixels off the icon, above it or below it, so
/// that it keeps touching distance as it grows and shrinks. Room is the work area, less the
/// margin at the end that the popover opens towards.
pub proof fn law_popover_hugs_the_icon(anchor: TrayAnchor, area: WorkArea, w: int, h: int)
    requires
        is_low(anchor, area) ==> area.y + 8 <= anchor.icon_top - h - 6 && anchor.icon_top - 6
            <= area.y + area.height,
        !is_low(anchor, area) ==> area.y <= anchor.icon_bottom + 6 && anchor.icon_bottom + 6 + h
            <= area.y + area.height - 8,
    ensures
        is_low(anchor, area) ==> popover_place(anchor, area, w, h).1 + h + 6 == anchor.icon_top,
        !is_low(anchor, area) ==> popover_place(anchor, area, w, h).1 == anchor.icon_bottom + 6,
{
}

/// Where there is room on both sides, the popover is centred on the icon.
pub proof fn law_popover_is_centred(anchor: TrayAnchor, area: WorkArea, w: int, h: int)
    requires
        0 <= w,
        anchor.center_x - w / 2 >= area.x + 8,
        anchor.center_x - w / 2 + w <= area.x + area.width - 8,
    ensures
        popover_place(anchor, area, w, h).0 == anchor.center_x - w / 2,
{
}

// ---- Icon ----------------------------------------------------------------------------

/// Whether the task bar is light, by the system's setting; dark where there is none.
pub fn light_taskbar(system_uses_light_theme: Option<u32>) -> (r: bool)
    ensures
        r == (system_uses_light_theme == Some(1u32)),
{
    match system_uses_light_theme {
        Some(v) => v == 1,
        None => false,
    }
}

/// The glyph's brightness: dark on a light task bar, light on a dark one.
pub open spec fn luminance(light: bool) -> u8 {
    if light {
        0
    } else {
        255
    }
}

/// RGBA pixels in one colour, with their opacity as it was.
pub open spec fn recolored(pixels: Seq<u8>, light: bool) -> Seq<u8> {
    pixels.map(|i: int, v: u8| if i % 4 == 3 { v } else { luminance(light) })
}

/// Draws a glyph in the colour that stands out from the task bar. The opacity stays, so that
/// smooth edges keep their shape.
pub fn recolor(glyph: Picture, light: bool) -> (r: Picture)
    requires
        glyph.wf(),
    ensures
        r.width == glyph.width,
        r.height == glyph.height,
        r.pixels@ == recolored(glyph.pixels@, light),
        r.wf(),
{
    let n: usize = glyph.pixels.len();
    let luminance: u8 = if light {
        0
    } else {
        255
    };
    let mut out: Vec<u8> = Vec::new();
    let mut i: usize = 0;
    while i < n
        invariant
            n == glyph.pixels@.len(),
            i <= n,
            luminance == self::luminance(light),
            out@.len() == i,
            forall|j: int| 0 <= j < i ==> out@[j] == recolored(glyph.pixels@, light)[j],
        decreases n - i,
    {
        if i % 4 == 3 {
            out.push(glyph.pixels[i]);
        } else {
            out.push(luminance);
        }
        i = i + 1;
    }
    assert(out@ =~= recolored(glyph.pixels@, light));
    Picture { width: glyph.width, height: glyph.height, pixels: out }
}

/// The tray icon for a task bar, given what the glyph's file decodes to; nothing where that
/// failed.
pub open spec fn themed(
    glyph: Result<(u32, u32, Seq<u8>), Seq<char>>,
    light: bool,
) -> Option<(u32, u32, Seq<u8>)> {
    match glyph {
        Ok((width, height, pixels)) => Some((width, height, recolored(pixels, light))),
        Err(_) => None,
    }
}

/// Size and pixels of a tray icon.
pub open spec fn drawn(icon: Option<Picture>) -> Option<(u32, u32, Seq<u8>)> {
    match icon {
        Some(p) => Some((p.width, p.height, p.pixels@)),
        None => None,
    }
}

/// The tray icon for a task bar, given what the glyph's file decodes to.
pub fn theme_glyph(glyph: Result<Picture, String>, light: bool) -> (r: Option<Picture>)
    requires
        glyph matches Ok(p) ==> p.wf(),
    ensures
        drawn(r) == themed(decoding(glyph), light),
        r matches Some(p) ==> p.wf(),
{
    match glyph {
        Ok(p) => Some(recolor(p, light)),
        Err(_) => None,
    }
}

/// The tray icon for a task bar, from the glyph's file.
pub fn tray_icon_for_theme(file: &[u8], light: bool) -> (r: Option<Picture>)
    ensures
        drawn(r) == themed(decoded(file@), light),
        r matches Some(p) ==> p.wf(),
{
    theme_glyph(load_from_memory(file), light)
}

/// Takes in the task bar's theme, and tells whether the icon is to be drawn again.
pub fn watch_taskbar_theme(current: &mut bool, light: bool) -> (r: bool)
    ensures
        r == (*old(current) != light),
        *final(current) == light,
{
    if *current == light {
        return false;
    }
    *current = light;
    true
}

/// Recolouring keeps the opacity of every pixel and stays in shades of grey; and an icon
/// that is recoloured again looks as if it had been recoloured once.
pub proof fn law_recolouring_keeps_the_shape(pixels: Seq<u8>, first: bool, second: bool)
    ensures
        recolored(pixels, first).len() == pixels.len(),
        forall|i: int|
            0 <= i < pixels.len() && i % 4 == 3 ==> #[trigger] recolored(pixels, first)[i]
                == pixels[i],
        recolored(recolored(pixels, first), second) == recolored(pixels, second),
{
    assert(recolored(recolored(pixels, first), second) =~= recolored(pixels, second));
}

} // verus!
