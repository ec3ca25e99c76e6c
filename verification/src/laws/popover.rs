//! Where the popover goes, and what the tray icon looks like.

use vstd::prelude::*;

use crate::picture::{decoded, Picture};
use crate::popover::{
    light_taskbar, place_popover, recolor, set_popover_height, theme_glyph, toggle_popover,
    tray_anchor, tray_icon_for_theme, watch_taskbar_theme, work_area_or_default, IconRect, Toggle,
    TrayAnchor, WorkArea,
};

verus! {

/// The popover hangs from the icon: at its middle, from its top to its bottom; from the click
/// where the icon's size is not known.
pub proof fn law_popovers_hang_from_the_icon(icon: IconRect, x: i32, y: i32, r: TrayAnchor)
    requires
        call_ensures(tray_anchor, (&icon, x, y), r),
        icon.width <= i32::MAX,
        icon.height <= i32::MAX,
        icon.x + icon.width <= i32::MAX,
        icon.y + icon.height <= i32::MAX,
    ensures
        icon.width > 0 && icon.height > 0 ==> {
            &&& 0 <= (icon.x + icon.width - r.center_x) - (r.center_x - icon.x) <= 1
            &&& r.icon_top == icon.y
            &&& r.icon_bottom - r.icon_top == icon.height
        },
        icon.width == 0 || icon.height == 0 ==> r.center_x == x && r.icon_top == y && r.icon_bottom
            == y,
{
}

/// Without a monitor a common work area is taken; a known one as it is.
pub proof fn law_known_work_areas_are_taken(known: Option<WorkArea>, r: WorkArea)
    requires
        call_ensures(work_area_or_default, (known,), r),
    ensures
        known is Some ==> r == known->0,
        known is None ==> r.x == 0 && r.y == 0 && r.width == 1920 && r.height == 1040,
{
}

/// Whether the numbers of a screen are so small that sums of a few of them can be held.
pub open spec fn is_ordinary(a: TrayAnchor, area: WorkArea, w: i32, h: i32) -> bool {
    &&& -0x1000_0000 <= a.center_x <= 0x1000_0000
    &&& -0x1000_0000 <= a.icon_top <= a.icon_bottom <= 0x1000_0000
    &&& -0x1000_0000 <= area.x <= 0x1000_0000
    &&& -0x1000_0000 <= area.y <= 0x1000_0000
    &&& 0 <= area.width <= 0x1000_0000
    &&& 0 <= area.height <= 0x1000_0000
    &&& 0 <= w <= 0x1000_0000
    &&& 0 <= h <= 0x1000_0000
}

/// Whether the middle of an icon, rounded towards zero, lies in the lower half of the work area.
pub open spec fn is_lower(a: TrayAnchor, area: WorkArea) -> bool {
    let both = a.icon_top + a.icon_bottom;
    let middle = if both >= 0 {
        both / 2
    } else {
        -((-both) / 2)
    };
    middle > area.y + area.height as int / 2
}

/// A popover that fits the work area stays inside it, wherever the icon is.
pub proof fn law_popovers_stay_in_the_work_area(a: TrayAnchor, area: WorkArea, w: i32, h: i32, r: (i32, i32))
    requires
        call_ensures(place_popover, (&a, &area, w, h), r),
        is_ordinary(a, area, w, h),
    ensures
        w <= area.width ==> area.x <= r.0 && r.0 + w <= area.x + area.width,
        h <= area.height ==> area.y <= r.1 && r.1 + h <= area.y + area.height,
{
}

/// Across, the popover has the icon in its middle, to within a pixel, where there is room with a
/// margin of 8 pixels on both sides; else it goes as far as the margin lets it.
pub proof fn law_popovers_are_centred_on_the_icon(a: TrayAnchor, area: WorkArea, w: i32, h: i32, r: (i32, i32))
    requires
        call_ensures(place_popover, (&a, &area, w, h), r),
        is_ordinary(a, area, w, h),
        w + 16 <= area.width,
    ensures
        area.x + 8 <= r.0,
        r.0 + w <= area.x + area.width - 8,
        area.x + 8 < r.0 && r.0 + w < area.x + area.width - 8 ==> 0 <= (r.0 + w - a.center_x) - (
        a.center_x - r.0) <= 1,
        w + 16 < area.width && r.0 == area.x + 8 ==> a.center_x - w as int / 2 <= r.0,
        w + 16 < area.width && r.0 + w == area.x + area.width - 8 ==> r.0 <= a.center_x - w as int / 2,
{
}

/// From an icon in the lower half, the popover opens upwards: it ends 6 pixels above the icon, or
/// higher where it would stick out below, and starts no higher than the margin at the top.
pub proof fn law_popovers_open_upwards_from_below(a: TrayAnchor, area: WorkArea, w: i32, h: i32, r: (i32, i32))
    requires
        call_ensures(place_popover, (&a, &area, w, h), r),
        is_ordinary(a, area, w, h),
        is_lower(a, area),
        h + 8 <= area.height,
    ensures
        area.y + 8 <= r.1,
        r.1 + h + 6 == a.icon_top || (r.1 == area.y + 8 && r.1 + h + 6 > a.icon_top) || (r.1 + h
            == area.y + area.height && r.1 + h + 6 < a.icon_top),
{
}

/// From an icon in the upper half, the popover opens downwards: it starts 6 pixels below the icon,
/// or lower where it would stick out above, and ends no lower than the margin at the bottom.
pub proof fn law_popovers_open_downwards_from_above(a: TrayAnchor, area: WorkArea, w: i32, h: i32, r: (i32, i32))
    requires
        call_ensures(place_popover, (&a, &area, w, h), r),
        is_ordinary(a, area, w, h),
        !is_lower(a, area),
        h + 16 <= area.height,
    ensures
        r.1 + h <= area.y + area.height - 8,
        r.1 == a.icon_bottom + 6 || (r.1 + h == area.y + area.height - 8 && r.1 < a.icon_bottom + 6)
            || (r.1 == area.y && r.1 > a.icon_bottom + 6),
{
}

/// Of a popover that is too large, the start stays at the margin where an icon on the screen would
/// push it out.
pub proof fn law_large_popovers_keep_their_start(a: TrayAnchor, area: WorkArea, w: i32, h: i32, r: (i32, i32))
    requires
        call_ensures(place_popover, (&a, &area, w, h), r),
        is_ordinary(a, area, w, h),
        area.x <= a.center_x <= area.x + area.width,
        area.y <= a.icon_top && a.icon_bottom <= area.y + area.height,
    ensures
        area.width < w ==> r.0 == area.x + 8,
        area.height < h ==> area.y <= r.1 <= area.y + 8,
{
}

/// A popover that moves with its monitor and its icon is placed as before.
pub proof fn law_places_are_counted_from_the_monitor(
    a: TrayAnchor,
    area: WorkArea,
    w: i32,
    h: i32,
    b: TrayAnchor,
    other: WorkArea,
    dx: i32,
    r: (i32, i32),
    moved: (i32, i32),
)
    requires
        call_ensures(place_popover, (&a, &area, w, h), r),
        call_ensures(place_popover, (&b, &other, w, h), moved),
        b.center_x == a.center_x + dx,
        b.icon_top == a.icon_top,
        b.icon_bottom == a.icon_bottom,
        other.x == area.x + dx,
        other.y == area.y,
        other.width == area.width,
        other.height == area.height,
    ensures
        moved.0 == r.0 + dx,
        moved.1 == r.1,
{
}

/// A click hides a popover that is there; else it shows it where the icon puts it, and the icon's
/// place is kept.
pub proof fn law_clicks_toggle_the_popover(
    visible: bool,
    kept: &mut Option<TrayAnchor>,
    icon: IconRect,
    click: (i32, i32),
    area: WorkArea,
    w: i32,
    h: i32,
    r: Toggle,
    anchor: TrayAnchor,
    place: (i32, i32),
)
    requires
        call_ensures(toggle_popover, (visible, kept, &icon, click, &area, w, h), r),
        call_ensures(tray_anchor, (&icon, click.0, click.1), anchor),
        call_ensures(place_popover, (&anchor, &area, w, h), place),
    ensures
        visible ==> r is Hide && *final(kept) == *old(kept),
        !visible ==> r == (Toggle::Show { x: place.0, y: place.1 }) && *final(kept) == Some(anchor),
{
}

/// A popover that changes its height is placed by the icon that was last clicked.
pub proof fn law_heights_keep_the_icon(
    kept: Option<TrayAnchor>,
    area: WorkArea,
    w: i32,
    h: i32,
    r: Option<(i32, i32)>,
    place: (i32, i32),
)
    requires
        call_ensures(set_popover_height, (&kept, &area, w, h), r),
        kept is Some ==> call_ensures(place_popover, (&kept->0, &area, w, h), place),
    ensures
        kept is None ==> r is None,
        kept is Some ==> r == Some(place),
{
}

// ---- The icon ------------------------------------------------------------------------

/// The task bar is light only where the system says so.
pub proof fn law_task_bars_are_dark_unless_said(setting: Option<u32>, r: bool)
    requires
        call_ensures(light_taskbar, (setting,), r),
    ensures
        r <==> setting is Some && setting->0 == 1,
{
}

/// The glyph is black on a light task bar and white on a dark one, and as opaque as it was.
pub proof fn law_glyphs_stand_out(glyph: Picture, light: bool, r: Picture, i: int)
    requires
        call_ensures(recolor, (glyph, light), r),
        0 <= i < glyph.pixels@.len(),
    ensures
        r.width == glyph.width,
        r.height == glyph.height,
        r.pixels@.len() == glyph.pixels@.len(),
        i % 4 == 3 ==> r.pixels@[i] == glyph.pixels@[i],
        i % 4 != 3 && light ==> r.pixels@[i] == 0,
        i % 4 != 3 && !light ==> r.pixels@[i] == 255,
{
}

/// The tray icon is the glyph for the task bar; there is none where the glyph cannot be read.
pub proof fn law_icons_are_glyphs_for_the_task_bar(
    glyph: Result<Picture, String>,
    light: bool,
    r: Option<Picture>,
    drawn: Picture,
)
    requires
        call_ensures(theme_glyph, (glyph, light), r),
        glyph is Ok ==> call_ensures(recolor, (glyph->Ok_0, light), drawn),
    ensures
        r is Some <==> glyph is Ok,
        r is Some ==> r->0.width == drawn.width && r->0.height == drawn.height && r->0.pixels@
            == drawn.pixels@,
{
}

/// The glyph's file gives an icon exactly where it can be decoded, of the size that it decodes to.
pub proof fn law_icons_come_from_their_file(file: &[u8], light: bool, r: Option<Picture>)
    requires
        call_ensures(tray_icon_for_theme, (file, light), r),
    ensures
        r is Some <==> decoded(file@) is Ok,
        decoded(file@) matches Ok((width, height, pixels)) ==> r->0.width == width && r->0.height
            == height && r->0.pixels@.len() == pixels.len(),
{
}

/// The icon is drawn again exactly where the theme has changed, and the theme is kept.
pub proof fn law_icons_follow_the_theme(current: &mut bool, light: bool, r: bool)
    requires
        call_ensures(watch_taskbar_theme, (current, light), r),
    ensures
        *final(current) == light,
        r <==> *old(current) != light,
{
}

} // verus!
