//! Rectangle geometry for the two layouts the router asks for: the inner
//! area of a bordered panel, and the vertical split that reserves a one-line
//! middle band for the loading message.

use vstd::prelude::*;

verus! {

/// An axis-aligned cell rectangle on the drawable surface.
#[derive(Clone, Copy, Debug, PartialEq, Eq, Structural)]
pub struct Rect {
    pub x: u16,
    pub y: u16,
    pub width: u16,
    pub height: u16,
}

/// A rectangle that lies within the coordinate space: its far edges do not
/// overflow the cell coordinates.
pub open spec fn well_formed(r: Rect) -> bool {
    r.x + r.width <= u16::MAX && r.y + r.height <= u16::MAX
}

/// The inner area left after a one-cell border on all four sides; empty when
/// the rectangle is too small to hold any interior.
pub open spec fn inner_spec(r: Rect) -> Rect {
    if r.width >= 2 && r.height >= 2 {
        Rect {
            x: (r.x + 1) as u16,
            y: (r.y + 1) as u16,
            width: (r.width - 2) as u16,
            height: (r.height - 2) as u16,
        }
    } else {
        Rect { x: r.x, y: r.y, width: 0, height: 0 }
    }
}

/// Shrink a panel's area to the space inside its border.
pub fn inner(r: Rect) -> (i: Rect)
    requires
        well_formed(r),
    ensures
        i == inner_spec(r),
        well_formed(i),
{
    if r.width >= 2 && r.height >= 2 {
        Rect { x: r.x + 1, y: r.y + 1, width: r.width - 2, height: r.height - 2 }
    } else {
        Rect { x: r.x, y: r.y, width: 0, height: 0 }
    }
}

/// Height of the middle band of the loading split: one line, when there is
/// any line to give.
pub open spec fn loading_mid_height(h: int) -> int {
    if h >= 1 {
        1
    } else {
        0
    }
}

/// Height of the band above the loading message: half of what remains.
pub open spec fn loading_top_height(h: int) -> int {
    (h - loading_mid_height(h)) / 2
}

/// Height of the band below the loading message: the rest.
pub open spec fn loading_bottom_height(h: int) -> int {
    h - loading_mid_height(h) - loading_top_height(h)
}

/// Split an area into three vertical bands — half, one line, half — so the
/// loading message sits centered. The bands tile the area exactly: same
/// horizontal extent, contiguous, and their heights sum to the area's.
pub fn split_loading(r: Rect) -> (bands: (Rect, Rect, Rect))
    requires
        well_formed(r),
    ensures
        bands.0.x == r.x && bands.1.x == r.x && bands.2.x == r.x,
        bands.0.width == r.width && bands.1.width == r.width && bands.2.width == r.width,
        bands.0.height as int == loading_top_height(r.height as int),
        bands.1.height as int == loading_mid_height(r.height as int),
        bands.2.height as int == loading_bottom_height(r.height as int),
        bands.0.y == r.y,
        bands.1.y == r.y + bands.0.height,
        bands.2.y == r.y + bands.0.height + bands.1.height,
        bands.0.height + bands.1.height + bands.2.height == r.height,
{
    let mid_h: u16 = if r.height >= 1 { 1 } else { 0 };
    let top_h: u16 = (r.height - mid_h) / 2;
    let bottom_h: u16 = r.height - mid_h - top_h;
    let top = Rect { x: r.x, y: r.y, width: r.width, height: top_h };
    let mid = Rect { x: r.x, y: r.y + top_h, width: r.width, height: mid_h };
    let bottom = Rect { x: r.x, y: r.y + top_h + mid_h, width: r.width, height: bottom_h };
    (top, mid, bottom)
}

/// Height of the band at the top of the banner split: up to three lines.
pub open spec fn banner_top_height(h: int) -> int {
    if h >= 3 {
        3
    } else {
        h
    }
}

/// Height of the band at the bottom of the banner split: up to three lines
/// of what the top band left over.
pub open spec fn banner_bottom_height(h: int) -> int {
    if h - banner_top_height(h) >= 3 {
        3
    } else {
        h - banner_top_height(h)
    }
}

/// Split an area for the banner screen: a band of up to three lines pinned
/// to the top edge and another pinned to the bottom edge, with all the slack
/// between them.
pub fn split_banner(r: Rect) -> (bands: (Rect, Rect))
    requires
        well_formed(r),
    ensures
        bands.0.x == r.x && bands.1.x == r.x,
        bands.0.width == r.width && bands.1.width == r.width,
        bands.0.y == r.y,
        bands.0.height as int == banner_top_height(r.height as int),
        bands.1.height as int == banner_bottom_height(r.height as int),
        bands.1.y == r.y + r.height - bands.1.height,
        bands.0.height + bands.1.height <= r.height,
{
    let top_h: u16 = if r.height >= 3 { 3 } else { r.height };
    let rest: u16 = r.height - top_h;
    let bottom_h: u16 = if rest >= 3 { 3 } else { rest };
    let top = Rect { x: r.x, y: r.y, width: r.width, height: top_h };
    let bottom = Rect {
        x: r.x,
        y: r.y + r.height - bottom_h,
        width: r.width,
        height: bottom_h,
    };
    (top, bottom)
}

/// The column offset that centers a run of `text_len` cells in a row of
/// `width` cells; zero when the text does not fit.
pub fn centered_offset(width: u16, text_len: u16) -> (offset: u16)
    ensures
        offset as int == if text_len <= width {
            (width - text_len) as int / 2
        } else {
            0int
        },
{
    if text_len <= width {
        (width - text_len) / 2
    } else {
        0
    }
}

} // verus!
