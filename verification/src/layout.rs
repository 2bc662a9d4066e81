//! Surface layout: splitting a window's pixel area into the fixed-height
//! title-bar rectangle and the content rectangle below it.

use vstd::prelude::*;

verus! {

/// A surface's placement inside its owning window, in logical pixels.
#[derive(Clone, Copy, PartialEq, Eq, Structural, Debug)]
pub struct SurfaceRect {
    pub x: u64,
    pub y: u64,
    pub width: u64,
    pub height: u64,
}

/// The two rectangles a window is split into: the title bar on top and the
/// content area below it.
#[derive(Clone, Copy, PartialEq, Eq, Structural, Debug)]
pub struct SurfaceLayout {
    pub titlebar: SurfaceRect,
    pub content: SurfaceRect,
}

/// True when the point (px, py) lies inside `r`.
pub open spec fn rect_contains(r: SurfaceRect, px: int, py: int) -> bool {
    r.x <= px < r.x + r.width && r.y <= py < r.y + r.height
}

pub open spec fn titlebar_rect_spec(width: u64, bar_height: u64) -> SurfaceRect {
    (SurfaceRect { x: 0, y: 0, width, height: bar_height })
}

pub open spec fn content_rect_spec(width: u64, height: u64, bar_height: u64) -> SurfaceRect {
    (SurfaceRect {
        x: 0,
        y: bar_height,
        width,
        height: if height >= bar_height { (height - bar_height) as u64 } else { 0 },
    })
}

pub open spec fn layout_spec(width: u64, height: u64, bar_height: u64) -> SurfaceLayout {
    (SurfaceLayout {
        titlebar: titlebar_rect_spec(width, bar_height),
        content: content_rect_spec(width, height, bar_height),
    })
}

/// Splits a `width` x `height` window into the title-bar rectangle and the
/// content rectangle; a window shorter than the title bar gets a
/// zero-height content area.
pub fn layout(width: u64, height: u64, bar_height: u64) -> (r: SurfaceLayout)
    ensures
        r == layout_spec(width, height, bar_height),
{
    let content_height: u64 = if height >= bar_height { height - bar_height } else { 0 };
    SurfaceLayout {
        titlebar: SurfaceRect { x: 0, y: 0, width, height: bar_height },
        content: SurfaceRect { x: 0, y: bar_height, width, height: content_height },
    }
}

/// When the window is at least as tall as the title bar, the two rectangles
/// of the layout exactly tile the window: every point of the window lies in
/// exactly one of them, and no point outside the window lies in either.
pub proof fn lemma_layout_tiles(width: u64, height: u64, bar_height: u64, px: int, py: int)
    requires
        bar_height <= height,
    ensures
        ({
            let l = layout_spec(width, height, bar_height);
            &&& (rect_contains(l.titlebar, px, py) || rect_contains(l.content, px, py)) <==> (0
                <= px < width && 0 <= py < height)
            &&& !(rect_contains(l.titlebar, px, py) && rect_contains(l.content, px, py))
        }),
{
}

} // verus!
