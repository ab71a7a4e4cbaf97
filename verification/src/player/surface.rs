//! Where in the window the video is shown.
use crate::wrapping::low_half;
use crate::wrapping::to_low_half;
use vstd::prelude::*;

verus! {

/// The space around the video.
pub const PLAYER_SURFACE_PADDING: u32 = 0;

/// The height of the controls below the video.
pub const PLAYER_DOCK_HEIGHT: u32 = 72;

/// A rectangle of pixels.
#[derive(Debug, Clone, Copy, PartialEq, Eq, Structural)]
pub struct PlayerSurfaceBounds {
    pub left: i32,
    pub top: i32,
    pub width: i32,
    pub height: i32,
}

/// What is left of a side of the window when `reserved` pixels are taken away, at
/// least one.
pub open spec fn remaining(side: u32, reserved: int) -> u32 {
    if side - reserved > 1 {
        (side - reserved) as u32
    } else {
        1
    }
}

/// The rectangle of a window that is above the controls. A side that does not fit
/// in an `i32` wraps around.
pub open spec fn default_bounds(width: u32, height: u32) -> PlayerSurfaceBounds {
    PlayerSurfaceBounds {
        left: PLAYER_SURFACE_PADDING as i32,
        top: PLAYER_SURFACE_PADDING as i32,
        width: low_half(remaining(width, PLAYER_SURFACE_PADDING * 2) as int) as i32,
        height: low_half(
            remaining(height, PLAYER_DOCK_HEIGHT + PLAYER_SURFACE_PADDING * 2) as int,
        ) as i32,
    }
}

fn at_least_one(n: u32) -> (r: u32)
    ensures
        r == if n > 1 {
            n
        } else {
            1
        },
{
    if n > 1 {
        n
    } else {
        1
    }
}

/// The part of a window of the given size that the video fills.
pub fn default_surface_bounds(width: u32, height: u32) -> (r: PlayerSurfaceBounds)
    ensures
        r == default_bounds(width, height),
{
    let reserved_bottom: u32 = PLAYER_DOCK_HEIGHT + PLAYER_SURFACE_PADDING * 2;
    PlayerSurfaceBounds {
        left: PLAYER_SURFACE_PADDING as i32,
        top: PLAYER_SURFACE_PADDING as i32,
        width: to_low_half(at_least_one(width.saturating_sub(PLAYER_SURFACE_PADDING * 2)) as i64),
        height: to_low_half(at_least_one(height.saturating_sub(reserved_bottom)) as i64),
    }
}

/// The rectangle that was asked for, where it is one, or else the default.
pub open spec fn resolved_bounds(
    asked: Option<PlayerSurfaceBounds>,
    width: u32,
    height: u32,
) -> PlayerSurfaceBounds {
    match asked {
        Some(b) => if b.width > 0 && b.height > 0 {
            b
        } else {
            default_bounds(width, height)
        },
        None => default_bounds(width, height),
    }
}

/// Where the video is shown in a window of the given size.
pub fn resolve_surface_bounds(asked: Option<PlayerSurfaceBounds>, width: u32, height: u32) -> (r:
    PlayerSurfaceBounds)
    ensures
        r == resolved_bounds(asked, width, height),
{
    match asked {
        Some(b) => if b.width > 0 && b.height > 0 {
            b
        } else {
            default_surface_bounds(width, height)
        },
        None => default_surface_bounds(width, height),
    }
}

impl PlayerSurfaceBounds {
    /// The rectangle with its sides at least one pixel long.
    pub open spec fn drawable(self) -> PlayerSurfaceBounds {
        PlayerSurfaceBounds {
            width: if self.width > 1 {
                self.width
            } else {
                1
            },
            height: if self.height > 1 {
                self.height
            } else {
                1
            },
            ..self
        }
    }

    /// The rectangle with its sides at least one pixel long.
    pub fn to_drawable(self) -> (r: PlayerSurfaceBounds)
        ensures
            r == self.drawable(),
    {
        let width: i32 = if self.width > 1 {
            self.width
        } else {
            1
        };
        let height: i32 = if self.height > 1 {
            self.height
        } else {
            1
        };
        PlayerSurfaceBounds { left: self.left, top: self.top, width, height }
    }

    /// The rectangle at another place.
    pub fn moved_to(self, left: i32, top: i32) -> (r: PlayerSurfaceBounds)
        ensures
            r == (PlayerSurfaceBounds { left, top, ..self }),
    {
        PlayerSurfaceBounds { left, top, width: self.width, height: self.height }
    }
}

/// In a window whose sides fit in an `i32` the video is always shown in a
/// rectangle that is not empty, and the default one lies within the window where
/// the window is larger than the controls.
pub proof fn law_surface_is_not_empty(asked: Option<PlayerSurfaceBounds>, width: u32, height: u32)
    requires
        width <= i32::MAX,
        height <= i32::MAX,
    ensures
        resolved_bounds(asked, width, height).width >= 1,
        resolved_bounds(asked, width, height).height >= 1,
        resolved_bounds(asked, width, height).drawable() == resolved_bounds(asked, width, height),
        width > 0 && height > PLAYER_DOCK_HEIGHT ==> default_bounds(width, height).width == width
            && default_bounds(width, height).height == height - PLAYER_DOCK_HEIGHT,
{
}

/// A rectangle that was asked for is used exactly if it is not empty; otherwise the whole
/// window is, from its corner, but for the controls at the bottom.
pub proof fn law_rectangle_asked_for_is_used(
    asked: PlayerSurfaceBounds,
    width: u32,
    height: u32,
)
    requires
        width <= i32::MAX,
        height <= i32::MAX,
    ensures
        asked.width > 0 && asked.height > 0 ==> resolved_bounds(Some(asked), width, height) == asked,
        !(asked.width > 0 && asked.height > 0) ==> resolved_bounds(Some(asked), width, height)
            == resolved_bounds(None, width, height),
        resolved_bounds(None, width, height).left == 0,
        resolved_bounds(None, width, height).top == 0,
        width >= 1 ==> resolved_bounds(None, width, height).width == width,
        height >= 73 ==> resolved_bounds(None, width, height).height == height - 72,
        height < 73 ==> resolved_bounds(None, width, height).height == 1,
{
}

/// What is drawn is the rectangle itself, with sides that are at least one pixel long.
pub proof fn law_drawn_rectangle(bounds: PlayerSurfaceBounds)
    ensures
        bounds.drawable().left == bounds.left && bounds.drawable().top == bounds.top,
        bounds.drawable().width >= 1 && bounds.drawable().height >= 1,
        bounds.width >= 1 ==> bounds.drawable().width == bounds.width,
        bounds.width < 1 ==> bounds.drawable().width == 1,
        bounds.height >= 1 ==> bounds.drawable().height == bounds.height,
        bounds.height < 1 ==> bounds.drawable().height == 1,
{
}

/// Seventy-two rows of a window are kept for the controls, below the video, and the video
/// has at least one row and one column.
pub proof fn law_rows_for_the_controls(width: u32, height: u32)
    requires
        width <= i32::MAX,
        height <= i32::MAX,
    ensures
        ({
            let bounds = default_bounds(width, height);
            &&& bounds.left == 0 && bounds.top == 0
            &&& width > 0 ==> bounds.width == width
            &&& width == 0 ==> bounds.width == 1
            &&& height > 72 ==> bounds.height == height - 72
            &&& height <= 72 ==> bounds.height == 1
        }),
{
}

}
