//! Integer geometry for image work: paper sizes and centred cropping.
//!
//! The pixel work itself is the host's; what is verified here is the
//! arithmetic that decides which rectangle to keep.

use vstd::prelude::*;

verus! {

/// A paper format in millimetres.
#[derive(Clone, Copy, Debug, PartialEq, Eq, Structural)]
pub struct PaperSize {
    pub x: u32,
    pub y: u32,
}

/// The centred crop rectangle `(x, y, width, height)` for an image of
/// `w` by `h` pixels and a wanted size of `width` by `height`: each axis is
/// capped at the image's own extent, and the kept part sits centred, its
/// offset rounded down.  The rectangle always lies inside the image.
pub fn crop_rect(w: u32, h: u32, width: u32, height: u32) -> (r: (u32, u32, u32, u32))
    ensures
        r.2 == if w > width {
            width
        } else {
            w
        },
        r.0 == if w > width {
            ((w - width) / 2) as u32
        } else {
            0u32
        },
        r.3 == if h > height {
            height
        } else {
            h
        },
        r.1 == if h > height {
            ((h - height) / 2) as u32
        } else {
            0u32
        },
        r.0 + r.2 <= w,
        r.1 + r.3 <= h,
{
    let (cw, cx) = if w > width {
        (width, (w - width) / 2)
    } else {
        (w, 0)
    };
    let (ch, cy) = if h > height {
        (height, (h - height) / 2)
    } else {
        (h, 0)
    };
    (cx, cy, cw, ch)
}

} // verus!
