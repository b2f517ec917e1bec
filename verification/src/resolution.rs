use vstd::prelude::*;

verus! {

/// Pixel dimensions of a screen, a window, or an output canvas.
/// Both dimensions are non-negative once constructed.
#[derive(Debug, Clone, Copy, PartialEq, Eq, Structural)]
pub struct Resolution {
    pub width: i32,
    pub height: i32,
}

/// The canvas chosen for a raw rectangle `w` by `h` under the normalize
/// policy: the smallest entry of the descending ladder of standard sizes
/// that the rectangle fits into, clamped to the largest entry when the
/// rectangle fits none.
pub open spec fn normalized_resolution(w: int, h: int) -> Resolution {
    if w <= 426 && h <= 240 {
        Resolution { width: 426, height: 240 }
    } else if w <= 640 && h <= 360 {
        Resolution { width: 640, height: 360 }
    } else if w <= 854 && h <= 480 {
        Resolution { width: 854, height: 480 }
    } else if w <= 1280 && h <= 720 {
        Resolution { width: 1280, height: 720 }
    } else if w <= 1920 && h <= 1080 {
        Resolution { width: 1920, height: 1080 }
    } else if w <= 2560 && h <= 1440 {
        Resolution { width: 2560, height: 1440 }
    } else if w <= 3840 && h <= 2160 {
        Resolution { width: 3840, height: 2160 }
    } else {
        Resolution { width: 7680, height: 4320 }
    }
}

/// True when `r` is one of the eight standard canvas sizes.
pub open spec fn is_ladder_size(r: Resolution) -> bool {
    ||| r == Resolution { width: 426, height: 240 }
    ||| r == Resolution { width: 640, height: 360 }
    ||| r == Resolution { width: 854, height: 480 }
    ||| r == Resolution { width: 1280, height: 720 }
    ||| r == Resolution { width: 1920, height: 1080 }
    ||| r == Resolution { width: 2560, height: 1440 }
    ||| r == Resolution { width: 3840, height: 2160 }
    ||| r == Resolution { width: 7680, height: 4320 }
}

/// `v` rounded up to the next multiple of 8 (unchanged when it already
/// is one).
pub open spec fn padded8(v: int) -> int {
    if v % 8 == 0 {
        v
    } else {
        v + (8 - v % 8)
    }
}

/// Rounds one dimension up to the next multiple of 8.
pub fn pad_dimension(v: i32) -> (r: i32)
    requires
        0 <= v,
        v + 7 <= i32::MAX,
    ensures
        r == padded8(v as int),
        r % 8 == 0,
        v % 8 == 0 ==> r == v,
        v % 8 != 0 ==> r == v + (8 - v % 8),
        v <= r < v + 8,
{
    let m = v % 8;
    if m == 0 {
        v
    } else {
        v + (8 - m)
    }
}

impl Resolution {
    /// Both dimensions are non-negative.
    pub open spec fn wf(self) -> bool {
        0 <= self.width && 0 <= self.height
    }

    pub fn new(width: i32, height: i32) -> (r: Resolution)
        requires
            0 <= width,
            0 <= height,
        ensures
            r.width == width,
            r.height == height,
            r.wf(),
    {
        Resolution { width, height }
    }

    /// The canvas for this rectangle under the normalize policy: the
    /// smallest standard ladder size it fits into, clamped to the largest
    /// entry when it fits none.
    pub fn get_normalized_resolution(&self) -> (r: Resolution)
        ensures
            r == normalized_resolution(self.width as int, self.height as int),
            is_ladder_size(r),
    {
        if self.width <= 426 && self.height <= 240 {
            Resolution { width: 426, height: 240 }
        } else if self.width <= 640 && self.height <= 360 {
            Resolution { width: 640, height: 360 }
        } else if self.width <= 854 && self.height <= 480 {
            Resolution { width: 854, height: 480 }
        } else if self.width <= 1280 && self.height <= 720 {
            Resolution { width: 1280, height: 720 }
        } else if self.width <= 1920 && self.height <= 1080 {
            Resolution { width: 1920, height: 1080 }
        } else if self.width <= 2560 && self.height <= 1440 {
            Resolution { width: 2560, height: 1440 }
        } else if self.width <= 3840 && self.height <= 2160 {
            Resolution { width: 3840, height: 2160 }
        } else {
            Resolution { width: 7680, height: 4320 }
        }
    }

    /// The canvas for this rectangle under the raw-pad policy: each
    /// dimension rounded up to the next multiple of 8.
    pub fn get_padded_resolution(&self) -> (r: Resolution)
        requires
            self.wf(),
            self.width + 7 <= i32::MAX,
            self.height + 7 <= i32::MAX,
        ensures
            r.width == padded8(self.width as int),
            r.height == padded8(self.height as int),
            r.width % 8 == 0 && r.height % 8 == 0,
            r.wf(),
    {
        Resolution { width: pad_dimension(self.width), height: pad_dimension(self.height) }
    }
}

/// The pixel area of a canvas.
pub open spec fn area(r: Resolution) -> int {
    r.width * r.height
}

/// Every rectangle no larger than the top ladder entry gets a ladder
/// canvas at least as large as itself in both dimensions: normalization
/// never crops content.
pub proof fn lemma_normalize_covers(w: int, h: int)
    requires
        0 <= w <= 7680,
        0 <= h <= 4320,
    ensures
        is_ladder_size(normalized_resolution(w, h)),
        w <= normalized_resolution(w, h).width,
        h <= normalized_resolution(w, h).height,
{
}

/// Normalization is monotonic: a rectangle no wider and no taller than
/// another gets a canvas of no greater area.
pub proof fn lemma_normalize_monotonic(w1: int, h1: int, w2: int, h2: int)
    requires
        w1 <= w2,
        h1 <= h2,
    ensures
        area(normalized_resolution(w1, h1)) <= area(normalized_resolution(w2, h2)),
{
}

} // verus!
