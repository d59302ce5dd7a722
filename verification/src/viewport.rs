//! Fitting the image into the window.
//!
//! The image keeps its aspect ratio and is made as large as the window allows:
//! one axis takes the whole window, the other is cut down and snapped to a
//! whole number of the window's pixels. All sizes are pixel counts, so the
//! scale along an axis is a fraction of two of them.

use vstd::prelude::*;
use vstd::arithmetic::div_mod::lemma_fundamental_div_mod;

verus! {

/// The dimensions of the loaded image. Both are positive.
#[derive(Clone, Copy, Debug, PartialEq, Eq)]
pub struct ImageAsset {
    width: u32,
    height: u32,
}

impl ImageAsset {
    #[verifier::type_invariant]
    spec fn positive(self) -> bool {
        self.width > 0 && self.height > 0
    }

    /// The image's width in pixels.
    pub closed spec fn spec_width(self) -> int {
        self.width as int
    }

    /// The image's height in pixels.
    pub closed spec fn spec_height(self) -> int {
        self.height as int
    }

    /// An image of the given dimensions, unless one of them is zero.
    pub fn new(width: u32, height: u32) -> (image: Option<ImageAsset>)
        ensures
            image is Some <==> width > 0 && height > 0,
            image matches Some(i) ==> i.spec_width() == width && i.spec_height() == height,
    {
        if width > 0 && height > 0 {
            Some(ImageAsset { width, height })
        } else {
            None
        }
    }

    /// The image's width in pixels.
    pub fn width(&self) -> (w: u32)
        ensures
            w == self.spec_width(),
            w > 0,
    {
        proof {
            use_type_invariant(self);
        }
        self.width
    }

    /// The image's height in pixels.
    pub fn height(&self) -> (h: u32)
        ensures
            h == self.spec_height(),
            h > 0,
    {
        proof {
            use_type_invariant(self);
        }
        self.height
    }
}

/// The scale along one axis of the window: the image covers `pixels` of the
/// axis's `extent` pixels.
#[derive(Clone, Copy, Debug, PartialEq, Eq, Structural)]
pub struct Scale {
    pub pixels: u32,
    pub extent: u32,
}

impl Scale {
    /// The scale is exactly one: the whole axis is covered.
    pub open spec fn full(self) -> bool {
        self.pixels == self.extent
    }

    /// Decides `full`.
    pub fn is_full(&self) -> (r: bool)
        ensures
            r == self.full(),
    {
        self.pixels == self.extent
    }
}

/// The scale that maps the unit quad onto the fitted image, one factor for
/// each axis, before any zoom.
#[derive(Clone, Copy, Debug, PartialEq, Eq, Structural)]
pub struct Transform {
    pub scale_x: Scale,
    pub scale_y: Scale,
}

impl Transform {
    /// This is the fit of an image of `image_w` by `image_h` pixels into a
    /// window of `window_w` by `window_h` pixels.
    pub open spec fn fits(self, image_w: int, image_h: int, window_w: int, window_h: int) -> bool {
        &&& self.scale_x.pixels == fitted_width(image_w, image_h, window_w, window_h)
        &&& self.scale_x.extent == window_w
        &&& self.scale_y.pixels == fitted_height(image_w, image_h, window_w, window_h)
        &&& self.scale_y.extent == window_h
    }
}

/// The image is relatively taller than the window: its aspect ratio
/// `image_w / image_h` is below the window's `window_w / window_h`.
pub open spec fn relatively_taller(image_w: int, image_h: int, window_w: int, window_h: int) -> bool {
    image_w * window_h < window_w * image_h
}

/// The width in window pixels of the fitted image: the whole window, or, for
/// a relatively taller image, the width that keeps the aspect ratio at full
/// height, rounded down.
pub open spec fn fitted_width(image_w: int, image_h: int, window_w: int, window_h: int) -> int {
    if relatively_taller(image_w, image_h, window_w, window_h) {
        (image_w * window_h) / image_h
    } else {
        window_w
    }
}

/// The height in window pixels of the fitted image: the whole window for a
/// relatively taller image, else the height that keeps the aspect ratio at
/// full width, rounded down.
pub open spec fn fitted_height(image_w: int, image_h: int, window_w: int, window_h: int) -> int {
    if relatively_taller(image_w, image_h, window_w, window_h) {
        window_h
    } else {
        (window_w * image_h) / image_w
    }
}

/// Fits an image of `image_width` by `image_height` pixels into a window of
/// `window_width` by `window_height` pixels.
pub fn compute_transform(
    image_width: u32,
    image_height: u32,
    window_width: u32,
    window_height: u32,
) -> (transform: Transform)
    requires
        image_width > 0,
        image_height > 0,
        window_width > 0,
        window_height > 0,
    ensures
        transform.fits(
            image_width as int,
            image_height as int,
            window_width as int,
            window_height as int,
        ),
        transform.scale_x.pixels <= transform.scale_x.extent,
        transform.scale_y.pixels <= transform.scale_y.extent,
        transform.scale_x.full() || transform.scale_y.full(),
        transform.scale_x.full() && transform.scale_y.full() <==> image_width * window_height
            == window_width * image_height,
{
    proof {
        lemma_long_axis_is_full(
            image_width as int,
            image_height as int,
            window_width as int,
            window_height as int,
        );
    }
    let across: u64 = mul_wide(image_width, window_height);
    let along: u64 = mul_wide(window_width, image_height);
    if across < along {
        let pixels: u64 = across / (image_height as u64);
        proof {
            lemma_floor_bounds(across as int, image_height as int);
            assert(pixels < window_width) by (nonlinear_arith)
                requires
                    pixels * image_height <= across,
                    across < window_width * image_height,
            ;
        }
        Transform {
            scale_x: Scale { pixels: pixels as u32, extent: window_width },
            scale_y: Scale { pixels: window_height, extent: window_height },
        }
    } else {
        let pixels: u64 = along / (image_width as u64);
        proof {
            lemma_floor_bounds(along as int, image_width as int);
            assert(pixels <= window_height) by (nonlinear_arith)
                requires
                    pixels * image_width <= along,
                    along <= image_width * window_height,
                    image_width > 0,
            ;
        }
        Transform {
            scale_x: Scale { pixels: window_width, extent: window_width },
            scale_y: Scale { pixels: pixels as u32, extent: window_height },
        }
    }
}

/// The product of two pixel counts.
fn mul_wide(a: u32, b: u32) -> (product: u64)
    ensures
        product == a * b,
{
    assert(a * b <= 0xffff_ffff * 0xffff_ffff) by (nonlinear_arith)
        requires
            a <= 0xffff_ffff,
            b <= 0xffff_ffff,
    ;
    (a as u64) * (b as u64)
}

/// Where image and window have the same aspect ratio, the image fills the
/// window: both scales are one.
pub proof fn lemma_equal_ratios_fill_window(image_w: int, image_h: int, window_w: int, window_h: int)
    requires
        image_w > 0,
        image_h > 0,
        window_w > 0,
        window_h > 0,
        image_w * window_h == window_w * image_h,
    ensures
        fitted_width(image_w, image_h, window_w, window_h) == window_w,
        fitted_height(image_w, image_h, window_w, window_h) == window_h,
{
    assert((window_h * image_w) / image_w == window_h) by (nonlinear_arith)
        requires
            image_w > 0,
    ;
    assert(window_w * image_h == window_h * image_w) by (nonlinear_arith)
        requires
            image_w * window_h == window_w * image_h,
    ;
}

/// The fitted image never leaves the window, takes the whole of at least one
/// axis, and takes the whole of both only where the aspect ratios are equal.
pub proof fn lemma_long_axis_is_full(image_w: int, image_h: int, window_w: int, window_h: int)
    requires
        image_w > 0,
        image_h > 0,
        window_w > 0,
        window_h > 0,
    ensures
        0 <= fitted_width(image_w, image_h, window_w, window_h) <= window_w,
        0 <= fitted_height(image_w, image_h, window_w, window_h) <= window_h,
        fitted_width(image_w, image_h, window_w, window_h) == window_w || fitted_height(
            image_w,
            image_h,
            window_w,
            window_h,
        ) == window_h,
        fitted_width(image_w, image_h, window_w, window_h) == window_w && fitted_height(
            image_w,
            image_h,
            window_w,
            window_h,
        ) == window_h <==> image_w * window_h == window_w * image_h,
{
    lemma_snapped_side(image_w, image_h, window_w, window_h);
    if relatively_taller(image_w, image_h, window_w, window_h) {
        let p = fitted_width(image_w, image_h, window_w, window_h);
        assert(p < window_w && p >= 0) by (nonlinear_arith)
            requires
                p * image_h <= image_w * window_h,
                image_w * window_h < window_w * image_h,
                image_w * window_h < (p + 1) * image_h,
                image_h > 0,
                image_w > 0,
                window_h > 0,
        ;
    } else {
        let p = fitted_height(image_w, image_h, window_w, window_h);
        assert(p <= window_h && p >= 0 && (p == window_h ==> image_w * window_h == window_w
            * image_h)) by (nonlinear_arith)
            requires
                p * image_w <= window_w * image_h,
                window_w * image_h <= image_w * window_h,
                window_w * image_h < (p + 1) * image_w,
                image_h > 0,
                image_w > 0,
                window_w > 0,
        ;
        if image_w * window_h == window_w * image_h {
            lemma_equal_ratios_fill_window(image_w, image_h, window_w, window_h);
        }
    }
}

/// The cut-down side is the exact aspect-preserving length rounded down to a
/// whole pixel: it is at most that length and less than one pixel below it.
pub proof fn lemma_snapped_side(image_w: int, image_h: int, window_w: int, window_h: int)
    requires
        image_w > 0,
        image_h > 0,
        window_w > 0,
        window_h > 0,
    ensures
        relatively_taller(image_w, image_h, window_w, window_h) ==> ({
            let p = fitted_width(image_w, image_h, window_w, window_h);
            p * image_h <= image_w * window_h < (p + 1) * image_h
        }),
        !relatively_taller(image_w, image_h, window_w, window_h) ==> ({
            let p = fitted_height(image_w, image_h, window_w, window_h);
            p * image_w <= window_w * image_h < (p + 1) * image_w
        }),
{
    if relatively_taller(image_w, image_h, window_w, window_h) {
        lemma_floor_bounds(image_w * window_h, image_h);
    } else {
        lemma_floor_bounds(window_w * image_h, image_w);
    }
}

/// `n / d` is the largest integer whose product with `d` does not exceed `n`.
proof fn lemma_floor_bounds(n: int, d: int)
    requires
        d > 0,
    ensures
        (n / d) * d <= n < (n / d + 1) * d,
{
    lemma_fundamental_div_mod(n, d);
    assert((n / d + 1) * d == (n / d) * d + d) by (nonlinear_arith);
    assert((n / d) * d == d * (n / d)) by (nonlinear_arith);
}

} // verus!
