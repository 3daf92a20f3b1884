//! The software framebuffer: a row-major grid of RGBA pixels per window.
use vstd::prelude::*;

verus! {

/// One RGBA pixel.
#[derive(Debug, Clone, Copy, PartialEq, Eq, Structural)]
pub struct Pixel {
    pub r: u8,
    pub g: u8,
    pub b: u8,
    pub a: u8,
}

/// Transparent black, the value of a fresh framebuffer.
pub open spec fn transparent() -> Pixel {
    Pixel { r: 0, g: 0, b: 0, a: 0 }
}

/// Opaque white, the background a render starts from.
pub open spec fn opaque_white() -> Pixel {
    Pixel { r: 255, g: 255, b: 255, a: 255 }
}

impl Default for Pixel {
    fn default() -> (p: Pixel)
        ensures
            p == transparent(),
    {
        Pixel { r: 0, g: 0, b: 0, a: 0 }
    }
}

/// Render path of a window.
#[derive(Debug, Clone, Copy, PartialEq, Eq, Structural)]
pub enum RenderMode {
    /// Software rendering into the framebuffer.
    Software,
    /// Rendering on the GPU.
    Gpu,
}

impl Default for RenderMode {
    fn default() -> (m: RenderMode)
        ensures
            m == RenderMode::Software,
    {
        RenderMode::Software
    }
}

/// A buffer of `n` copies of `p`.
pub fn filled(p: Pixel, n: usize) -> (v: Vec<Pixel>)
    ensures
        v@ == Seq::new(n as nat, |_i: int| p),
{
    let mut v: Vec<Pixel> = Vec::with_capacity(n);
    let mut i: usize = 0;
    while i < n
        invariant
            i <= n,
            v@ == Seq::new(i as nat, |_i: int| p),
        decreases n - i,
    {
        v.push(p);
        i = i + 1;
        assert(v@ =~= Seq::new(i as nat, |_i: int| p));
    }
    v
}

/// Sets every pixel of `fb` to `p`.
pub fn fill(fb: &mut Vec<Pixel>, p: Pixel)
    ensures
        final(fb)@ == Seq::new(old(fb)@.len(), |_i: int| p),
{
    let n = fb.len();
    let mut i: usize = 0;
    while i < n
        invariant
            n == fb.len(),
            i <= n,
            fb@.len() == n,
            forall|j: int| 0 <= j < i ==> fb@[j] == p,
        decreases n - i,
    {
        fb.set(i, p);
        i = i + 1;
    }
    assert(fb@ =~= Seq::new(n as nat, |_i: int| p));
}

/// `fb` resized to `n` pixels: kept up to `n`, then padded with `p`.
pub open spec fn resized(fb: Seq<Pixel>, n: nat, p: Pixel) -> Seq<Pixel> {
    Seq::new(n, |i: int| if i < fb.len() { fb[i] } else { p })
}

/// Resizes `fb` to `n` pixels, padding with `p`.
pub fn resize(fb: &mut Vec<Pixel>, n: usize, p: Pixel)
    ensures
        final(fb)@ == resized(old(fb)@, n as nat, p),
{
    let ghost orig = old(fb)@;
    if fb.len() > n {
        fb.truncate(n);
    } else {
        assert(fb@ =~= resized(orig, fb@.len(), p));
        while fb.len() < n
            invariant
                orig.len() <= fb@.len() <= n,
                fb@ == resized(orig, fb@.len(), p),
            decreases n - fb.len(),
        {
            fb.push(p);
            assert(fb@ =~= resized(orig, fb@.len(), p));
        }
    }
    assert(fb@ =~= resized(old(fb)@, n as nat, p));
}

/// The pixel at `(x, y)` of a `width` x `height` buffer, or transparent
/// black outside the window or past the end of the buffer.
pub open spec fn pixel_at(fb: Seq<Pixel>, width: u32, height: u32, x: i32, y: i32) -> Pixel {
    if 0 <= x && 0 <= y && x < width && y < height && y * width + x < fb.len() {
        fb[y * width + x]
    } else {
        transparent()
    }
}

/// Samples the pixel at `(x, y)`.
pub fn sample(fb: &Vec<Pixel>, width: u32, height: u32, x: i32, y: i32) -> (p: Pixel)
    ensures
        p == pixel_at(fb@, width, height, x, y),
{
    if x >= 0 && y >= 0 && (x as u32) < width && (y as u32) < height {
        let xu = x as u64;
        let yu = y as u64;
        assert(yu * width <= 0xffff_ffff * 0xffff_ffff) by (nonlinear_arith)
            requires
                yu <= 0xffff_ffff,
                width <= 0xffff_ffff,
        ;
        let idx = yu * (width as u64) + xu;
        if idx < fb.len() as u64 {
            return fb[idx as usize];
        }
    }
    Pixel { r: 0, g: 0, b: 0, a: 0 }
}

/// Each channel of `p` lies within its range.
pub open spec fn in_range(p: Pixel, r_min: u8, r_max: u8, g_min: u8, g_max: u8, b_min: u8, b_max: u8) -> bool {
    r_min <= p.r <= r_max && g_min <= p.g <= g_max && b_min <= p.b <= b_max
}

/// Whether some pixel of `fb` lies within the channel ranges.
pub fn any_in_range(fb: &Vec<Pixel>, r_min: u8, r_max: u8, g_min: u8, g_max: u8, b_min: u8, b_max: u8) -> (found: bool)
    ensures
        found == exists|i: int| 0 <= i < fb@.len() && in_range(fb@[i], r_min, r_max, g_min, g_max, b_min, b_max),
{
    let mut i: usize = 0;
    while i < fb.len()
        invariant
            i <= fb.len(),
            forall|j: int| 0 <= j < i ==> !in_range(fb@[j], r_min, r_max, g_min, g_max, b_min, b_max),
        decreases fb.len() - i,
    {
        let p = fb[i];
        if p.r >= r_min && p.r <= r_max && p.g >= g_min && p.g <= g_max && p.b >= b_min && p.b <= b_max {
            return true;
        }
        i = i + 1;
    }
    false
}

/// The column or row span `[start, end)` that a rectangle covers on a
/// buffer axis of length `limit`: the start and the end `origin + extent`
/// clamped to `[0, limit]`, so a rectangle wholly before the buffer covers
/// nothing.
pub open spec fn span(origin: i32, extent: i32, limit: u32) -> (u32, u32) {
    let start = if origin < 0 { 0u32 } else { origin as u32 };
    let end_raw = if origin + extent < 0 { 0u32 } else { (origin + extent) as u32 };
    let end = if end_raw < limit { end_raw } else { limit };
    (start, end)
}

/// The span of a rectangle edge on one axis (see `span`).
pub fn rect_span(origin: i32, extent: i32, limit: u32) -> (r: (u32, u32))
    requires
        i32::MIN <= origin + extent <= i32::MAX,
    ensures
        r == span(origin, extent, limit),
{
    let start: u32 = if origin < 0 { 0 } else { origin as u32 };
    let edge: i32 = origin + extent;
    let end_raw: u32 = if edge < 0 { 0 } else { edge as u32 };
    let end = if end_raw < limit { end_raw } else { limit };
    (start, end)
}

/// Whether pixel `(px, py)` of a `width`-wide buffer lies in the rectangle.
pub open spec fn covered(x: i32, y: i32, w: i32, h: i32, width: u32, height: u32, px: int, py: int) -> bool {
    let (xs, xe) = span(x, w, width);
    let (ys, ye) = span(y, h, height);
    xs <= px < xe && ys <= py < ye
}

/// `fb` after filling the rectangle with the opaque colour `color`: each
/// covered pixel whose index lies in the buffer takes the colour.
pub open spec fn filled_rect(fb: Seq<Pixel>, width: u32, height: u32, x: i32, y: i32, w: i32, h: i32, color: Pixel) -> Seq<Pixel> {
    Seq::new(
        fb.len(),
        |i: int|
            if width > 0 && covered(x, y, w, h, width, height, i % (width as int), i / (width as int)) {
                color
            } else {
                fb[i]
            },
    )
}

/// Fills the covered part of a rectangle with an opaque colour (alpha 255).
pub fn fill_rect_opaque(fb: &mut Vec<Pixel>, width: u32, height: u32, x: i32, y: i32, w: i32, h: i32, color: Pixel)
    requires
        i32::MIN <= x + w <= i32::MAX,
        i32::MIN <= y + h <= i32::MAX,
    ensures
        final(fb)@ == filled_rect(old(fb)@, width, height, x, y, w, h, color),
{
    let (xs, xe) = rect_span(x, w, width);
    let (ys, ye) = rect_span(y, h, height);
    let ghost target = filled_rect(old(fb)@, width, height, x, y, w, h, color);
    let ghost orig = old(fb)@;
    let n = fb.len();
    // Visit every index once; the cover test only looks at coordinates.
    let mut i: usize = 0;
    while i < n
        invariant
            n == fb.len(),
            i <= n,
            fb@.len() == orig.len(),
            (xs, xe) == span(x, w, width),
            (ys, ye) == span(y, h, height),
            target == filled_rect(orig, width, height, x, y, w, h, color),
            forall|j: int| 0 <= j < i ==> fb@[j] == target[j],
            forall|j: int| i <= j < n ==> fb@[j] == orig[j],
        decreases n - i,
    {
        if width > 0 {
            let px = (i as u64 % width as u64) as u32;
            let py = i as u64 / width as u64;
            if xs <= px && px < xe && (ys as u64) <= py && py < (ye as u64) {
                fb.set(i, color);
            }
        }
        i = i + 1;
    }
    assert(fb@ =~= target);
}

} // verus!
