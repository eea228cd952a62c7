//! Crosshair bitmaps: decoded pixels turned into the window's pixel order,
//! and placed in the middle of the overlay window.
use vstd::prelude::*;

verus! {

/// One pixel, in the byte order that the window takes.
#[derive(Copy, Clone, Debug, PartialEq, Eq, Structural)]
pub struct Bgra {
    pub b: u8,
    pub g: u8,
    pub r: u8,
    pub a: u8,
}

/// A bitmap whose pixels are stored row after row.
pub struct Image {
    pub width: u32,
    pub height: u32,
    pub buffer: Vec<Bgra>,
}

impl Image {
    pub open spec fn wf(&self) -> bool {
        self.buffer@.len() == self.width * self.height
    }
}

/// Pixel `i` of a bitmap whose bytes come four to a pixel, red first.
pub open spec fn rgba_pixel(bytes: Seq<u8>, i: int) -> Bgra {
    Bgra { b: bytes[4 * i + 2], g: bytes[4 * i + 1], r: bytes[4 * i], a: bytes[4 * i + 3] }
}

/// Builds an image from `width * height` pixels of four bytes each, red,
/// green, blue and alpha, row after row. Bytes past those pixels are ignored.
pub fn load_image(width: u32, height: u32, rgba: &[u8]) -> (r: Image)
    requires
        4 * (width * height) <= rgba@.len(),
    ensures
        r.wf(),
        r.width == width,
        r.height == height,
        forall|i: int| 0 <= i < width * height ==> r.buffer@[i] == rgba_pixel(rgba@, i),
{
    let len = rgba.len();
    assert(width * height <= len);
    let n: usize = (width as usize) * (height as usize);
    let mut buffer: Vec<Bgra> = Vec::new();
    let mut i: usize = 0;
    while i < n
        invariant
            n == width * height,
            len == rgba@.len(),
            4 * n <= len,
            i <= n,
            buffer@.len() == i,
            forall|j: int| 0 <= j < i ==> buffer@[j] == rgba_pixel(rgba@, j),
        decreases n - i,
    {
        let k: usize = 4 * i;
        buffer.push(Bgra { b: rgba[k + 2], g: rgba[k + 1], r: rgba[k], a: rgba[k + 3] });
        i = i + 1;
    }
    Image { width, height, buffer }
}

/// Where a span of length `inner` starts when centred in a span of length
/// `outer`: half the difference, rounded toward zero.
pub open spec fn centre_offset(outer: int, inner: int) -> int {
    let d = outer - inner;
    if d >= 0 {
        d / 2
    } else {
        -((-d) / 2)
    }
}

/// What the window shows at column `x`, row `y`, with the image centred in
/// it: the image's pixel there, or nothing where the image does not reach.
pub open spec fn window_pixel(image: &Image, window_width: int, window_height: int, x: int, y: int) -> Option<Bgra> {
    let ix = x - centre_offset(window_width, image.width as int);
    let iy = y - centre_offset(window_height, image.height as int);
    if 0 <= ix < image.width && 0 <= iy < image.height {
        Some(image.buffer@[iy * image.width + ix])
    } else {
        None
    }
}

/// Where the overlay window goes on a monitor: centred across, and two
/// pixels below the centre.
pub fn center_position(monitor_width: u32, monitor_height: u32, window_width: u32, window_height: u32) -> (r: (u32, u32))
    requires
        window_width <= monitor_width,
        window_height <= monitor_height,
    ensures
        r.0 == (monitor_width - window_width) / 2,
        r.1 == (monitor_height - window_height) / 2 + 2,
{
    ((monitor_width - window_width) / 2, (monitor_height - window_height) / 2 + 2)
}

fn centre(outer: u32, inner: u32) -> (r: i64)
    ensures
        r == centre_offset(outer as int, inner as int),
        -0x8000_0000 < r < 0x8000_0000,
{
    let d: i64 = outer as i64 - inner as i64;
    if d >= 0 {
        d / 2
    } else {
        -((-d) / 2)
    }
}

/// The window's pixels, row after row, with the image centred in it.
pub fn fill_window(image: &Image, window_width: u32, window_height: u32) -> (r: Vec<Option<Bgra>>)
    requires
        image.wf(),
        window_width * window_height <= usize::MAX,
    ensures
        r@.len() == window_width * window_height,
        forall|j: int|
            #![trigger r@[j]]
            0 <= j < window_width * window_height ==> r@[j] == window_pixel(
                image,
                window_width as int,
                window_height as int,
                j % (window_width as int),
                j / (window_width as int),
            ),
{
    let n: usize = (window_width as usize) * (window_height as usize);
    let x_offset = centre(window_width, image.width);
    let y_offset = centre(window_height, image.height);
    let mut r: Vec<Option<Bgra>> = Vec::new();
    let mut j: usize = 0;
    while j < n
        invariant
            image.wf(),
            n == window_width * window_height,
            x_offset == centre_offset(window_width as int, image.width as int),
            y_offset == centre_offset(window_height as int, image.height as int),
            -0x8000_0000 < x_offset < 0x8000_0000,
            -0x8000_0000 < y_offset < 0x8000_0000,
            j <= n,
            r@.len() == j,
            forall|k: int|
                #![trigger r@[k]]
                0 <= k < j ==> r@[k] == window_pixel(
                    image,
                    window_width as int,
                    window_height as int,
                    k % (window_width as int),
                    k / (window_width as int),
                ),
        decreases n - j,
    {
        assert(window_width > 0) by (nonlinear_arith)
            requires
                j < n,
                n == window_width * window_height,
        ;
        let x: usize = j % (window_width as usize);
        let y: usize = j / (window_width as usize);
        assert(y < window_height) by (nonlinear_arith)
            requires
                y as int == (j as int) / (window_width as int),
                j < window_width * window_height,
                window_width > 0,
        ;
        let ix: i64 = x as i64 - x_offset;
        let iy: i64 = y as i64 - y_offset;
        if 0 <= ix && ix < image.width as i64 && 0 <= iy && iy < image.height as i64 {
            let pixels = image.buffer.len();
            let w = image.width as usize;
            let (col, row) = (ix as usize, iy as usize);
            assert(row * w + col < image.width * image.height) by (nonlinear_arith)
                requires
                    0 <= col < w,
                    0 <= row < image.height,
                    w == image.width,
            ;
            assert(row * w + col < pixels);
            let index = row * w + col;
            r.push(Some(image.buffer[index]));
        } else {
            r.push(None);
        }
        j = j + 1;
    }
    r
}

} // verus!
