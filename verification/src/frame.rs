//! Raw frames as pictures: packed YUV 4:2:2 to three bytes per pixel, and
//! three bytes per pixel to the bytes of a bitmap file.

use crate::bytes::{le_bytes, push_le};
use vstd::prelude::*;

verus! {

/// Bytes of a bitmap file before the first pixel.
pub const BMP_HEADER_LEN: usize = 54;

/// Width of the frames that are saved for inspection.
pub const SNAPSHOT_WIDTH: usize = 1280;

/// Height of the frames that are saved for inspection.
pub const SNAPSHOT_HEIGHT: usize = 720;

/// One pixel as red, green and blue.
#[derive(Clone, Copy, Debug, PartialEq, Eq, Structural)]
pub struct Rgb {
    pub r: u8,
    pub g: u8,
    pub b: u8,
}

/// The picture element that a luma and two chroma samples stand for when
/// the samples are taken as they are: luma is green, the first chroma
/// sample blue, the second red.
pub open spec fn rgb_spec(y: u8, u: u8, v: u8) -> Rgb {
    Rgb { r: v, g: y, b: u }
}

/// The three bytes of the pixel made of the samples `y`, `u` and `v`.
pub open spec fn pixel_bytes(y: u8, u: u8, v: u8) -> Seq<u8> {
    seq![rgb_spec(y, u, v).r, rgb_spec(y, u, v).g, rgb_spec(y, u, v).b]
}

/// The bytes of the two pixels that the four bytes at `4 * group` hold.
pub open spec fn group_bytes(data: Seq<u8>, group: int) -> Seq<u8> {
    pixel_bytes(data[4 * group], data[4 * group + 1], data[4 * group + 3]) + pixel_bytes(
        data[4 * group + 2],
        data[4 * group + 1],
        data[4 * group + 3],
    )
}

/// The pixels of the first `groups` groups of four bytes of `data`.
pub open spec fn yuyv_rgb(data: Seq<u8>, groups: nat) -> Seq<u8>
    decreases groups,
{
    if groups == 0 {
        Seq::empty()
    } else {
        yuyv_rgb(data, (groups - 1) as nat) + group_bytes(data, groups - 1)
    }
}

/// The three bytes of pixel `p` of a picture of three bytes per pixel, blue
/// first; a pixel that the picture does not hold in full is black.
pub open spec fn bgr_pixel(buffer: Seq<u8>, p: int) -> Seq<u8> {
    if 3 * p + 2 < buffer.len() {
        seq![buffer[3 * p + 2], buffer[3 * p + 1], buffer[3 * p]]
    } else {
        seq![0u8, 0u8, 0u8]
    }
}

/// The first `n` pixels of row `y` of a picture `w` pixels wide.
pub open spec fn row_pixels(buffer: Seq<u8>, w: int, y: int, n: nat) -> Seq<u8>
    decreases n,
{
    if n == 0 {
        Seq::empty()
    } else {
        row_pixels(buffer, w, y, (n - 1) as nat) + bgr_pixel(buffer, y * w + n - 1)
    }
}

/// Bytes that fill a row of `w` pixels up to a multiple of four bytes.
pub open spec fn row_padding(w: int) -> int {
    (4 - (w * 3) % 4) % 4
}

/// `n` bytes of zero.
pub open spec fn zeros(n: int) -> Seq<u8> {
    Seq::new(n as nat, |i: int| 0u8)
}

/// The first `n` rows of the file of a picture of `w` by `h` pixels: the
/// file begins with the last row of the picture.
pub open spec fn file_rows(buffer: Seq<u8>, w: int, h: int, n: nat) -> Seq<u8>
    decreases n,
{
    if n == 0 {
        Seq::empty()
    } else {
        file_rows(buffer, w, h, (n - 1) as nat) + row_pixels(buffer, w, h - n, w as nat) + zeros(
            row_padding(w),
        )
    }
}

/// The 54 bytes before the first pixel: the file header with the size of
/// the file, then the picture header with width, height, one plane and 24
/// bits per pixel. Numbers are little-endian and keep their low 32 bits.
pub open spec fn bmp_header(w: int, h: int) -> Seq<u8> {
    seq![0x42u8, 0x4Du8] + le_bytes((BMP_HEADER_LEN + 3 * w * h) as nat, 4) + seq![
        0u8,
        0u8,
        0u8,
        0u8,
        54u8,
        0u8,
        0u8,
        0u8,
        40u8,
        0u8,
        0u8,
        0u8,
    ] + le_bytes(w as nat, 4) + le_bytes(h as nat, 4) + seq![1u8, 0u8, 24u8, 0u8] + zeros(24)
}

/// The bytes of the bitmap file of a picture of `w` by `h` pixels.
pub open spec fn bmp_bytes(buffer: Seq<u8>, w: int, h: int) -> Seq<u8> {
    bmp_header(w, h) + file_rows(buffer, w, h, h as nat)
}

/// `yuv::convert::RGBConvert::<u8>::new` with full range and the identity
/// matrix, and `to_rgb` of the converter it gives, on one pixel. That
/// converter copies: luma to green, the first chroma sample to blue, the
/// second to red. The constructor gives a converter for this range and
/// matrix; were it to give none, no pixel comes back.
#[verifier::external_body]
fn identity_to_rgb(y: u8, u: u8, v: u8) -> (rgb: Option<Rgb>)
    ensures
        rgb == Some(rgb_spec(y, u, v)),
{
    match yuv::convert::RGBConvert::<u8>::new(
        yuv::color::Range::Full,
        yuv::color::MatrixCoefficients::Identity,
    ) {
        Ok(converter) => {
            let px = converter.to_rgb(yuv::YUV { y, u, v });
            Some(Rgb { r: px.r, g: px.g, b: px.b })
        },
        Err(_) => None,
    }
}

/// Converts one pixel and appends its red, green and blue byte.
pub fn convert_and_push(y: u8, u: u8, v: u8, result_arr: &mut Vec<u8>)
    ensures
        final(result_arr)@ == old(result_arr)@ + pixel_bytes(y, u, v),
{
    let rgb = match identity_to_rgb(y, u, v) {
        Some(rgb) => rgb,
        None => Rgb { r: 0, g: 0, b: 0 },
    };
    result_arr.push(rgb.r);
    result_arr.push(rgb.g);
    result_arr.push(rgb.b);
    assert(result_arr@ =~= old(result_arr)@ + pixel_bytes(y, u, v));
}

/// The pixels of a frame of packed YUV 4:2:2: every four bytes hold two
/// pixels that share their chroma samples. Bytes after the last whole group
/// are left out.
pub fn yuyv_to_rgb(data: &[u8]) -> (rgb: Vec<u8>)
    ensures
        rgb@ == yuyv_rgb(data@, data@.len() / 4),
{
    let total: usize = data.len();
    let groups: usize = total / 4;
    let mut rgb: Vec<u8> = Vec::new();
    let mut i: usize = 0;
    while i < groups
        invariant
            i <= groups,
            total == data@.len(),
            groups == total / 4,
            rgb@ == yuyv_rgb(data@, i as nat),
        decreases groups - i,
    {
        let y1: u8 = data[4 * i];
        let u: u8 = data[4 * i + 1];
        let y2: u8 = data[4 * i + 2];
        let v: u8 = data[4 * i + 3];
        let ghost before = rgb@;
        convert_and_push(y1, u, v, &mut rgb);
        convert_and_push(y2, u, v, &mut rgb);
        assert(rgb@ =~= before + group_bytes(data@, i as int));
        i = i + 1;
    }
    rgb
}

/// Appends `n` bytes of zero.
fn push_zeros(out: &mut Vec<u8>, n: usize)
    ensures
        final(out)@ == old(out)@ + zeros(n as int),
{
    let mut i: usize = 0;
    while i < n
        invariant
            i <= n,
            out@ == old(out)@ + zeros(i as int),
        decreases n - i,
    {
        out.push(0);
        assert(out@ =~= old(out)@ + zeros(i + 1));
        i = i + 1;
    }
}

/// Appends the three bytes of pixel `p`, blue first.
fn push_bgr(out: &mut Vec<u8>, buffer: &[u8], p: usize)
    requires
        3 * p + 2 <= usize::MAX,
    ensures
        final(out)@ == old(out)@ + bgr_pixel(buffer@, p as int),
{
    if 3 * p + 2 < buffer.len() {
        out.push(buffer[3 * p + 2]);
        out.push(buffer[3 * p + 1]);
        out.push(buffer[3 * p]);
    } else {
        out.push(0);
        out.push(0);
        out.push(0);
    }
    assert(out@ =~= old(out)@ + bgr_pixel(buffer@, p as int));
}

/// The bytes of the bitmap file that shows the picture in `buffer`, which
/// holds `w` by `h` pixels of three bytes each, red first, row after row
/// from the top. There is no file for a picture whose pixels take more
/// bytes than a length can say.
pub fn save_bmp(buffer: &[u8], w: usize, h: usize) -> (file: Option<Vec<u8>>)
    ensures
        file is Some <==> BMP_HEADER_LEN + 3 * w * h <= usize::MAX,
        file matches Some(bytes) ==> bytes@ == bmp_bytes(buffer@, w as int, h as int),
{
    let pixels: usize = match w.checked_mul(h) {
        Some(pixels) => pixels,
        None => {
            assert(3 * (w * h) == 3 * w * h) by (nonlinear_arith);
            return None;
        },
    };
    assert(3 * (w * h) == 3 * w * h) by (nonlinear_arith);
    let filesize: usize = match pixels.checked_mul(3) {
        Some(bytes) => match bytes.checked_add(BMP_HEADER_LEN) {
            Some(filesize) => filesize,
            None => {
                return None;
            },
        },
        None => {
            return None;
        },
    };
    let mut out: Vec<u8> = Vec::new();
    out.push(0x42);
    out.push(0x4D);
    push_le(filesize as u128, 4, &mut out);
    push_zeros(&mut out, 4);
    push_le(54, 4, &mut out);
    push_le(40, 4, &mut out);
    push_le(w as u128, 4, &mut out);
    push_le(h as u128, 4, &mut out);
    out.push(1);
    out.push(0);
    out.push(24);
    out.push(0);
    push_zeros(&mut out, 24);
    proof {
        reveal_with_fuel(le_bytes, 5);
        assert(le_bytes(54, 4) =~= seq![54u8, 0u8, 0u8, 0u8]);
        assert(le_bytes(40, 4) =~= seq![40u8, 0u8, 0u8, 0u8]);
        assert(zeros(4) =~= seq![0u8, 0u8, 0u8, 0u8]);
        assert(out@ =~= bmp_header(w as int, h as int));
    }
    let ghost header = out@;
    let padding: usize = (4 - (w % 4 * 3) % 4) % 4;
    assert(padding == row_padding(w as int)) by (nonlinear_arith)
        requires
            padding == (4 - (w % 4 * 3) % 4) % 4,
            w >= 0,
    ;
    let mut i: usize = 0;
    while i < h
        invariant
            i <= h,
            w * h == pixels,
            3 * pixels + BMP_HEADER_LEN <= usize::MAX,
            padding == row_padding(w as int),
            header == bmp_header(w as int, h as int),
            out@ == header + file_rows(buffer@, w as int, h as int, i as nat),
        decreases h - i,
    {
        let y: usize = h - i - 1;
        assert(y * w + w <= w * h) by (nonlinear_arith)
            requires
                y + 1 <= h,
        ;
        let ghost rows = out@;
        let mut x: usize = 0;
        while x < w
            invariant
                x <= w,
                y * w + w <= pixels,
                3 * pixels + BMP_HEADER_LEN <= usize::MAX,
                out@ == rows + row_pixels(buffer@, w as int, y as int, x as nat),
            decreases w - x,
        {
            push_bgr(&mut out, buffer, y * w + x);
            assert(out@ =~= rows + row_pixels(buffer@, w as int, y as int, (x + 1) as nat));
            x = x + 1;
        }
        push_zeros(&mut out, padding);
        assert(out@ =~= header + file_rows(buffer@, w as int, h as int, (i + 1) as nat));
        i = i + 1;
    }
    Some(out)
}

/// The bytes of the bitmap file that shows a frame of packed YUV 4:2:2 as a
/// picture of 1280 by 720 pixels.
pub fn convert_write_bmp(result: &[u8]) -> (file: Vec<u8>)
    ensures
        file@ == bmp_bytes(
            yuyv_rgb(result@, result@.len() / 4),
            SNAPSHOT_WIDTH as int,
            SNAPSHOT_HEIGHT as int,
        ),
{
    let rgb = yuyv_to_rgb(result);
    match save_bmp(rgb.as_slice(), SNAPSHOT_WIDTH, SNAPSHOT_HEIGHT) {
        Some(file) => file,
        None => Vec::new(),
    }
}

} // verus!
