//! Conversion of raw camera pixel buffers to tightly packed, top-down RGB24.

use vstd::prelude::*;
use vstd::arithmetic::div_mod::lemma_fundamental_div_mod_converse;
use crate::text::{chars_of, contains_seq};

verus! {

/// `x` limited to the byte range.
pub open spec fn clamp_byte(x: int) -> u8 {
    if x < 0 {
        0
    } else if x > 255 {
        255
    } else {
        x as u8
    }
}

/// Red channel of BT.601 in fixed point, with `v` already centred on zero.
pub open spec fn red_of(y: int, v: int) -> u8 {
    clamp_byte((y * 256 + 359 * v) / 256)
}

/// Green channel of BT.601 in fixed point, with `u`, `v` centred on zero.
pub open spec fn green_of(y: int, u: int, v: int) -> u8 {
    clamp_byte((y * 256 - 88 * u - 183 * v) / 256)
}

/// Blue channel of BT.601 in fixed point, with `u` centred on zero.
pub open spec fn blue_of(y: int, u: int) -> u8 {
    clamp_byte((y * 256 + 454 * u) / 256)
}

/// Channel `k` (0 red, 1 green, 2 blue) of the BT.601 conversion.
pub open spec fn yuv_channel(y: int, u: int, v: int, k: int) -> u8 {
    if k == 0 {
        red_of(y, v)
    } else if k == 1 {
        green_of(y, u, v)
    } else {
        blue_of(y, u)
    }
}

/// `x >> 8` on a signed value: division by 256 rounded down.
fn shr8(x: i32) -> (r: i32)
    ensures
        r as int == x as int / 256,
{
    if x >= 0 {
        x / 256
    } else {
        let r = -((-(x as i64) + 255) / 256);
        r as i32
    }
}

fn clamp_to_byte(x: i32) -> (r: u8)
    ensures
        r == clamp_byte(x as int),
{
    if x < 0 {
        0
    } else if x > 255 {
        255
    } else {
        x as u8
    }
}

/// One BT.601 channel in fixed point.
fn yuv_to_channel(y: i32, u: i32, v: i32, k: usize) -> (r: u8)
    requires
        0 <= y <= 255,
        -128 <= u <= 127,
        -128 <= v <= 127,
        k < 3,
    ensures
        r == yuv_channel(y as int, u as int, v as int, k as int),
{
    if k == 0 {
        clamp_to_byte(shr8(y * 256 + 359 * v))
    } else if k == 1 {
        clamp_to_byte(shr8(y * 256 - 88 * u - 183 * v))
    } else {
        clamp_to_byte(shr8(y * 256 + 454 * u))
    }
}

/// Byte `k` of output pixel `q` of a BGR bottom-up image.
pub open spec fn bgr_source_index(width: int, height: int, q: int, k: int) -> int {
    (height - 1 - q / width) * (width * 3) + (q % width) * 3 + (2 - k)
}

/// `rgb` is the RGB24 top-down form of the BGR24 bottom-up image `bgr`, or
/// empty when `bgr` is too short.
pub open spec fn bgr_converted(bgr: Seq<u8>, width: int, height: int, rgb: Seq<u8>) -> bool {
    &&& bgr.len() < width * height * 3 ==> rgb.len() == 0
    &&& bgr.len() >= width * height * 3 ==> {
            &&& rgb.len() == width * height * 3
            &&& forall|q: int, k: int|
                0 <= q < width * height && 0 <= k < 3 ==> #[trigger] rgb[q * 3 + k] == bgr[bgr_source_index(
                    width,
                    height,
                    q,
                    k,
                )]
        }
}

/// Flips a BGR24 bottom-up image to RGB24 top-down. An input shorter than
/// `width * height * 3` bytes gives an empty result.
pub fn convert_bgr_bottom_up_to_rgb(bgr: &[u8], width: usize, height: usize) -> (rgb: Vec<u8>)
    requires
        width * height * 3 <= usize::MAX,
    ensures
        bgr_converted(bgr@, width as int, height as int, rgb@),
{
    if height == 0 {
        return Vec::new();
    }
    proof {
        assert(width * 3 * height == width * height * 3) by (nonlinear_arith);
        assert(width * 3 <= width * height * 3) by (nonlinear_arith)
            requires
                height >= 1,
        ;
    }
    let stride = width * 3;
    let expected = stride * height;
    if bgr.len() < expected {
        return Vec::new();
    }
    let mut rgb: Vec<u8> = vec![0u8; expected];
    let mut row: usize = 0;
    let mut done: usize = 0;
    while row < height
        invariant
            done == row * width,
            stride == width * 3,
            expected == width * height * 3,
            bgr@.len() >= expected,
            rgb@.len() == expected,
            row <= height,
            forall|q: int, k: int|
                0 <= q < done && 0 <= k < 3 ==> #[trigger] rgb@[q * 3 + k] == bgr@[bgr_source_index(
                    width as int,
                    height as int,
                    q,
                    k,
                )],
        decreases height - row,
    {
        proof {
            assert((height - 1 - row) * stride + stride <= height * stride) by (nonlinear_arith)
                requires
                    row < height,
            ;
            assert(row * width + width <= height * width) by (nonlinear_arith)
                requires
                    row < height,
            ;
            assert(height * stride == expected) by (nonlinear_arith)
                requires
                    stride == width * 3,
                    expected == width * height * 3,
            ;
        }
        let src_start = (height - 1 - row) * stride;
        let dst_pixel = row * width;
        let mut col: usize = 0;
        while col < width
            invariant
                stride == width * 3,
                expected == width * height * 3,
                bgr@.len() >= expected,
                rgb@.len() == expected,
                row < height,
                col <= width,
                src_start == (height - 1 - row) * stride,
                src_start + stride <= expected,
                dst_pixel == row * width,
                dst_pixel + width <= width * height,
                forall|q: int, k: int|
                    0 <= q < dst_pixel + col && 0 <= k < 3 ==> #[trigger] rgb@[q * 3 + k]
                        == bgr@[bgr_source_index(width as int, height as int, q, k)],
            decreases width - col,
        {
            let q = dst_pixel + col;
            proof {
                lemma_fundamental_div_mod_converse(q as int, width as int, row as int, col as int);
            }
            let s = src_start + col * 3;
            let d = q * 3;
            rgb.set(d, bgr[s + 2]);
            rgb.set(d + 1, bgr[s + 1]);
            rgb.set(d + 2, bgr[s]);
            proof {
                assert forall|q2: int, k: int|
                    0 <= q2 < dst_pixel + col + 1 && 0 <= k < 3 implies #[trigger] rgb@[q2 * 3 + k]
                        == bgr@[bgr_source_index(width as int, height as int, q2, k)] by {
                    if q2 == q {
                        assert(bgr_source_index(width as int, height as int, q2, k) == s + 2 - k);
                    }
                }
            }
            col += 1;
        }
        proof {
            assert((row + 1) * width == row * width + width) by (nonlinear_arith);
        }
        row += 1;
        done = dst_pixel + width;
    }
    proof {
        assert(row * width == width * height) by (nonlinear_arith)
            requires
                row == height,
        ;
    }
    rgb
}

/// Output byte `j` of a YUY2 conversion: macro-pixel `j / 6` gives two
/// pixels, the first from `Y0` and the second from `Y1`, sharing `U` and `V`.
pub open spec fn yuy2_byte(yuy2: Seq<u8>, j: int) -> u8 {
    let i = j / 6;
    let r = j % 6;
    let y = if r < 3 { yuy2[4 * i] } else { yuy2[4 * i + 2] };
    yuv_channel(y as int, yuy2[4 * i + 1] - 128, yuy2[4 * i + 3] - 128, r % 3)
}

/// `rgb` is the RGB24 form of the YUY2 image `yuy2`, or empty when `yuy2` is
/// too short or a dimension is zero.
pub open spec fn yuy2_converted(yuy2: Seq<u8>, width: int, height: int, rgb: Seq<u8>) -> bool {
    &&& (yuy2.len() < width * height * 2 || width == 0 || height == 0) ==> rgb.len() == 0
    &&& !(yuy2.len() < width * height * 2 || width == 0 || height == 0) ==> {
        &&& rgb.len() == width * height * 3
        &&& forall|j: int| 0 <= j < 6 * ((width * height) / 2) ==> #[trigger] rgb[j] == yuy2_byte(yuy2, j)
        &&& forall|j: int| 6 * ((width * height) / 2) <= j < width * height * 3 ==> #[trigger] rgb[j] == 0
    }
}

/// Converts packed YUY2 (`[Y0, U, Y1, V]` per two pixels) to RGB24 with the
/// BT.601 fixed-point matrix. Each macro-pixel fills two output pixels; an
/// odd pixel count leaves the last output pixel zero. An input shorter than
/// `width * height * 2` bytes, or a zero dimension, gives an empty result.
pub fn convert_yuy2_to_rgb(yuy2: &[u8], width: usize, height: usize) -> (rgb: Vec<u8>)
    requires
        width * height * 3 <= usize::MAX,
    ensures
        yuy2_converted(yuy2@, width as int, height as int, rgb@),
{
    let pixels = width * height;
    let expected = pixels * 2;
    if yuy2.len() < expected || width == 0 || height == 0 {
        return Vec::new();
    }
    let n = pixels * 3;
    let mut rgb: Vec<u8> = vec![0u8; n];
    let filled = (pixels / 2) * 6;
    let mut j: usize = 0;
    while j < filled
        invariant
            pixels == width * height,
            n == pixels * 3,
            filled == 6 * (pixels / 2),
            yuy2@.len() >= pixels * 2,
            rgb@.len() == n,
            j <= filled,
            forall|j2: int| 0 <= j2 < j ==> #[trigger] rgb@[j2] == yuy2_byte(yuy2@, j2),
            forall|j2: int| j <= j2 < n ==> #[trigger] rgb@[j2] == 0,
        decreases filled - j,
    {
        let i = j / 6;
        let r = j % 6;
        let y = if r < 3 {
            yuy2[i * 4] as i32
        } else {
            yuy2[i * 4 + 2] as i32
        };
        let u = yuy2[i * 4 + 1] as i32 - 128;
        let v = yuy2[i * 4 + 3] as i32 - 128;
        rgb.set(j, yuv_to_channel(y, u, v, r % 3));
        j += 1;
    }
    rgb
}

/// Index of the U byte that pixel `q` of an NV12 image reads.
pub open spec fn nv12_uv_index(width: int, height: int, q: int) -> int {
    width * height + (q / width / 2) * width + (q % width / 2) * 2
}

/// `rgb` is the RGB24 form of the NV12 image `nv12`, or empty when `nv12` is
/// too short or a dimension is zero.
pub open spec fn nv12_converted(nv12: Seq<u8>, width: int, height: int, rgb: Seq<u8>) -> bool {
    &&& (nv12.len() < width * height * 3 / 2 || width == 0 || height == 0) ==> rgb.len() == 0
    &&& !(nv12.len() < width * height * 3 / 2 || width == 0 || height == 0) ==> {
        &&& rgb.len() == width * height * 3
        &&& forall|q: int, k: int|
            0 <= q < width * height && 0 <= k < 3 ==> {
                let uvi = nv12_uv_index(width, height, q);
                #[trigger] rgb[q * 3 + k] == yuv_channel(nv12[q] as int, nv12[uvi] - 128, nv12[uvi + 1] - 128, k)
            }
    }
}

/// Converts NV12 (full-resolution Y plane, then interleaved UV at half
/// resolution on both axes) to RGB24 with the BT.601 fixed-point matrix.
/// An input shorter than `width * height * 3 / 2` bytes, or a zero
/// dimension, gives an empty result.
pub fn convert_nv12_to_rgb(nv12: &[u8], width: usize, height: usize) -> (rgb: Vec<u8>)
    requires
        width % 2 == 0,
        height % 2 == 0,
        width * height * 3 <= usize::MAX,
    ensures
        nv12_converted(nv12@, width as int, height as int, rgb@),
{
    let pixels = width * height;
    let expected = pixels * 3 / 2;
    if nv12.len() < expected || width == 0 || height == 0 {
        return Vec::new();
    }
    let n = pixels * 3;
    let mut rgb: Vec<u8> = vec![0u8; n];
    let mut row: usize = 0;
    let mut done: usize = 0;
    while row < height
        invariant
            done == row * width,
            width % 2 == 0,
            height % 2 == 0,
            width > 0,
            pixels == width * height,
            n == pixels * 3,
            nv12@.len() >= pixels * 3 / 2,
            rgb@.len() == n,
            row <= height,
            forall|q: int, k: int|
                0 <= q < done && 0 <= k < 3 ==> {
                    let uvi = nv12_uv_index(width as int, height as int, q);
                    #[trigger] rgb@[q * 3 + k] == yuv_channel(
                        nv12@[q] as int,
                        nv12@[uvi] - 128,
                        nv12@[uvi + 1] - 128,
                        k,
                    )
                },
        decreases height - row,
    {
        proof {
            assert(row * width + width <= height * width) by (nonlinear_arith)
                requires
                    row < height,
            ;
            assert((row / 2) * width + width <= (height / 2) * width) by (nonlinear_arith)
                requires
                    row < height,
                    height % 2 == 0,
            ;
            assert(pixels * 3 / 2 == pixels + (height / 2) * width) by (nonlinear_arith)
                requires
                    pixels == width * height,
                    height % 2 == 0,
            ;
        }
        let first = row * width;
        let uv_row = pixels + (row / 2) * width;
        let mut col: usize = 0;
        while col < width
            invariant
                width % 2 == 0,
                height % 2 == 0,
                width > 0,
                pixels == width * height,
                n == pixels * 3,
                nv12@.len() >= pixels * 3 / 2,
                pixels * 3 / 2 == pixels + (height / 2) * width,
                rgb@.len() == n,
                row < height,
                col <= width,
                first == row * width,
                first + width <= pixels,
                uv_row == pixels + (row / 2) * width,
                (row / 2) * width + width <= (height / 2) * width,
                forall|q: int, k: int|
                    0 <= q < first + col && 0 <= k < 3 ==> {
                        let uvi = nv12_uv_index(width as int, height as int, q);
                        #[trigger] rgb@[q * 3 + k] == yuv_channel(
                            nv12@[q] as int,
                            nv12@[uvi] - 128,
                            nv12@[uvi + 1] - 128,
                            k,
                        )
                    },
            decreases width - col,
        {
            let q = first + col;
            proof {
                lemma_fundamental_div_mod_converse(q as int, width as int, row as int, col as int);
            }
            let uvi = uv_row + (col / 2) * 2;
            let y = nv12[q] as i32;
            let u = nv12[uvi] as i32 - 128;
            let v = nv12[uvi + 1] as i32 - 128;
            let base = q * 3;
            let mut k: usize = 0;
            while k < 3
                invariant
                    pixels == width * height,
                    n == pixels * 3,
                    q < pixels,
                    base == q * 3,
                    rgb@.len() == n,
                    k <= 3,
                    forall|q2: int, k2: int|
                        0 <= q2 < q && 0 <= k2 < 3 ==> {
                            let uvi = nv12_uv_index(width as int, height as int, q2);
                            #[trigger] rgb@[q2 * 3 + k2] == yuv_channel(
                                nv12@[q2] as int,
                                nv12@[uvi] - 128,
                                nv12@[uvi + 1] - 128,
                                k2,
                            )
                        },
                    forall|k2: int|
                        0 <= k2 < k ==> #[trigger] rgb@[q * 3 + k2] == yuv_channel(
                            y as int,
                            u as int,
                            v as int,
                            k2,
                        ),
                    0 <= y <= 255,
                    -128 <= u <= 127,
                    -128 <= v <= 127,
                decreases 3 - k,
            {
                rgb.set(base + k, yuv_to_channel(y, u, v, k));
                k += 1;
            }
            col += 1;
        }
        proof {
            assert((row + 1) * width == row * width + width) by (nonlinear_arith);
        }
        row += 1;
        done = first + width;
    }
    proof {
        assert(row * width == width * height) by (nonlinear_arith)
            requires
                row == height,
        ;
    }
    rgb
}

/// Whether a friendly name looks like the OBS virtual camera: it contains
/// both "obs" and "virtual", ignoring ASCII case.
pub open spec fn ascii_lower(c: char) -> char {
    if 'A' <= c && c <= 'Z' {
        ((c as u32) + 32) as char
    } else {
        c
    }
}

/// The string with ASCII capitals turned to lowercase.
pub open spec fn ascii_lower_seq(s: Seq<char>) -> Seq<char> {
    Seq::new(s.len(), |i: int| ascii_lower(s[i]))
}

/// The friendly name names the OBS virtual camera.
pub open spec fn is_obs_virtual(name: Seq<char>) -> bool {
    contains_seq(ascii_lower_seq(name), "obs"@) && contains_seq(ascii_lower_seq(name), "virtual"@)
}

/// Whether a friendly name belongs to the OBS virtual camera, whose format
/// negotiation needs workarounds.
pub fn is_obs_virtual_camera(friendly_name: &str) -> (r: bool)
    ensures
        r == is_obs_virtual(friendly_name@),
{
    let cs = chars_of(friendly_name);
    let mut lower: Vec<char> = Vec::new();
    let mut i: usize = 0;
    while i < cs.len()
        invariant
            i <= cs@.len(),
            lower@ == ascii_lower_seq(cs@.subrange(0, i as int)),
        decreases cs@.len() - i,
    {
        let c = cs[i];
        let l = if 'A' <= c && c <= 'Z' {
            ((c as u32 + 32) as u8) as char
        } else {
            c
        };
        lower.push(l);
        proof {
            assert(lower@ =~= ascii_lower_seq(cs@.subrange(0, i + 1)));
        }
        i += 1;
    }
    assert(cs@.subrange(0, cs@.len() as int) =~= cs@);
    let obs: Vec<char> = chars_of("obs");
    let virt: Vec<char> = chars_of("virtual");
    proof {
        crate::text::lemma_find_contains(lower@, obs@);
        crate::text::lemma_find_contains(lower@, virt@);
    }
    crate::text::find_seq(&lower, &obs).is_some() && crate::text::find_seq(&lower, &virt).is_some()
}

} // verus!
