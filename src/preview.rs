//! Per-device cache of the encoded preview frame, keyed by the ring's
//! sequence counter, and the JPEG / base64 encoding it uses.

use vstd::prelude::*;
use crate::frames::{latest_of, sequence_of, FrameBuffer};
use crate::text::str_eq;

verus! {

/// The JPEG file that the `image` crate's encoder produces for RGB24
/// `pixels` of the given size and quality, or `None` where it refuses them.
pub uninterp spec fn jpeg_of(pixels: Seq<u8>, width: u32, height: u32, quality: u8) -> Option<Seq<u8>>;

/// The standard, padded base64 text of `bytes`.
pub uninterp spec fn base64_of(bytes: Seq<u8>) -> Seq<char>;

/// Relies on `image::ImageBuffer::from_raw`, which refuses a buffer shorter
/// than `width * height * 3`, and on `image::codecs::jpeg::JpegEncoder`,
/// whose output depends on the pixels, size and quality alone.
#[verifier::external_body]
fn encode_jpeg(data: &[u8], width: u32, height: u32, quality: u8) -> (r: Option<Vec<u8>>)
    ensures
        match r {
            Some(v) => jpeg_of(data@, width, height, quality) == Some(v@),
            None => jpeg_of(data@, width, height, quality) is None,
        },
        data@.len() < width as int * height as int * 3 ==> r is None,
{
    let img = image::ImageBuffer::<image::Rgb<u8>, &[u8]>::from_raw(width, height, data)?;
    let mut buf: Vec<u8> = Vec::new();
    let encoder = image::codecs::jpeg::JpegEncoder::new_with_quality(&mut buf, quality);
    img.write_with_encoder(encoder).ok()?;
    Some(buf)
}

/// Relies on `base64::Engine::encode` with the standard padded alphabet; it
/// panics only when the output length overflows `usize`.
#[verifier::external_body]
fn encode_base64(bytes: &[u8]) -> (r: String)
    requires
        bytes@.len() <= usize::MAX / 4,
    ensures
        r@ == base64_of(bytes@),
{
    base64::Engine::encode(&base64::engine::general_purpose::STANDARD, bytes)
}

/// Relies on `fast_image_resize`: `Image::from_vec_u8` refuses a buffer
/// shorter than `width * height * 3`, and `Resizer::resize` fills a
/// destination image of `target_width * target_height` RGB pixels. The
/// pixels themselves depend on the CPU features used, so only the size is
/// stated.
#[verifier::external_body]
fn resize_rgb(data: &[u8], width: u32, height: u32, target_width: u32, target_height: u32) -> (r: Option<Vec<u8>>)
    requires
        width as int * height as int * 3 <= usize::MAX,
        target_width as int * target_height as int * 3 <= usize::MAX,
    ensures
        r is Some ==> r->0@.len() == target_width as int * target_height as int * 3,
{
    let src = fast_image_resize::images::Image::from_vec_u8(
        width,
        height,
        data.to_vec(),
        fast_image_resize::PixelType::U8x3,
    ).ok()?;
    let mut dst = fast_image_resize::images::Image::new(target_width, target_height, fast_image_resize::PixelType::U8x3);
    fast_image_resize::Resizer::new().resize(&src, &mut dst, None).ok()?;
    Some(dst.into_vec())
}

/// Thumbnail width in pixels.
pub const THUMBNAIL_WIDTH: u32 = 160;

/// Thumbnail height in pixels.
pub const THUMBNAIL_HEIGHT: u32 = 120;

/// JPEG quality used for thumbnails.
pub const THUMBNAIL_JPEG_QUALITY: u8 = 70;

/// `text` is the base64 JPEG of some 160x120 RGB image.
pub open spec fn thumbnail_text(text: Seq<char>) -> bool {
    exists|pixels: Seq<u8>|
        pixels.len() == THUMBNAIL_WIDTH * THUMBNAIL_HEIGHT * 3 && #[trigger] jpeg_of(
            pixels,
            THUMBNAIL_WIDTH,
            THUMBNAIL_HEIGHT,
            THUMBNAIL_JPEG_QUALITY,
        ) is Some && base64_of(jpeg_of(pixels, THUMBNAIL_WIDTH, THUMBNAIL_HEIGHT, THUMBNAIL_JPEG_QUALITY)->0) == text
}

/// Bytes of RGB24 pixels that a frame's size calls for, zero for no frame.
pub open spec fn rgb_bytes(f: Option<(Seq<u8>, u32, u32, u64)>) -> int {
    match f {
        Some(v) => v.1 as int * v.2 as int * 3,
        None => 0,
    }
}

/// The newest frame scaled to 160x120 as base64 JPEG.
pub fn get_thumbnail(buffer: &FrameBuffer) -> (r: Result<String, String>)
    requires
        buffer.well_formed(),
    ensures
        latest_of(buffer.pushed()) is None ==> r is Err && r->Err_0@ == no_frame_message(),
        rgb_bytes(latest_of(buffer.pushed())) > usize::MAX ==> r is Err && r->Err_0@ == encode_failed_message(),
        r is Ok ==> thumbnail_text(r->Ok_0@),
{
    let frame = match buffer.latest() {
        Some(f) => f,
        None => {
            return Err("no frame available".to_string());
        },
    };
    proof {
        assert(frame.width as int * frame.height as int <= 0xFFFF_FFFFint * 0xFFFF_FFFFint) by (nonlinear_arith)
            requires
                frame.width <= 0xFFFF_FFFFint,
                frame.height <= 0xFFFF_FFFFint,
        ;
    }
    let w = frame.width as u128;
    let h = frame.height as u128;
    if w * h * 3 > usize::MAX as u128 {
        return Err("frame could not be encoded".to_string());
    }
    let small = match resize_rgb(frame.data.as_slice(), frame.width, frame.height, THUMBNAIL_WIDTH, THUMBNAIL_HEIGHT) {
        Some(v) => v,
        None => {
            return Err("frame could not be encoded".to_string());
        },
    };
    let jpeg = match encode_jpeg(small.as_slice(), THUMBNAIL_WIDTH, THUMBNAIL_HEIGHT, THUMBNAIL_JPEG_QUALITY) {
        Some(j) => j,
        None => {
            return Err("frame could not be encoded".to_string());
        },
    };
    if jpeg.len() > usize::MAX / 4 {
        return Err("frame could not be encoded".to_string());
    }
    let text = encode_base64(jpeg.as_slice());
    assert(thumbnail_text(text@)) by {
        assert(jpeg_of(small@, THUMBNAIL_WIDTH, THUMBNAIL_HEIGHT, THUMBNAIL_JPEG_QUALITY) is Some);
    }
    let out: Result<String, String> = Ok(text);
    out
}

/// JPEG quality used for preview frames.
pub const PREVIEW_JPEG_QUALITY: u8 = 75;

/// The preview text of a frame: its JPEG at preview quality, in base64,
/// when the encoder accepts the frame and its output can be encoded.
pub open spec fn preview_text(pixels: Seq<u8>, width: u32, height: u32) -> Option<Seq<char>> {
    match jpeg_of(pixels, width, height, PREVIEW_JPEG_QUALITY) {
        Some(j) => if j.len() <= usize::MAX / 4 {
            Some(base64_of(j))
        } else {
            None
        },
        None => None,
    }
}

/// One cached encoding.
#[derive(Debug)]
pub struct CacheEntry {
    pub device_id: String,
    pub sequence: u64,
    pub encoded: String,
}

/// The cache as a map from device to `(sequence, text)`; a later entry for a
/// device overrides an earlier one.
pub open spec fn cache_map(s: Seq<CacheEntry>) -> Map<Seq<char>, (u64, Seq<char>)>
    decreases s.len(),
{
    if s.len() == 0 {
        Map::empty()
    } else {
        cache_map(s.drop_last()).insert(s.last().device_id@, (s.last().sequence, s.last().encoded@))
    }
}

/// Encoded preview frames per device.
#[derive(Debug)]
pub struct FrameCache {
    entries: Vec<CacheEntry>,
}

/// Messages of `get_frame`'s failures.
pub open spec fn no_frame_message() -> Seq<char> {
    "no frame available"@
}

/// Message of an encoder failure.
pub open spec fn encode_failed_message() -> Seq<char> {
    "frame could not be encoded"@
}

impl View for FrameCache {
    type V = Map<Seq<char>, (u64, Seq<char>)>;

    closed spec fn view(&self) -> Map<Seq<char>, (u64, Seq<char>)> {
        cache_map(self.entries@)
    }
}

impl FrameCache {
    /// An empty cache.
    pub fn new() -> (r: FrameCache)
        ensures
            r@ == Map::<Seq<char>, (u64, Seq<char>)>::empty(),
    {
        FrameCache { entries: Vec::new() }
    }

    /// The cached entry of a device.
    pub fn lookup(&self, device_id: &str) -> (r: Option<(u64, String)>)
        ensures
            match r {
                Some(e) => self@.contains_key(device_id@) && self@[device_id@] == (e.0, e.1@),
                None => !self@.contains_key(device_id@),
            },
    {
        let mut i: usize = self.entries.len();
        assert(self.entries@.subrange(0, i as int) =~= self.entries@);
        while i > 0
            invariant
                i <= self.entries@.len(),
                self@ == cache_map(self.entries@),
                cache_map(self.entries@).contains_key(device_id@) == cache_map(
                    self.entries@.subrange(0, i as int),
                ).contains_key(device_id@),
                cache_map(self.entries@).contains_key(device_id@) ==> cache_map(self.entries@)[device_id@]
                    == cache_map(self.entries@.subrange(0, i as int))[device_id@],
            decreases i,
        {
            proof {
                assert(self.entries@.subrange(0, i as int).drop_last() =~= self.entries@.subrange(
                    0,
                    i - 1,
                ));
            }
            let e = &self.entries[i - 1];
            if str_eq(e.device_id.as_str(), device_id) {
                return Some((e.sequence, e.encoded.clone()));
            }
            i -= 1;
        }
        None
    }

    /// Removes the entry of a device.
    pub fn purge(&mut self, device_id: &str)
        ensures
            final(self)@ == old(self)@.remove(device_id@),
    {
        let ghost orig = self.entries@;
        let total = self.entries.len();
        let ghost n = orig.len();
        let mut kept: Vec<CacheEntry> = Vec::new();
        let mut used: usize = 0;
        assert(orig.subrange(0, 0) =~= Seq::<CacheEntry>::empty());
        assert(cache_map(kept@) =~= cache_map(orig.subrange(0, 0)).remove(device_id@));
        while self.entries.len() > 0
            invariant
                n == orig.len(),
                n == total,
                used <= n,
                self.entries@ == orig.subrange(used as int, n as int),
                cache_map(kept@) == cache_map(orig.subrange(0, used as int)).remove(device_id@),
            decreases self.entries@.len(),
        {
            let e = self.entries.remove(0);
            proof {
                assert(orig.subrange(0, used + 1).drop_last() =~= orig.subrange(0, used as int));
                assert(self.entries@ =~= orig.subrange(used + 1, n as int));
            }
            if !str_eq(e.device_id.as_str(), device_id) {
                let ghost before = kept@;
                kept.push(e);
                proof {
                    assert(kept@.drop_last() =~= before);
                    assert(cache_map(kept@) =~= cache_map(orig.subrange(0, used + 1)).remove(
                        device_id@,
                    ));
                }
            } else {
                proof {
                    assert(cache_map(kept@) =~= cache_map(orig.subrange(0, used + 1)).remove(
                        device_id@,
                    ));
                }
            }
            used += 1;
        }
        assert(orig.subrange(0, n as int) =~= orig);
        self.entries = kept;
    }

    /// Records the encoding of a device's frame with the given sequence.
    pub fn store(&mut self, device_id: &str, sequence: u64, encoded: String)
        ensures
            final(self)@ == old(self)@.insert(device_id@, (sequence, encoded@)),
    {
        self.purge(device_id);
        let ghost before = self.entries@;
        self.entries.push(CacheEntry { device_id: device_id.to_string(), sequence, encoded });
        proof {
            assert(self.entries@.drop_last() =~= before);
            assert(cache_map(self.entries@) =~= old(self)@.insert(device_id@, (sequence, encoded@)));
        }
    }
}

/// `get_frame` returns `r` and leaves the cache `after`, given the cache
/// `before`, the device and the ring's newest frame and sequence counter.
pub open spec fn get_frame_result(
    before: Map<Seq<char>, (u64, Seq<char>)>,
    device_id: Seq<char>,
    newest: Option<(Seq<u8>, u32, u32, u64)>,
    sequence: u64,
    r: Result<Seq<char>, Seq<char>>,
    after: Map<Seq<char>, (u64, Seq<char>)>,
) -> bool {
    match newest {
        None => r == Err::<Seq<char>, Seq<char>>(no_frame_message()) && after == before,
        Some(f) => if before.contains_key(device_id) && before[device_id].0 == sequence {
            r == Ok::<Seq<char>, Seq<char>>(before[device_id].1) && after == before
        } else {
            match preview_text(f.0, f.1, f.2) {
                Some(t) => r == Ok::<Seq<char>, Seq<char>>(t) && after == before.insert(device_id, (sequence, t)),
                None => r == Err::<Seq<char>, Seq<char>>(encode_failed_message()) && after == before,
            }
        },
    }
}

/// The preview frame of a device as base64 JPEG. While the ring's sequence
/// counter is unchanged the cached text is returned without encoding again;
/// otherwise the newest frame is encoded and cached under that sequence.
pub fn get_frame(cache: &mut FrameCache, device_id: &str, buffer: &FrameBuffer) -> (r: Result<String, String>)
    requires
        buffer.well_formed(),
    ensures
        get_frame_result(
            old(cache)@,
            device_id@,
            latest_of(buffer.pushed()),
            sequence_of(buffer.pushed()),
            match r {
                Ok(s) => Ok(s@),
                Err(e) => Err(e@),
            },
            final(cache)@,
        ),
{
    let frame = match buffer.latest() {
        Some(f) => f,
        None => {
            return Err("no frame available".to_string());
        },
    };
    let seq = buffer.sequence();
    if let Some((cached_seq, text)) = cache.lookup(device_id) {
        if cached_seq == seq {
            return Ok(text);
        }
    }
    let jpeg = match encode_jpeg(frame.data.as_slice(), frame.width, frame.height, PREVIEW_JPEG_QUALITY) {
        Some(j) => j,
        None => {
            return Err("frame could not be encoded".to_string());
        },
    };
    if jpeg.len() > usize::MAX / 4 {
        return Err("frame could not be encoded".to_string());
    }
    let text = encode_base64(jpeg.as_slice());
    cache.store(device_id, seq, text.clone());
    Ok(text)
}

/// With no frame pushed in between, a second `get_frame` returns the same
/// text as the first.
pub proof fn lemma_get_frame_repeats(
    c1: Map<Seq<char>, (u64, Seq<char>)>,
    device_id: Seq<char>,
    newest: Option<(Seq<u8>, u32, u32, u64)>,
    sequence: u64,
    s1: Seq<char>,
    c2: Map<Seq<char>, (u64, Seq<char>)>,
    r2: Result<Seq<char>, Seq<char>>,
    c3: Map<Seq<char>, (u64, Seq<char>)>,
)
    requires
        get_frame_result(c1, device_id, newest, sequence, Ok(s1), c2),
        get_frame_result(c2, device_id, newest, sequence, r2, c3),
    ensures
        r2 == Ok::<Seq<char>, Seq<char>>(s1),
        c3 == c2,
{
}

} // verus!
