//! Identifiers, the control vocabulary and the plain records that the
//! backends exchange.

use vstd::prelude::*;
use vstd::utf8::encode_utf8;
use crate::text::{
    chars_of, find_from, find_seq, occurs_at, hex_fixed, lower_of, push_char, push_chars,
    push_hex_fixed, push_str, to_lowercase, str_eq,
};

verus! {

/// FNV-1a offset basis.
pub const FNV_OFFSET: u64 = 0xcbf29ce484222325;

/// FNV-1a prime.
pub const FNV_PRIME: u64 = 0x100000001b3;

/// 64-bit FNV-1a over a byte sequence.
pub open spec fn fnv1a(bytes: Seq<u8>) -> u64
    decreases bytes.len(),
{
    if bytes.len() == 0 {
        FNV_OFFSET
    } else {
        (fnv1a(bytes.drop_last()) ^ (bytes.last() as u64)).wrapping_mul(FNV_PRIME)
    }
}

/// 64-bit FNV-1a of the UTF-8 bytes of a string.
pub fn simple_hash(s: &str) -> (h: u64)
    ensures
        h == fnv1a(encode_utf8(s@)),
{
    let bytes = s.as_bytes();
    let mut hash: u64 = FNV_OFFSET;
    let mut i: usize = 0;
    while i < bytes.len()
        invariant
            bytes@ == encode_utf8(s@),
            i <= bytes@.len(),
            hash == fnv1a(bytes@.subrange(0, i as int)),
        decreases bytes@.len() - i,
    {
        proof {
            assert(bytes@.subrange(0, i + 1).drop_last() =~= bytes@.subrange(0, i as int));
        }
        hash = (hash ^ (bytes[i] as u64)).wrapping_mul(FNV_PRIME);
        i += 1;
    }
    assert(bytes@.subrange(0, bytes@.len() as int) =~= bytes@);
    hash
}

/// A hexadecimal digit in either case.
pub open spec fn is_hex_char(c: char) -> bool {
    ('0' <= c && c <= '9') || ('a' <= c && c <= 'f') || ('A' <= c && c <= 'F')
}

/// The four hexadecimal characters that follow the first occurrence of
/// `prefix` in `s`, if they are there.
pub open spec fn field_after(s: Seq<char>, prefix: Seq<char>) -> Option<Seq<char>> {
    match find_from(s, prefix, 0) {
        Some(i) => {
            let start = i + prefix.len();
            if start + 4 <= s.len() && (forall|k: int| start <= k < start + 4 ==> is_hex_char(s[k])) {
                Some(s.subrange(start, start + 4))
            } else {
                None
            }
        },
        None => None,
    }
}

/// Number of `#` characters in `s`.
pub open spec fn hash_count(s: Seq<char>) -> nat
    decreases s.len(),
{
    if s.len() == 0 {
        0
    } else {
        hash_count(s.drop_last()) + if s.last() == '#' { 1nat } else { 0nat }
    }
}

/// The `k`-th (from zero) part of `s` split on `#`.
pub open spec fn segment(s: Seq<char>, k: nat) -> Seq<char>
    decreases s.len(),
{
    if s.len() == 0 {
        Seq::empty()
    } else if s.last() != '#' && hash_count(s.drop_last()) == k {
        segment(s.drop_last(), k).push(s.last())
    } else {
        segment(s.drop_last(), k)
    }
}

/// Number of bytes that UTF-8 takes for one character.
pub open spec fn utf8_width(c: char) -> nat {
    if (c as u32) < 0x80 {
        1
    } else if (c as u32) < 0x800 {
        2
    } else if (c as u32) < 0x10000 {
        3
    } else {
        4
    }
}

/// Number of bytes that UTF-8 takes for a string.
pub open spec fn utf8_len(s: Seq<char>) -> nat
    decreases s.len(),
{
    if s.len() == 0 {
        0
    } else {
        utf8_len(s.drop_last()) + utf8_width(s.last())
    }
}

/// The serial number of a device path: the third `#`-separated part, when it
/// is non-empty, is no GUID and has at least four bytes.
pub open spec fn serial_of(s: Seq<char>) -> Option<Seq<char>> {
    if hash_count(s) >= 2 {
        let c = segment(s, 2);
        if c.len() > 0 && c[0] != '{' && utf8_len(c) >= 4 {
            Some(c)
        } else {
            None
        }
    } else {
        None
    }
}

/// The identifier derived from an OS device path.
pub open spec fn device_id_for_path(path: Seq<char>) -> Seq<char> {
    let lower = lower_of(path);
    let h = hex_fixed(fnv1a(encode_utf8(path)) as nat, 16, false);
    match (field_after(lower, "vid_"@), field_after(lower, "pid_"@)) {
        (Some(v), Some(p)) => v + ":"@ + p + ":"@ + match serial_of(lower) {
            Some(s) => s,
            None => h,
        },
        _ => "unknown:"@ + h,
    }
}

fn is_hex_exec(c: char) -> (r: bool)
    ensures
        r == is_hex_char(c),
{
    ('0' <= c && c <= '9') || ('a' <= c && c <= 'f') || ('A' <= c && c <= 'F')
}

/// Extracts the four hexadecimal characters after `prefix`.
fn extract_field(lower: &Vec<char>, prefix: &str) -> (r: Option<Vec<char>>)
    ensures
        match r {
            Some(v) => field_after(lower@, prefix@) == Some(v@),
            None => field_after(lower@, prefix@) is None,
        },
{
    let n = lower.len();
    let pv = chars_of(prefix);
    match find_seq(lower, &pv) {
        None => None,
        Some(i) => {
            proof {
                crate::text::lemma_find_some_bounds(lower@, pv@);
            }
            assert(occurs_at(lower@, pv@, i as int));
            let start = i + pv.len();
            if start > lower.len() || lower.len() - start < 4 {
                return None;
            }
            let mut field: Vec<char> = Vec::new();
            let mut k: usize = 0;
            while k < 4
                invariant
                    n == lower@.len(),
                    pv@ == prefix@,
                    find_from(lower@, prefix@, 0) == Some(i as int),
                    start == i + prefix@.len(),
                    start + 4 <= lower@.len(),
                    k <= 4,
                    field@ == lower@.subrange(start as int, start + k),
                    forall|j: int| start <= j < start + k ==> is_hex_char(lower@[j]),
                decreases 4 - k,
            {
                let c = lower[start + k];
                if !is_hex_exec(c) {
                    assert(!is_hex_char(lower@[start + k]));
                    assert(find_from(lower@, prefix@, 0) == Some(i as int));
                    assert(!(forall|j: int|
                        start <= j < start + 4 ==> #[trigger] is_hex_char(lower@[j])));
                    return None;
                }
                field.push(c);
                proof {
                    assert(lower@.subrange(start as int, start + k + 1) =~= lower@.subrange(
                        start as int,
                        start + k,
                    ).push(c));
                }
                k += 1;
            }
            Some(field)
        },
    }
}

/// Extracts the serial-number part of a lowercased device path.
fn extract_serial(lower: &Vec<char>) -> (r: Option<Vec<char>>)
    ensures
        match r {
            Some(v) => serial_of(lower@) == Some(v@),
            None => serial_of(lower@) is None,
        },
{
    let mut count: usize = 0;
    let mut seg: Vec<char> = Vec::new();
    let mut i: usize = 0;
    while i < lower.len()
        invariant
            i <= lower@.len(),
            count <= i,
            count == hash_count(lower@.subrange(0, i as int)),
            seg@ == segment(lower@.subrange(0, i as int), 2),
        decreases lower@.len() - i,
    {
        let c = lower[i];
        proof {
            assert(lower@.subrange(0, i + 1).drop_last() =~= lower@.subrange(0, i as int));
        }
        if c == '#' {
            count += 1;
        } else if count == 2 {
            seg.push(c);
        }
        i += 1;
    }
    assert(lower@.subrange(0, lower@.len() as int) =~= lower@);
    if count < 2 || seg.len() == 0 || seg[0] == '{' {
        return None;
    }
    let mut bytes: usize = 0;
    let mut j: usize = 0;
    while j < seg.len() && bytes < 4
        invariant
            j <= seg@.len(),
            bytes == utf8_len(seg@.subrange(0, j as int)),
            bytes < 8,
        decreases seg@.len() - j,
    {
        let code = seg[j] as u32;
        let w: usize = if code < 0x80 {
            1
        } else if code < 0x800 {
            2
        } else if code < 0x10000 {
            3
        } else {
            4
        };
        proof {
            assert(seg@.subrange(0, j + 1).drop_last() =~= seg@.subrange(0, j as int));
        }
        bytes += w;
        j += 1;
    }
    proof {
        lemma_utf8_len_prefix(seg@, j as int);
    }
    if bytes >= 4 {
        Some(seg)
    } else {
        assert(seg@.subrange(0, seg@.len() as int) =~= seg@);
        None
    }
}

/// The UTF-8 length of a prefix never exceeds that of the whole.
proof fn lemma_utf8_len_prefix(s: Seq<char>, j: int)
    requires
        0 <= j <= s.len(),
    ensures
        utf8_len(s.subrange(0, j)) <= utf8_len(s),
    decreases s.len() - j,
{
    if j < s.len() {
        lemma_utf8_len_prefix(s, j + 1);
        assert(s.subrange(0, j + 1).drop_last() =~= s.subrange(0, j));
    } else {
        assert(s.subrange(0, j) =~= s);
    }
}

/// Stable camera identifier: an opaque string whose prefix names the backend
/// that owns the device.
#[derive(Debug, Hash)]
pub struct DeviceId(String);

impl View for DeviceId {
    type V = Seq<char>;

    closed spec fn view(&self) -> Seq<char> {
        self.0@
    }
}

impl PartialEq for DeviceId {
    fn eq(&self, other: &DeviceId) -> (r: bool) {
        self.0 == other.0
    }
}

impl vstd::std_specs::cmp::PartialEqSpecImpl for DeviceId {
    open spec fn obeys_eq_spec() -> bool {
        true
    }

    open spec fn eq_spec(&self, other: &DeviceId) -> bool {
        self@ == other@
    }
}

impl Eq for DeviceId {
}

impl Clone for DeviceId {
    fn clone(&self) -> (r: DeviceId)
        ensures
            r@ == self@,
    {
        DeviceId(self.0.clone())
    }
}

impl DeviceId {
    /// A device identifier holding `id` as it is.
    pub fn new(id: &str) -> (r: DeviceId)
        ensures
            r@ == id@,
    {
        DeviceId(id.to_string())
    }

    /// A device identifier that takes over an owned string.
    pub fn from_string(id: String) -> (r: DeviceId)
        ensures
            r@ == id@,
    {
        DeviceId(id)
    }

    /// Derives a stable identifier from an OS device path:
    /// `vid:pid:serial`, `vid:pid:<hash>` when the path has no serial, or
    /// `unknown:<hash>` when it has no vendor and product ids.
    pub fn from_device_path(path: &str) -> (r: DeviceId)
        ensures
            r@ == device_id_for_path(path@),
    {
        let lower_s = to_lowercase(path);
        let lower = chars_of(lower_s.as_str());
        let vid = extract_field(&lower, "vid_");
        let pid = extract_field(&lower, "pid_");
        let mut out = String::new();
        match (vid, pid) {
            (Some(v), Some(p)) => {
                push_chars(&mut out, &v);
                push_char(&mut out, ':');
                push_chars(&mut out, &p);
                push_char(&mut out, ':');
                match extract_serial(&lower) {
                    Some(s) => {
                        push_chars(&mut out, &s);
                    },
                    None => {
                        let hash = simple_hash(path);
                        push_hex_fixed(&mut out, hash, 16, false);
                    },
                }
                proof {
                    reveal_strlit(":");
                }
            },
            _ => {
                push_str(&mut out, "unknown:");
                let hash = simple_hash(path);
                push_hex_fixed(&mut out, hash, 16, false);
            },
        }
        assert(out@ =~= device_id_for_path(path@));
        DeviceId(out)
    }

    /// The identifier's text.
    pub fn as_str(&self) -> (r: &str)
        ensures
            r@ == self@,
    {
        self.0.as_str()
    }

    /// The identifier's text, as an owned string.
    pub fn to_string(&self) -> (r: String)
        ensures
            r@ == self@,
    {
        self.0.clone()
    }
}

/// Equal paths give equal identifiers: the identifier is a function of the
/// path's characters alone, so deriving it again yields the same string.
pub proof fn lemma_device_id_deterministic(p1: Seq<char>, p2: Seq<char>)
    requires
        p1 == p2,
    ensures
        device_id_for_path(p1) == device_id_for_path(p2),
{
}

} // verus!

verus! {

/// A supported camera control.
#[derive(Debug, Clone, Copy, PartialEq, Eq, Structural, Hash)]
pub enum ControlId {
    Pan,
    Tilt,
    Roll,
    Zoom,
    Exposure,
    Iris,
    Focus,
    Brightness,
    Contrast,
    Hue,
    Saturation,
    Sharpness,
    Gamma,
    ColorEnable,
    WhiteBalance,
    BacklightCompensation,
    Gain,
    Iso,
    Aperture,
    ShutterSpeed,
    ExposureCompensation,
}

/// The snake_case identifier of a control.
pub open spec fn control_id_str(c: ControlId) -> Seq<char> {
    match c {
        ControlId::Pan => "pan"@,
        ControlId::Tilt => "tilt"@,
        ControlId::Roll => "roll"@,
        ControlId::Zoom => "zoom"@,
        ControlId::Exposure => "exposure"@,
        ControlId::Iris => "iris"@,
        ControlId::Focus => "focus"@,
        ControlId::Brightness => "brightness"@,
        ControlId::Contrast => "contrast"@,
        ControlId::Hue => "hue"@,
        ControlId::Saturation => "saturation"@,
        ControlId::Sharpness => "sharpness"@,
        ControlId::Gamma => "gamma"@,
        ControlId::ColorEnable => "color_enable"@,
        ControlId::WhiteBalance => "white_balance"@,
        ControlId::BacklightCompensation => "backlight_compensation"@,
        ControlId::Gain => "gain"@,
        ControlId::Iso => "canon_iso"@,
        ControlId::Aperture => "canon_aperture"@,
        ControlId::ShutterSpeed => "canon_shutter_speed"@,
        ControlId::ExposureCompensation => "canon_exposure_compensation"@,
    }
}

/// The human-readable name of a control.
pub open spec fn control_display_name(c: ControlId) -> Seq<char> {
    match c {
        ControlId::Pan => "Pan"@,
        ControlId::Tilt => "Tilt"@,
        ControlId::Roll => "Roll"@,
        ControlId::Zoom => "Zoom"@,
        ControlId::Exposure => "Exposure"@,
        ControlId::Iris => "Iris"@,
        ControlId::Focus => "Focus"@,
        ControlId::Brightness => "Brightness"@,
        ControlId::Contrast => "Contrast"@,
        ControlId::Hue => "Hue"@,
        ControlId::Saturation => "Saturation"@,
        ControlId::Sharpness => "Sharpness"@,
        ControlId::Gamma => "Gamma"@,
        ControlId::ColorEnable => "Colour Enable"@,
        ControlId::WhiteBalance => "White Balance"@,
        ControlId::BacklightCompensation => "Backlight Compensation"@,
        ControlId::Gain => "Gain"@,
        ControlId::Iso => "ISO"@,
        ControlId::Aperture => "Aperture"@,
        ControlId::ShutterSpeed => "Shutter Speed"@,
        ControlId::ExposureCompensation => "Exposure Compensation"@,
    }
}

/// The UI group a control belongs to.
pub open spec fn control_group(c: ControlId) -> Seq<char> {
    match c {
        ControlId::Pan => "advanced"@,
        ControlId::Tilt => "advanced"@,
        ControlId::Roll => "advanced"@,
        ControlId::Zoom => "focus"@,
        ControlId::Exposure => "exposure"@,
        ControlId::Iris => "focus"@,
        ControlId::Focus => "focus"@,
        ControlId::Brightness => "image"@,
        ControlId::Contrast => "image"@,
        ControlId::Hue => "image"@,
        ControlId::Saturation => "image"@,
        ControlId::Sharpness => "image"@,
        ControlId::Gamma => "image"@,
        ControlId::ColorEnable => "advanced"@,
        ControlId::WhiteBalance => "exposure"@,
        ControlId::BacklightCompensation => "exposure"@,
        ControlId::Gain => "image"@,
        ControlId::Iso => "camera"@,
        ControlId::Aperture => "camera"@,
        ControlId::ShutterSpeed => "camera"@,
        ControlId::ExposureCompensation => "camera"@,
    }
}

/// The control whose identifier is `s`, if any.
pub open spec fn control_from_str(s: Seq<char>) -> Option<ControlId> {
    if s == "pan"@ {
        Some(ControlId::Pan)
    } else if s == "tilt"@ {
        Some(ControlId::Tilt)
    } else if s == "roll"@ {
        Some(ControlId::Roll)
    } else if s == "zoom"@ {
        Some(ControlId::Zoom)
    } else if s == "exposure"@ {
        Some(ControlId::Exposure)
    } else if s == "iris"@ {
        Some(ControlId::Iris)
    } else if s == "focus"@ {
        Some(ControlId::Focus)
    } else if s == "brightness"@ {
        Some(ControlId::Brightness)
    } else if s == "contrast"@ {
        Some(ControlId::Contrast)
    } else if s == "hue"@ {
        Some(ControlId::Hue)
    } else if s == "saturation"@ {
        Some(ControlId::Saturation)
    } else if s == "sharpness"@ {
        Some(ControlId::Sharpness)
    } else if s == "gamma"@ {
        Some(ControlId::Gamma)
    } else if s == "color_enable"@ {
        Some(ControlId::ColorEnable)
    } else if s == "white_balance"@ {
        Some(ControlId::WhiteBalance)
    } else if s == "backlight_compensation"@ {
        Some(ControlId::BacklightCompensation)
    } else if s == "gain"@ {
        Some(ControlId::Gain)
    } else if s == "canon_iso"@ {
        Some(ControlId::Iso)
    } else if s == "canon_aperture"@ {
        Some(ControlId::Aperture)
    } else if s == "canon_shutter_speed"@ {
        Some(ControlId::ShutterSpeed)
    } else if s == "canon_exposure_compensation"@ {
        Some(ControlId::ExposureCompensation)
    } else {
        None
    }
}

/// Every control, in declaration order.
pub open spec fn all_controls() -> Seq<ControlId> {
    seq![
        ControlId::Pan,
        ControlId::Tilt,
        ControlId::Roll,
        ControlId::Zoom,
        ControlId::Exposure,
        ControlId::Iris,
        ControlId::Focus,
        ControlId::Brightness,
        ControlId::Contrast,
        ControlId::Hue,
        ControlId::Saturation,
        ControlId::Sharpness,
        ControlId::Gamma,
        ControlId::ColorEnable,
        ControlId::WhiteBalance,
        ControlId::BacklightCompensation,
        ControlId::Gain,
        ControlId::Iso,
        ControlId::Aperture,
        ControlId::ShutterSpeed,
        ControlId::ExposureCompensation,
    ]
}

impl ControlId {
    /// Human-readable display name.
    pub fn display_name(self) -> (r: &'static str)
        ensures
            r@ == control_display_name(self),
    {
        match self {
            ControlId::Pan => "Pan",
            ControlId::Tilt => "Tilt",
            ControlId::Roll => "Roll",
            ControlId::Zoom => "Zoom",
            ControlId::Exposure => "Exposure",
            ControlId::Iris => "Iris",
            ControlId::Focus => "Focus",
            ControlId::Brightness => "Brightness",
            ControlId::Contrast => "Contrast",
            ControlId::Hue => "Hue",
            ControlId::Saturation => "Saturation",
            ControlId::Sharpness => "Sharpness",
            ControlId::Gamma => "Gamma",
            ControlId::ColorEnable => "Colour Enable",
            ControlId::WhiteBalance => "White Balance",
            ControlId::BacklightCompensation => "Backlight Compensation",
            ControlId::Gain => "Gain",
            ControlId::Iso => "ISO",
            ControlId::Aperture => "Aperture",
            ControlId::ShutterSpeed => "Shutter Speed",
            ControlId::ExposureCompensation => "Exposure Compensation",
        }
    }

    /// Snake-case identifier used across IPC.
    pub fn as_id_str(self) -> (r: &'static str)
        ensures
            r@ == control_id_str(self),
    {
        match self {
            ControlId::Pan => "pan",
            ControlId::Tilt => "tilt",
            ControlId::Roll => "roll",
            ControlId::Zoom => "zoom",
            ControlId::Exposure => "exposure",
            ControlId::Iris => "iris",
            ControlId::Focus => "focus",
            ControlId::Brightness => "brightness",
            ControlId::Contrast => "contrast",
            ControlId::Hue => "hue",
            ControlId::Saturation => "saturation",
            ControlId::Sharpness => "sharpness",
            ControlId::Gamma => "gamma",
            ControlId::ColorEnable => "color_enable",
            ControlId::WhiteBalance => "white_balance",
            ControlId::BacklightCompensation => "backlight_compensation",
            ControlId::Gain => "gain",
            ControlId::Iso => "canon_iso",
            ControlId::Aperture => "canon_aperture",
            ControlId::ShutterSpeed => "canon_shutter_speed",
            ControlId::ExposureCompensation => "canon_exposure_compensation",
        }
    }

    /// The UI group of the control.
    pub fn group(self) -> (r: &'static str)
        ensures
            r@ == control_group(self),
    {
        match self {
            ControlId::Pan => "advanced",
            ControlId::Tilt => "advanced",
            ControlId::Roll => "advanced",
            ControlId::Zoom => "focus",
            ControlId::Exposure => "exposure",
            ControlId::Iris => "focus",
            ControlId::Focus => "focus",
            ControlId::Brightness => "image",
            ControlId::Contrast => "image",
            ControlId::Hue => "image",
            ControlId::Saturation => "image",
            ControlId::Sharpness => "image",
            ControlId::Gamma => "image",
            ControlId::ColorEnable => "advanced",
            ControlId::WhiteBalance => "exposure",
            ControlId::BacklightCompensation => "exposure",
            ControlId::Gain => "image",
            ControlId::Iso => "camera",
            ControlId::Aperture => "camera",
            ControlId::ShutterSpeed => "camera",
            ControlId::ExposureCompensation => "camera",
        }
    }

    /// Parses a snake_case identifier; the exact inverse of `as_id_str`.
    pub fn from_str_id(s: &str) -> (r: Option<ControlId>)
        ensures
            r == control_from_str(s@),
    {
        if str_eq(s, "pan") {
            return Some(ControlId::Pan);
        }
        if str_eq(s, "tilt") {
            return Some(ControlId::Tilt);
        }
        if str_eq(s, "roll") {
            return Some(ControlId::Roll);
        }
        if str_eq(s, "zoom") {
            return Some(ControlId::Zoom);
        }
        if str_eq(s, "exposure") {
            return Some(ControlId::Exposure);
        }
        if str_eq(s, "iris") {
            return Some(ControlId::Iris);
        }
        if str_eq(s, "focus") {
            return Some(ControlId::Focus);
        }
        if str_eq(s, "brightness") {
            return Some(ControlId::Brightness);
        }
        if str_eq(s, "contrast") {
            return Some(ControlId::Contrast);
        }
        if str_eq(s, "hue") {
            return Some(ControlId::Hue);
        }
        if str_eq(s, "saturation") {
            return Some(ControlId::Saturation);
        }
        if str_eq(s, "sharpness") {
            return Some(ControlId::Sharpness);
        }
        if str_eq(s, "gamma") {
            return Some(ControlId::Gamma);
        }
        if str_eq(s, "color_enable") {
            return Some(ControlId::ColorEnable);
        }
        if str_eq(s, "white_balance") {
            return Some(ControlId::WhiteBalance);
        }
        if str_eq(s, "backlight_compensation") {
            return Some(ControlId::BacklightCompensation);
        }
        if str_eq(s, "gain") {
            return Some(ControlId::Gain);
        }
        if str_eq(s, "canon_iso") {
            return Some(ControlId::Iso);
        }
        if str_eq(s, "canon_aperture") {
            return Some(ControlId::Aperture);
        }
        if str_eq(s, "canon_shutter_speed") {
            return Some(ControlId::ShutterSpeed);
        }
        if str_eq(s, "canon_exposure_compensation") {
            return Some(ControlId::ExposureCompensation);
        }
        None
    }
}

/// Parsing the identifier of a control gives that control back.
pub proof fn lemma_control_id_round_trip(c: ControlId)
    ensures
        control_from_str(control_id_str(c)) == Some(c),
{
    match c {
        ControlId::Pan => {
            reveal_strlit("pan");
        },
        ControlId::Tilt => {
            reveal_strlit("tilt");
            reveal_strlit("pan");
            assert("tilt"@.len() != "pan"@.len());
        },
        ControlId::Roll => {
            reveal_strlit("roll");
            reveal_strlit("pan");
            assert("roll"@.len() != "pan"@.len());
            reveal_strlit("tilt");
            assert("roll"@[0] != "tilt"@[0]);
        },
        ControlId::Zoom => {
            reveal_strlit("zoom");
            reveal_strlit("pan");
            assert("zoom"@.len() != "pan"@.len());
            reveal_strlit("tilt");
            assert("zoom"@[0] != "tilt"@[0]);
            reveal_strlit("roll");
            assert("zoom"@[0] != "roll"@[0]);
        },
        ControlId::Exposure => {
            reveal_strlit("exposure");
            reveal_strlit("pan");
            assert("exposure"@.len() != "pan"@.len());
            reveal_strlit("tilt");
            assert("exposure"@.len() != "tilt"@.len());
            reveal_strlit("roll");
            assert("exposure"@.len() != "roll"@.len());
            reveal_strlit("zoom");
            assert("exposure"@.len() != "zoom"@.len());
        },
        ControlId::Iris => {
            reveal_strlit("iris");
            reveal_strlit("pan");
            assert("iris"@.len() != "pan"@.len());
            reveal_strlit("tilt");
            assert("iris"@[0] != "tilt"@[0]);
            reveal_strlit("roll");
            assert("iris"@[0] != "roll"@[0]);
            reveal_strlit("zoom");
            assert("iris"@[0] != "zoom"@[0]);
            reveal_strlit("exposure");
            assert("iris"@.len() != "exposure"@.len());
        },
        ControlId::Focus => {
            reveal_strlit("focus");
            reveal_strlit("pan");
            assert("focus"@.len() != "pan"@.len());
            reveal_strlit("tilt");
            assert("focus"@.len() != "tilt"@.len());
            reveal_strlit("roll");
            assert("focus"@.len() != "roll"@.len());
            reveal_strlit("zoom");
            assert("focus"@.len() != "zoom"@.len());
            reveal_strlit("exposure");
            assert("focus"@.len() != "exposure"@.len());
            reveal_strlit("iris");
            assert("focus"@.len() != "iris"@.len());
        },
        ControlId::Brightness => {
            reveal_strlit("brightness");
            reveal_strlit("pan");
            assert("brightness"@.len() != "pan"@.len());
            reveal_strlit("tilt");
            assert("brightness"@.len() != "tilt"@.len());
            reveal_strlit("roll");
            assert("brightness"@.len() != "roll"@.len());
            reveal_strlit("zoom");
            assert("brightness"@.len() != "zoom"@.len());
            reveal_strlit("exposure");
            assert("brightness"@.len() != "exposure"@.len());
            reveal_strlit("iris");
            assert("brightness"@.len() != "iris"@.len());
            reveal_strlit("focus");
            assert("brightness"@.len() != "focus"@.len());
        },
        ControlId::Contrast => {
            reveal_strlit("contrast");
            reveal_strlit("pan");
            assert("contrast"@.len() != "pan"@.len());
            reveal_strlit("tilt");
            assert("contrast"@.len() != "tilt"@.len());
            reveal_strlit("roll");
            assert("contrast"@.len() != "roll"@.len());
            reveal_strlit("zoom");
            assert("contrast"@.len() != "zoom"@.len());
            reveal_strlit("exposure");
            assert("contrast"@[0] != "exposure"@[0]);
            reveal_strlit("iris");
            assert("contrast"@.len() != "iris"@.len());
            reveal_strlit("focus");
            assert("contrast"@.len() != "focus"@.len());
            reveal_strlit("brightness");
            assert("contrast"@.len() != "brightness"@.len());
        },
        ControlId::Hue => {
            reveal_strlit("hue");
            reveal_strlit("pan");
            assert("hue"@[0] != "pan"@[0]);
            reveal_strlit("tilt");
            assert("hue"@.len() != "tilt"@.len());
            reveal_strlit("roll");
            assert("hue"@.len() != "roll"@.len());
            reveal_strlit("zoom");
            assert("hue"@.len() != "zoom"@.len());
            reveal_strlit("exposure");
            assert("hue"@.len() != "exposure"@.len());
            reveal_strlit("iris");
            assert("hue"@.len() != "iris"@.len());
            reveal_strlit("focus");
            assert("hue"@.len() != "focus"@.len());
            reveal_strlit("brightness");
            assert("hue"@.len() != "brightness"@.len());
            reveal_strlit("contrast");
            assert("hue"@.len() != "contrast"@.len());
        },
        ControlId::Saturation => {
            reveal_strlit("saturation");
            reveal_strlit("pan");
            assert("saturation"@.len() != "pan"@.len());
            reveal_strlit("tilt");
            assert("saturation"@.len() != "tilt"@.len());
            reveal_strlit("roll");
            assert("saturation"@.len() != "roll"@.len());
            reveal_strlit("zoom");
            assert("saturation"@.len() != "zoom"@.len());
            reveal_strlit("exposure");
            assert("saturation"@.len() != "exposure"@.len());
            reveal_strlit("iris");
            assert("saturation"@.len() != "iris"@.len());
            reveal_strlit("focus");
            assert("saturation"@.len() != "focus"@.len());
            reveal_strlit("brightness");
            assert("saturation"@[0] != "brightness"@[0]);
            reveal_strlit("contrast");
            assert("saturation"@.len() != "contrast"@.len());
            reveal_strlit("hue");
            assert("saturation"@.len() != "hue"@.len());
        },
        ControlId::Sharpness => {
            reveal_strlit("sharpness");
            reveal_strlit("pan");
            assert("sharpness"@.len() != "pan"@.len());
            reveal_strlit("tilt");
            assert("sharpness"@.len() != "tilt"@.len());
            reveal_strlit("roll");
            assert("sharpness"@.len() != "roll"@.len());
            reveal_strlit("zoom");
            assert("sharpness"@.len() != "zoom"@.len());
            reveal_strlit("exposure");
            assert("sharpness"@.len() != "exposure"@.len());
            reveal_strlit("iris");
            assert("sharpness"@.len() != "iris"@.len());
            reveal_strlit("focus");
            assert("sharpness"@.len() != "focus"@.len());
            reveal_strlit("brightness");
            assert("sharpness"@.len() != "brightness"@.len());
            reveal_strlit("contrast");
            assert("sharpness"@.len() != "contrast"@.len());
            reveal_strlit("hue");
            assert("sharpness"@.len() != "hue"@.len());
            reveal_strlit("saturation");
            assert("sharpness"@.len() != "saturation"@.len());
        },
        ControlId::Gamma => {
            reveal_strlit("gamma");
            reveal_strlit("pan");
            assert("gamma"@.len() != "pan"@.len());
            reveal_strlit("tilt");
            assert("gamma"@.len() != "tilt"@.len());
            reveal_strlit("roll");
            assert("gamma"@.len() != "roll"@.len());
            reveal_strlit("zoom");
            assert("gamma"@.len() != "zoom"@.len());
            reveal_strlit("exposure");
            assert("gamma"@.len() != "exposure"@.len());
            reveal_strlit("iris");
            assert("gamma"@.len() != "iris"@.len());
            reveal_strlit("focus");
            assert("gamma"@[0] != "focus"@[0]);
            reveal_strlit("brightness");
            assert("gamma"@.len() != "brightness"@.len());
            reveal_strlit("contrast");
            assert("gamma"@.len() != "contrast"@.len());
            reveal_strlit("hue");
            assert("gamma"@.len() != "hue"@.len());
            reveal_strlit("saturation");
            assert("gamma"@.len() != "saturation"@.len());
            reveal_strlit("sharpness");
            assert("gamma"@.len() != "sharpness"@.len());
        },
        ControlId::ColorEnable => {
            reveal_strlit("color_enable");
            reveal_strlit("pan");
            assert("color_enable"@.len() != "pan"@.len());
            reveal_strlit("tilt");
            assert("color_enable"@.len() != "tilt"@.len());
            reveal_strlit("roll");
            assert("color_enable"@.len() != "roll"@.len());
            reveal_strlit("zoom");
            assert("color_enable"@.len() != "zoom"@.len());
            reveal_strlit("exposure");
            assert("color_enable"@.len() != "exposure"@.len());
            reveal_strlit("iris");
            assert("color_enable"@.len() != "iris"@.len());
            reveal_strlit("focus");
            assert("color_enable"@.len() != "focus"@.len());
            reveal_strlit("brightness");
            assert("color_enable"@.len() != "brightness"@.len());
            reveal_strlit("contrast");
            assert("color_enable"@.len() != "contrast"@.len());
            reveal_strlit("hue");
            assert("color_enable"@.len() != "hue"@.len());
            reveal_strlit("saturation");
            assert("color_enable"@.len() != "saturation"@.len());
            reveal_strlit("sharpness");
            assert("color_enable"@.len() != "sharpness"@.len());
            reveal_strlit("gamma");
            assert("color_enable"@.len() != "gamma"@.len());
        },
        ControlId::WhiteBalance => {
            reveal_strlit("white_balance");
            reveal_strlit("pan");
            assert("white_balance"@.len() != "pan"@.len());
            reveal_strlit("tilt");
            assert("white_balance"@.len() != "tilt"@.len());
            reveal_strlit("roll");
            assert("white_balance"@.len() != "roll"@.len());
            reveal_strlit("zoom");
            assert("white_balance"@.len() != "zoom"@.len());
            reveal_strlit("exposure");
            assert("white_balance"@.len() != "exposure"@.len());
            reveal_strlit("iris");
            assert("white_balance"@.len() != "iris"@.len());
            reveal_strlit("focus");
            assert("white_balance"@.len() != "focus"@.len());
            reveal_strlit("brightness");
            assert("white_balance"@.len() != "brightness"@.len());
            reveal_strlit("contrast");
            assert("white_balance"@.len() != "contrast"@.len());
            reveal_strlit("hue");
            assert("white_balance"@.len() != "hue"@.len());
            reveal_strlit("saturation");
            assert("white_balance"@.len() != "saturation"@.len());
            reveal_strlit("sharpness");
            assert("white_balance"@.len() != "sharpness"@.len());
            reveal_strlit("gamma");
            assert("white_balance"@.len() != "gamma"@.len());
            reveal_strlit("color_enable");
            assert("white_balance"@.len() != "color_enable"@.len());
        },
        ControlId::BacklightCompensation => {
            reveal_strlit("backlight_compensation");
            reveal_strlit("pan");
            assert("backlight_compensation"@.len() != "pan"@.len());
            reveal_strlit("tilt");
            assert("backlight_compensation"@.len() != "tilt"@.len());
            reveal_strlit("roll");
            assert("backlight_compensation"@.len() != "roll"@.len());
            reveal_strlit("zoom");
            assert("backlight_compensation"@.len() != "zoom"@.len());
            reveal_strlit("exposure");
            assert("backlight_compensation"@.len() != "exposure"@.len());
            reveal_strlit("iris");
            assert("backlight_compensation"@.len() != "iris"@.len());
            reveal_strlit("focus");
            assert("backlight_compensation"@.len() != "focus"@.len());
            reveal_strlit("brightness");
            assert("backlight_compensation"@.len() != "brightness"@.len());
            reveal_strlit("contrast");
            assert("backlight_compensation"@.len() != "contrast"@.len());
            reveal_strlit("hue");
            assert("backlight_compensation"@.len() != "hue"@.len());
            reveal_strlit("saturation");
            assert("backlight_compensation"@.len() != "saturation"@.len());
            reveal_strlit("sharpness");
            assert("backlight_compensation"@.len() != "sharpness"@.len());
            reveal_strlit("gamma");
            assert("backlight_compensation"@.len() != "gamma"@.len());
            reveal_strlit("color_enable");
            assert("backlight_compensation"@.len() != "color_enable"@.len());
            reveal_strlit("white_balance");
            assert("backlight_compensation"@.len() != "white_balance"@.len());
        },
        ControlId::Gain => {
            reveal_strlit("gain");
            reveal_strlit("pan");
            assert("gain"@.len() != "pan"@.len());
            reveal_strlit("tilt");
            assert("gain"@[0] != "tilt"@[0]);
            reveal_strlit("roll");
            assert("gain"@[0] != "roll"@[0]);
            reveal_strlit("zoom");
            assert("gain"@[0] != "zoom"@[0]);
            reveal_strlit("exposure");
            assert("gain"@.len() != "exposure"@.len());
            reveal_strlit("iris");
            assert("gain"@[0] != "iris"@[0]);
            reveal_strlit("focus");
            assert("gain"@.len() != "focus"@.len());
            reveal_strlit("brightness");
            assert("gain"@.len() != "brightness"@.len());
            reveal_strlit("contrast");
            assert("gain"@.len() != "contrast"@.len());
            reveal_strlit("hue");
            assert("gain"@.len() != "hue"@.len());
            reveal_strlit("saturation");
            assert("gain"@.len() != "saturation"@.len());
            reveal_strlit("sharpness");
            assert("gain"@.len() != "sharpness"@.len());
            reveal_strlit("gamma");
            assert("gain"@.len() != "gamma"@.len());
            reveal_strlit("color_enable");
            assert("gain"@.len() != "color_enable"@.len());
            reveal_strlit("white_balance");
            assert("gain"@.len() != "white_balance"@.len());
            reveal_strlit("backlight_compensation");
            assert("gain"@.len() != "backlight_compensation"@.len());
        },
        ControlId::Iso => {
            reveal_strlit("canon_iso");
            reveal_strlit("pan");
            assert("canon_iso"@.len() != "pan"@.len());
            reveal_strlit("tilt");
            assert("canon_iso"@.len() != "tilt"@.len());
            reveal_strlit("roll");
            assert("canon_iso"@.len() != "roll"@.len());
            reveal_strlit("zoom");
            assert("canon_iso"@.len() != "zoom"@.len());
            reveal_strlit("exposure");
            assert("canon_iso"@.len() != "exposure"@.len());
            reveal_strlit("iris");
            assert("canon_iso"@.len() != "iris"@.len());
            reveal_strlit("focus");
            assert("canon_iso"@.len() != "focus"@.len());
            reveal_strlit("brightness");
            assert("canon_iso"@.len() != "brightness"@.len());
            reveal_strlit("contrast");
            assert("canon_iso"@.len() != "contrast"@.len());
            reveal_strlit("hue");
            assert("canon_iso"@.len() != "hue"@.len());
            reveal_strlit("saturation");
            assert("canon_iso"@.len() != "saturation"@.len());
            reveal_strlit("sharpness");
            assert("canon_iso"@[0] != "sharpness"@[0]);
            reveal_strlit("gamma");
            assert("canon_iso"@.len() != "gamma"@.len());
            reveal_strlit("color_enable");
            assert("canon_iso"@.len() != "color_enable"@.len());
            reveal_strlit("white_balance");
            assert("canon_iso"@.len() != "white_balance"@.len());
            reveal_strlit("backlight_compensation");
            assert("canon_iso"@.len() != "backlight_compensation"@.len());
            reveal_strlit("gain");
            assert("canon_iso"@.len() != "gain"@.len());
        },
        ControlId::Aperture => {
            reveal_strlit("canon_aperture");
            reveal_strlit("pan");
            assert("canon_aperture"@.len() != "pan"@.len());
            reveal_strlit("tilt");
            assert("canon_aperture"@.len() != "tilt"@.len());
            reveal_strlit("roll");
            assert("canon_aperture"@.len() != "roll"@.len());
            reveal_strlit("zoom");
            assert("canon_aperture"@.len() != "zoom"@.len());
            reveal_strlit("exposure");
            assert("canon_aperture"@.len() != "exposure"@.len());
            reveal_strlit("iris");
            assert("canon_aperture"@.len() != "iris"@.len());
            reveal_strlit("focus");
            assert("canon_aperture"@.len() != "focus"@.len());
            reveal_strlit("brightness");
            assert("canon_aperture"@.len() != "brightness"@.len());
            reveal_strlit("contrast");
            assert("canon_aperture"@.len() != "contrast"@.len());
            reveal_strlit("hue");
            assert("canon_aperture"@.len() != "hue"@.len());
            reveal_strlit("saturation");
            assert("canon_aperture"@.len() != "saturation"@.len());
            reveal_strlit("sharpness");
            assert("canon_aperture"@.len() != "sharpness"@.len());
            reveal_strlit("gamma");
            assert("canon_aperture"@.len() != "gamma"@.len());
            reveal_strlit("color_enable");
            assert("canon_aperture"@.len() != "color_enable"@.len());
            reveal_strlit("white_balance");
            assert("canon_aperture"@.len() != "white_balance"@.len());
            reveal_strlit("backlight_compensation");
            assert("canon_aperture"@.len() != "backlight_compensation"@.len());
            reveal_strlit("gain");
            assert("canon_aperture"@.len() != "gain"@.len());
            reveal_strlit("canon_iso");
            assert("canon_aperture"@.len() != "canon_iso"@.len());
        },
        ControlId::ShutterSpeed => {
            reveal_strlit("canon_shutter_speed");
            reveal_strlit("pan");
            assert("canon_shutter_speed"@.len() != "pan"@.len());
            reveal_strlit("tilt");
            assert("canon_shutter_speed"@.len() != "tilt"@.len());
            reveal_strlit("roll");
            assert("canon_shutter_speed"@.len() != "roll"@.len());
            reveal_strlit("zoom");
            assert("canon_shutter_speed"@.len() != "zoom"@.len());
            reveal_strlit("exposure");
            assert("canon_shutter_speed"@.len() != "exposure"@.len());
            reveal_strlit("iris");
            assert("canon_shutter_speed"@.len() != "iris"@.len());
            reveal_strlit("focus");
            assert("canon_shutter_speed"@.len() != "focus"@.len());
            reveal_strlit("brightness");
            assert("canon_shutter_speed"@.len() != "brightness"@.len());
            reveal_strlit("contrast");
            assert("canon_shutter_speed"@.len() != "contrast"@.len());
            reveal_strlit("hue");
            assert("canon_shutter_speed"@.len() != "hue"@.len());
            reveal_strlit("saturation");
            assert("canon_shutter_speed"@.len() != "saturation"@.len());
            reveal_strlit("sharpness");
            assert("canon_shutter_speed"@.len() != "sharpness"@.len());
            reveal_strlit("gamma");
            assert("canon_shutter_speed"@.len() != "gamma"@.len());
            reveal_strlit("color_enable");
            assert("canon_shutter_speed"@.len() != "color_enable"@.len());
            reveal_strlit("white_balance");
            assert("canon_shutter_speed"@.len() != "white_balance"@.len());
            reveal_strlit("backlight_compensation");
            assert("canon_shutter_speed"@.len() != "backlight_compensation"@.len());
            reveal_strlit("gain");
            assert("canon_shutter_speed"@.len() != "gain"@.len());
            reveal_strlit("canon_iso");
            assert("canon_shutter_speed"@.len() != "canon_iso"@.len());
            reveal_strlit("canon_aperture");
            assert("canon_shutter_speed"@.len() != "canon_aperture"@.len());
        },
        ControlId::ExposureCompensation => {
            reveal_strlit("canon_exposure_compensation");
            reveal_strlit("pan");
            assert("canon_exposure_compensation"@.len() != "pan"@.len());
            reveal_strlit("tilt");
            assert("canon_exposure_compensation"@.len() != "tilt"@.len());
            reveal_strlit("roll");
            assert("canon_exposure_compensation"@.len() != "roll"@.len());
            reveal_strlit("zoom");
            assert("canon_exposure_compensation"@.len() != "zoom"@.len());
            reveal_strlit("exposure");
            assert("canon_exposure_compensation"@.len() != "exposure"@.len());
            reveal_strlit("iris");
            assert("canon_exposure_compensation"@.len() != "iris"@.len());
            reveal_strlit("focus");
            assert("canon_exposure_compensation"@.len() != "focus"@.len());
            reveal_strlit("brightness");
            assert("canon_exposure_compensation"@.len() != "brightness"@.len());
            reveal_strlit("contrast");
            assert("canon_exposure_compensation"@.len() != "contrast"@.len());
            reveal_strlit("hue");
            assert("canon_exposure_compensation"@.len() != "hue"@.len());
            reveal_strlit("saturation");
            assert("canon_exposure_compensation"@.len() != "saturation"@.len());
            reveal_strlit("sharpness");
            assert("canon_exposure_compensation"@.len() != "sharpness"@.len());
            reveal_strlit("gamma");
            assert("canon_exposure_compensation"@.len() != "gamma"@.len());
            reveal_strlit("color_enable");
            assert("canon_exposure_compensation"@.len() != "color_enable"@.len());
            reveal_strlit("white_balance");
            assert("canon_exposure_compensation"@.len() != "white_balance"@.len());
            reveal_strlit("backlight_compensation");
            assert("canon_exposure_compensation"@.len() != "backlight_compensation"@.len());
            reveal_strlit("gain");
            assert("canon_exposure_compensation"@.len() != "gain"@.len());
            reveal_strlit("canon_iso");
            assert("canon_exposure_compensation"@.len() != "canon_iso"@.len());
            reveal_strlit("canon_aperture");
            assert("canon_exposure_compensation"@.len() != "canon_aperture"@.len());
            reveal_strlit("canon_shutter_speed");
            assert("canon_exposure_compensation"@.len() != "canon_shutter_speed"@.len());
        },
    }
}



/// Kind of UI widget for a control.
#[derive(Debug, Clone, Copy, PartialEq, Eq, Structural)]
pub enum ControlType {
    Slider,
    Toggle,
    Select,
}

/// Capability flags of a control.
#[derive(Debug, Clone, Copy, PartialEq, Eq, Structural)]
pub struct ControlFlags {
    pub supports_auto: bool,
    pub is_auto_enabled: bool,
    pub is_read_only: bool,
}

/// One legal value of a select control, with its label.
#[derive(Debug)]
pub struct ControlOption {
    pub value: i32,
    pub label: String,
}

impl Clone for ControlOption {
    fn clone(&self) -> (r: ControlOption)
        ensures
            r.value == self.value,
            r.label@ == self.label@,
    {
        ControlOption { value: self.value, label: self.label.clone() }
    }
}

/// Full metadata of one camera control.
#[derive(Debug)]
pub struct ControlDescriptor {
    pub id: String,
    pub name: String,
    pub control_type: ControlType,
    pub group: String,
    pub min: Option<i32>,
    pub max: Option<i32>,
    pub step: Option<i32>,
    pub default: Option<i32>,
    pub current: i32,
    pub flags: ControlFlags,
    pub options: Option<Vec<ControlOption>>,
    pub supported: bool,
}

impl ControlDescriptor {
    /// The descriptor's invariants: a select has options; a slider has
    /// `min < max` and a positive step; a default lies within the range.
    pub open spec fn well_formed(&self) -> bool {
        &&& (self.control_type == ControlType::Select ==> self.options is Some)
        &&& (self.control_type == ControlType::Slider ==> (self.min is Some && self.max is Some
            && self.min->0 < self.max->0 && self.step is Some && self.step->0 > 0))
        &&& (self.default is Some ==> ((self.min is Some ==> self.min->0 <= self.default->0) && (
        self.max is Some ==> self.default->0 <= self.max->0)))
    }

    /// Two descriptors agree on everything that a clone keeps.
    pub open spec fn same_as(&self, o: &ControlDescriptor) -> bool {
        &&& self.id@ == o.id@
        &&& self.name@ == o.name@
        &&& self.control_type == o.control_type
        &&& self.group@ == o.group@
        &&& self.min == o.min
        &&& self.max == o.max
        &&& self.step == o.step
        &&& self.default == o.default
        &&& self.current == o.current
        &&& self.flags == o.flags
        &&& self.options is Some == o.options is Some
        &&& self.supported == o.supported
    }
}

impl Clone for ControlDescriptor {
    fn clone(&self) -> (r: ControlDescriptor)
        ensures
            r.same_as(self),
    {
        let options = match &self.options {
            Some(v) => Some(v.clone()),
            None => None,
        };
        ControlDescriptor {
            id: self.id.clone(),
            name: self.name.clone(),
            control_type: self.control_type,
            group: self.group.clone(),
            min: self.min,
            max: self.max,
            step: self.step,
            default: self.default,
            current: self.current,
            flags: self.flags,
            options,
            supported: self.supported,
        }
    }
}

/// A discovered camera.
#[derive(Debug)]
pub struct CameraDevice {
    pub id: DeviceId,
    pub name: String,
    pub device_path: String,
    pub is_connected: bool,
}

impl CameraDevice {
    /// Two devices agree field by field.
    pub open spec fn same_as(&self, o: &CameraDevice) -> bool {
        &&& self.id@ == o.id@
        &&& self.name@ == o.name@
        &&& self.device_path@ == o.device_path@
        &&& self.is_connected == o.is_connected
    }
}

impl Clone for CameraDevice {
    fn clone(&self) -> (r: CameraDevice)
        ensures
            r.same_as(self),
    {
        CameraDevice {
            id: self.id.clone(),
            name: self.name.clone(),
            device_path: self.device_path.clone(),
            is_connected: self.is_connected,
        }
    }
}

/// Copies a list of devices, element by element.
pub fn clone_devices(v: &Vec<CameraDevice>) -> (r: Vec<CameraDevice>)
    ensures
        r@.len() == v@.len(),
        forall|i: int| 0 <= i < v@.len() ==> r@[i].same_as(&v@[i]),
{
    let mut out: Vec<CameraDevice> = Vec::new();
    let mut i: usize = 0;
    while i < v.len()
        invariant
            i <= v@.len(),
            out@.len() == i,
            forall|j: int| 0 <= j < i ==> out@[j].same_as(&v@[j]),
        decreases v@.len() - i,
    {
        out.push(v[i].clone());
        i += 1;
    }
    out
}

/// The value `v` clamped below by `min` and then above by `max`, each when
/// present.
pub open spec fn clamp_opt(v: int, min: Option<i32>, max: Option<i32>) -> int {
    let lo_applied = match min {
        Some(lo) => if v < lo { lo as int } else { v },
        None => v,
    };
    match max {
        Some(hi) => if lo_applied > hi { hi as int } else { lo_applied },
        None => lo_applied,
    }
}

/// A control value, clamped to its range when it is built.
#[derive(Debug, Clone, Copy, PartialEq, Eq, Structural)]
pub struct ControlValue(i32);

impl View for ControlValue {
    type V = i32;

    closed spec fn view(&self) -> i32 {
        self.0
    }
}

impl ControlValue {
    /// Builds a value from `value`, raised to `min` and then lowered to `max`
    /// where these are given.
    pub fn new(value: i32, min: Option<i32>, max: Option<i32>) -> (r: ControlValue)
        ensures
            r@ as int == clamp_opt(value as int, min, max),
    {
        let mut v = value;
        if let Some(lo) = min {
            if v < lo {
                v = lo;
            }
        }
        if let Some(hi) = max {
            if v > hi {
                v = hi;
            }
        }
        ControlValue(v)
    }

    /// The raw value.
    pub fn value(self) -> (r: i32)
        ensures
            r == self@,
    {
        self.0
    }
}

/// With both bounds given and in order, a constructed value lies within them.
pub proof fn lemma_control_value_in_range(v: i32, lo: i32, hi: i32)
    requires
        lo <= hi,
    ensures
        lo <= clamp_opt(v as int, Some(lo), Some(hi)) <= hi,
{
}

/// A video format: resolution, frame rate in thousandths of a frame per
/// second, and FourCC pixel format.
#[derive(Debug, PartialEq, Eq)]
pub struct FormatDescriptor {
    pub width: u32,
    pub height: u32,
    pub fps_milli: u32,
    pub pixel_format: String,
}

/// Lexicographic comparison of character sequences: negative, zero or
/// positive as `a` sorts before, equal to, or after `b`.
pub open spec fn seq_cmp(a: Seq<char>, b: Seq<char>) -> int
    decreases a.len(),
{
    if a.len() == 0 {
        if b.len() == 0 { 0 } else { -1 }
    } else if b.len() == 0 {
        1
    } else if a[0] < b[0] {
        -1
    } else if a[0] > b[0] {
        1
    } else {
        seq_cmp(a.drop_first(), b.drop_first())
    }
}

/// `a` sorts strictly before `b`: more pixels first, then higher frame
/// rate, then pixel format in ascending order.
pub open spec fn format_before(a: &FormatDescriptor, b: &FormatDescriptor) -> bool {
    let pa = a.width as int * a.height as int;
    let pb = b.width as int * b.height as int;
    if pa != pb {
        pa > pb
    } else if a.fps_milli != b.fps_milli {
        a.fps_milli > b.fps_milli
    } else {
        seq_cmp(a.pixel_format@, b.pixel_format@) < 0
    }
}

/// `w * h` without overflow.
pub(crate) fn pixel_count(w: u32, h: u32) -> (r: u64)
    ensures
        r == w as int * h as int,
{
    proof {
        assert(w as int * h as int <= 0xFFFF_FFFFint * 0xFFFF_FFFFint) by (nonlinear_arith)
            requires
                w <= 0xFFFF_FFFFint,
                h <= 0xFFFF_FFFFint,
        ;
    }
    (w as u64) * (h as u64)
}

impl FormatDescriptor {
    /// Whether `self` sorts strictly before `other`.
    pub fn sorts_before(&self, other: &FormatDescriptor) -> (r: bool)
        ensures
            r == format_before(self, other),
    {
        let pa = pixel_count(self.width, self.height);
        let pb = pixel_count(other.width, other.height);
        if pa != pb {
            return pa > pb;
        }
        if self.fps_milli != other.fps_milli {
            return self.fps_milli > other.fps_milli;
        }
        let a = chars_of(self.pixel_format.as_str());
        let b = chars_of(other.pixel_format.as_str());
        let mut i: usize = 0;
        assert(a@.subrange(0, a@.len() as int) =~= a@);
        assert(b@.subrange(0, b@.len() as int) =~= b@);
        while i < a.len() && i < b.len()
            invariant
                pa == pb,
                self.fps_milli == other.fps_milli,
                pa == self.width as int * self.height as int,
                pb == other.width as int * other.height as int,
                a@ == self.pixel_format@,
                b@ == other.pixel_format@,
                i <= a@.len(),
                i <= b@.len(),
                seq_cmp(a@, b@) == seq_cmp(a@.subrange(i as int, a@.len() as int), b@.subrange(i as int, b@.len() as int)),
            decreases a@.len() - i,
        {
            let ca = a[i];
            let cb = b[i];
            proof {
                let sa = a@.subrange(i as int, a@.len() as int);
                let sb = b@.subrange(i as int, b@.len() as int);
                assert(sa.drop_first() =~= a@.subrange(i + 1, a@.len() as int));
                assert(sb.drop_first() =~= b@.subrange(i + 1, b@.len() as int));
                assert(sa[0] == ca && sb[0] == cb);
            }
            if ca < cb {
                proof {
                    let sa = a@.subrange(i as int, a@.len() as int);
                    let sb = b@.subrange(i as int, b@.len() as int);
                    assert(seq_cmp(sa, sb) == -1);
                    assert(seq_cmp(a@, b@) == -1);
                    assert(pa == pb);
                }
                return true;
            }
            if ca > cb {
                return false;
            }
            i += 1;
        }
        i == a.len() && i < b.len()
    }
}

/// An event as plain values: whether it is a connect, and the device.
pub open spec fn event_view(e: HotplugEvent) -> (bool, Seq<char>) {
    match e {
        HotplugEvent::Connected(d) => (true, d.id@),
        HotplugEvent::Disconnected { id } => (false, id@),
    }
}

/// A list of events as plain values.
pub open spec fn events_view(es: Seq<HotplugEvent>) -> Seq<(bool, Seq<char>)> {
    Seq::new(es.len(), |i: int| event_view(es[i]))
}

/// For each `(key, device id)` entry whose key is not in `excluded`, in
/// order, the device id tagged with `tag`.
pub open spec fn tagged_missing(entries: Seq<(Seq<char>, Seq<char>)>, excluded: Seq<Seq<char>>, tag: bool) -> Seq<(bool, Seq<char>)>
    decreases entries.len(),
{
    if entries.len() == 0 {
        Seq::empty()
    } else {
        let rest = tagged_missing(entries.drop_last(), excluded, tag);
        if excluded.contains(entries.last().0) {
            rest
        } else {
            rest.push((tag, entries.last().1))
        }
    }
}

/// A connect or disconnect notification.
#[derive(Debug)]
pub enum HotplugEvent {
    Connected(CameraDevice),
    Disconnected { id: DeviceId },
}

} // verus!
