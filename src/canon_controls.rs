//! Mapping of vendor-SDK properties to control descriptors, with the
//! translation of property codes into display labels.

use vstd::prelude::*;
use crate::eds::{
    CameraHandle, EdsPropertyID, EdsSdkApi, PROP_ID_AV, PROP_ID_EXPOSURE_COMPENSATION,
    PROP_ID_ISO_SPEED, PROP_ID_TV, PROP_ID_WHITE_BALANCE,
};
use crate::error::CameraError;
use crate::text::{dec_digits, dec_int, hex_min, push_char, push_dec, push_hex_min, push_int, push_str};
use crate::types::{ControlDescriptor, ControlFlags, ControlOption, ControlType};

verus! {

/// Display label of an ISO speed code.
pub open spec fn iso_label(value: i32) -> Seq<char> {
    if value == 0x28 {
        "6"@
    } else if value == 0x30 {
        "12"@
    } else if value == 0x38 {
        "25"@
    } else if value == 0x40 {
        "50"@
    } else if value == 0x48 {
        "100"@
    } else if value == 0x4B {
        "125"@
    } else if value == 0x4D {
        "160"@
    } else if value == 0x50 {
        "200"@
    } else if value == 0x53 {
        "250"@
    } else if value == 0x55 {
        "320"@
    } else if value == 0x58 {
        "400"@
    } else if value == 0x5B {
        "500"@
    } else if value == 0x5D {
        "640"@
    } else if value == 0x60 {
        "800"@
    } else if value == 0x63 {
        "1000"@
    } else if value == 0x65 {
        "1250"@
    } else if value == 0x68 {
        "1600"@
    } else if value == 0x6B {
        "2000"@
    } else if value == 0x6D {
        "2500"@
    } else if value == 0x70 {
        "3200"@
    } else if value == 0x73 {
        "4000"@
    } else if value == 0x75 {
        "5000"@
    } else if value == 0x78 {
        "6400"@
    } else if value == 0x7B {
        "8000"@
    } else if value == 0x7D {
        "10000"@
    } else if value == 0x80 {
        "12800"@
    } else if value == 0x83 {
        "16000"@
    } else if value == 0x85 {
        "20000"@
    } else if value == 0x88 {
        "25600"@
    } else if value == 0x90 {
        "51200"@
    } else if value == 0x98 {
        "102400"@
    } else {
        "ISO 0x"@ + hex_min(value as u32 as nat, true)
    }
}

/// Display label of an ISO speed code.
pub fn translate_iso(value: i32) -> (r: String)
    ensures
        r@ == iso_label(value),
{
    if value == 0x28 {
        return "6".to_string();
    }
    if value == 0x30 {
        return "12".to_string();
    }
    if value == 0x38 {
        return "25".to_string();
    }
    if value == 0x40 {
        return "50".to_string();
    }
    if value == 0x48 {
        return "100".to_string();
    }
    if value == 0x4B {
        return "125".to_string();
    }
    if value == 0x4D {
        return "160".to_string();
    }
    if value == 0x50 {
        return "200".to_string();
    }
    if value == 0x53 {
        return "250".to_string();
    }
    if value == 0x55 {
        return "320".to_string();
    }
    if value == 0x58 {
        return "400".to_string();
    }
    if value == 0x5B {
        return "500".to_string();
    }
    if value == 0x5D {
        return "640".to_string();
    }
    if value == 0x60 {
        return "800".to_string();
    }
    if value == 0x63 {
        return "1000".to_string();
    }
    if value == 0x65 {
        return "1250".to_string();
    }
    if value == 0x68 {
        return "1600".to_string();
    }
    if value == 0x6B {
        return "2000".to_string();
    }
    if value == 0x6D {
        return "2500".to_string();
    }
    if value == 0x70 {
        return "3200".to_string();
    }
    if value == 0x73 {
        return "4000".to_string();
    }
    if value == 0x75 {
        return "5000".to_string();
    }
    if value == 0x78 {
        return "6400".to_string();
    }
    if value == 0x7B {
        return "8000".to_string();
    }
    if value == 0x7D {
        return "10000".to_string();
    }
    if value == 0x80 {
        return "12800".to_string();
    }
    if value == 0x83 {
        return "16000".to_string();
    }
    if value == 0x85 {
        return "20000".to_string();
    }
    if value == 0x88 {
        return "25600".to_string();
    }
    if value == 0x90 {
        return "51200".to_string();
    }
    if value == 0x98 {
        return "102400".to_string();
    }
    let mut s = String::new();
    push_str(&mut s, "ISO 0x");
    push_hex_min(&mut s, value as u32 as u64, true);
    s
}

/// Display label of an aperture code.
pub open spec fn aperture_label(value: i32) -> Seq<char> {
    if value == 0x08 {
        "f/1.0"@
    } else if value == 0x0B {
        "f/1.1"@
    } else if value == 0x0D {
        "f/1.2"@
    } else if value == 0x10 {
        "f/1.4"@
    } else if value == 0x13 {
        "f/1.6"@
    } else if value == 0x15 {
        "f/1.8"@
    } else if value == 0x18 {
        "f/2.0"@
    } else if value == 0x1B {
        "f/2.2"@
    } else if value == 0x1D {
        "f/2.5"@
    } else if value == 0x20 {
        "f/2.8"@
    } else if value == 0x23 {
        "f/3.2"@
    } else if value == 0x25 {
        "f/3.5"@
    } else if value == 0x28 {
        "f/4.0"@
    } else if value == 0x2B {
        "f/4.5"@
    } else if value == 0x2D {
        "f/5.0"@
    } else if value == 0x30 {
        "f/5.6"@
    } else if value == 0x33 {
        "f/6.3"@
    } else if value == 0x35 {
        "f/7.1"@
    } else if value == 0x38 {
        "f/8.0"@
    } else if value == 0x3B {
        "f/9.0"@
    } else if value == 0x3D {
        "f/10"@
    } else if value == 0x40 {
        "f/11"@
    } else if value == 0x43 {
        "f/13"@
    } else if value == 0x45 {
        "f/14"@
    } else if value == 0x48 {
        "f/16"@
    } else if value == 0x4B {
        "f/18"@
    } else if value == 0x4D {
        "f/20"@
    } else if value == 0x50 {
        "f/22"@
    } else if value == 0x53 {
        "f/25"@
    } else if value == 0x55 {
        "f/29"@
    } else if value == 0x58 {
        "f/32"@
    } else {
        "f/? (0x"@ + hex_min(value as u32 as nat, true) + ")"@
    }
}

/// Display label of an aperture code.
pub fn translate_aperture(value: i32) -> (r: String)
    ensures
        r@ == aperture_label(value),
{
    if value == 0x08 {
        return "f/1.0".to_string();
    }
    if value == 0x0B {
        return "f/1.1".to_string();
    }
    if value == 0x0D {
        return "f/1.2".to_string();
    }
    if value == 0x10 {
        return "f/1.4".to_string();
    }
    if value == 0x13 {
        return "f/1.6".to_string();
    }
    if value == 0x15 {
        return "f/1.8".to_string();
    }
    if value == 0x18 {
        return "f/2.0".to_string();
    }
    if value == 0x1B {
        return "f/2.2".to_string();
    }
    if value == 0x1D {
        return "f/2.5".to_string();
    }
    if value == 0x20 {
        return "f/2.8".to_string();
    }
    if value == 0x23 {
        return "f/3.2".to_string();
    }
    if value == 0x25 {
        return "f/3.5".to_string();
    }
    if value == 0x28 {
        return "f/4.0".to_string();
    }
    if value == 0x2B {
        return "f/4.5".to_string();
    }
    if value == 0x2D {
        return "f/5.0".to_string();
    }
    if value == 0x30 {
        return "f/5.6".to_string();
    }
    if value == 0x33 {
        return "f/6.3".to_string();
    }
    if value == 0x35 {
        return "f/7.1".to_string();
    }
    if value == 0x38 {
        return "f/8.0".to_string();
    }
    if value == 0x3B {
        return "f/9.0".to_string();
    }
    if value == 0x3D {
        return "f/10".to_string();
    }
    if value == 0x40 {
        return "f/11".to_string();
    }
    if value == 0x43 {
        return "f/13".to_string();
    }
    if value == 0x45 {
        return "f/14".to_string();
    }
    if value == 0x48 {
        return "f/16".to_string();
    }
    if value == 0x4B {
        return "f/18".to_string();
    }
    if value == 0x4D {
        return "f/20".to_string();
    }
    if value == 0x50 {
        return "f/22".to_string();
    }
    if value == 0x53 {
        return "f/25".to_string();
    }
    if value == 0x55 {
        return "f/29".to_string();
    }
    if value == 0x58 {
        return "f/32".to_string();
    }
    let mut s = String::new();
    push_str(&mut s, "f/? (0x");
    push_hex_min(&mut s, value as u32 as u64, true);
    push_char(&mut s, ')');
    proof {
        reveal_strlit(")");
    }
    s
}

/// Display label of a shutter-speed code.
pub open spec fn shutter_label(value: i32) -> Seq<char> {
    if value == 0x10 {
        "30\""@
    } else if value == 0x13 {
        "25\""@
    } else if value == 0x14 {
        "20\""@
    } else if value == 0x15 {
        "20\""@
    } else if value == 0x18 {
        "15\""@
    } else if value == 0x1B {
        "13\""@
    } else if value == 0x1D {
        "10\""@
    } else if value == 0x20 {
        "8\""@
    } else if value == 0x23 {
        "6\""@
    } else if value == 0x25 {
        "5\""@
    } else if value == 0x28 {
        "4\""@
    } else if value == 0x2B {
        "3.2\""@
    } else if value == 0x2D {
        "2.5\""@
    } else if value == 0x30 {
        "2\""@
    } else if value == 0x33 {
        "1.6\""@
    } else if value == 0x35 {
        "1.3\""@
    } else if value == 0x38 {
        "1\""@
    } else if value == 0x3B {
        "0.8\""@
    } else if value == 0x3D {
        "0.6\""@
    } else if value == 0x40 {
        "0.5\""@
    } else if value == 0x43 {
        "0.4\""@
    } else if value == 0x45 {
        "0.3\""@
    } else if value == 0x48 {
        "1/4"@
    } else if value == 0x4B {
        "1/5"@
    } else if value == 0x4D {
        "1/6"@
    } else if value == 0x50 {
        "1/8"@
    } else if value == 0x53 {
        "1/10"@
    } else if value == 0x55 {
        "1/13"@
    } else if value == 0x58 {
        "1/15"@
    } else if value == 0x5B {
        "1/20"@
    } else if value == 0x5D {
        "1/25"@
    } else if value == 0x60 {
        "1/30"@
    } else if value == 0x63 {
        "1/40"@
    } else if value == 0x65 {
        "1/50"@
    } else if value == 0x68 {
        "1/60"@
    } else if value == 0x6B {
        "1/80"@
    } else if value == 0x6D {
        "1/100"@
    } else if value == 0x70 {
        "1/125"@
    } else if value == 0x73 {
        "1/160"@
    } else if value == 0x75 {
        "1/200"@
    } else if value == 0x78 {
        "1/250"@
    } else if value == 0x7B {
        "1/320"@
    } else if value == 0x7D {
        "1/400"@
    } else if value == 0x80 {
        "1/500"@
    } else if value == 0x83 {
        "1/640"@
    } else if value == 0x85 {
        "1/800"@
    } else if value == 0x88 {
        "1/1000"@
    } else if value == 0x8B {
        "1/1250"@
    } else if value == 0x8D {
        "1/1600"@
    } else if value == 0x90 {
        "1/2000"@
    } else if value == 0x93 {
        "1/2500"@
    } else if value == 0x95 {
        "1/3200"@
    } else if value == 0x98 {
        "1/4000"@
    } else if value == 0x9B {
        "1/5000"@
    } else if value == 0x9D {
        "1/6400"@
    } else if value == 0xA0 {
        "1/8000"@
    } else {
        "Tv 0x"@ + hex_min(value as u32 as nat, true)
    }
}

/// Display label of a shutter-speed code.
pub fn translate_shutter_speed(value: i32) -> (r: String)
    ensures
        r@ == shutter_label(value),
{
    if value == 0x10 {
        return "30\"".to_string();
    }
    if value == 0x13 {
        return "25\"".to_string();
    }
    if value == 0x14 {
        return "20\"".to_string();
    }
    if value == 0x15 {
        return "20\"".to_string();
    }
    if value == 0x18 {
        return "15\"".to_string();
    }
    if value == 0x1B {
        return "13\"".to_string();
    }
    if value == 0x1D {
        return "10\"".to_string();
    }
    if value == 0x20 {
        return "8\"".to_string();
    }
    if value == 0x23 {
        return "6\"".to_string();
    }
    if value == 0x25 {
        return "5\"".to_string();
    }
    if value == 0x28 {
        return "4\"".to_string();
    }
    if value == 0x2B {
        return "3.2\"".to_string();
    }
    if value == 0x2D {
        return "2.5\"".to_string();
    }
    if value == 0x30 {
        return "2\"".to_string();
    }
    if value == 0x33 {
        return "1.6\"".to_string();
    }
    if value == 0x35 {
        return "1.3\"".to_string();
    }
    if value == 0x38 {
        return "1\"".to_string();
    }
    if value == 0x3B {
        return "0.8\"".to_string();
    }
    if value == 0x3D {
        return "0.6\"".to_string();
    }
    if value == 0x40 {
        return "0.5\"".to_string();
    }
    if value == 0x43 {
        return "0.4\"".to_string();
    }
    if value == 0x45 {
        return "0.3\"".to_string();
    }
    if value == 0x48 {
        return "1/4".to_string();
    }
    if value == 0x4B {
        return "1/5".to_string();
    }
    if value == 0x4D {
        return "1/6".to_string();
    }
    if value == 0x50 {
        return "1/8".to_string();
    }
    if value == 0x53 {
        return "1/10".to_string();
    }
    if value == 0x55 {
        return "1/13".to_string();
    }
    if value == 0x58 {
        return "1/15".to_string();
    }
    if value == 0x5B {
        return "1/20".to_string();
    }
    if value == 0x5D {
        return "1/25".to_string();
    }
    if value == 0x60 {
        return "1/30".to_string();
    }
    if value == 0x63 {
        return "1/40".to_string();
    }
    if value == 0x65 {
        return "1/50".to_string();
    }
    if value == 0x68 {
        return "1/60".to_string();
    }
    if value == 0x6B {
        return "1/80".to_string();
    }
    if value == 0x6D {
        return "1/100".to_string();
    }
    if value == 0x70 {
        return "1/125".to_string();
    }
    if value == 0x73 {
        return "1/160".to_string();
    }
    if value == 0x75 {
        return "1/200".to_string();
    }
    if value == 0x78 {
        return "1/250".to_string();
    }
    if value == 0x7B {
        return "1/320".to_string();
    }
    if value == 0x7D {
        return "1/400".to_string();
    }
    if value == 0x80 {
        return "1/500".to_string();
    }
    if value == 0x83 {
        return "1/640".to_string();
    }
    if value == 0x85 {
        return "1/800".to_string();
    }
    if value == 0x88 {
        return "1/1000".to_string();
    }
    if value == 0x8B {
        return "1/1250".to_string();
    }
    if value == 0x8D {
        return "1/1600".to_string();
    }
    if value == 0x90 {
        return "1/2000".to_string();
    }
    if value == 0x93 {
        return "1/2500".to_string();
    }
    if value == 0x95 {
        return "1/3200".to_string();
    }
    if value == 0x98 {
        return "1/4000".to_string();
    }
    if value == 0x9B {
        return "1/5000".to_string();
    }
    if value == 0x9D {
        return "1/6400".to_string();
    }
    if value == 0xA0 {
        return "1/8000".to_string();
    }
    let mut s = String::new();
    push_str(&mut s, "Tv 0x");
    push_hex_min(&mut s, value as u32 as u64, true);
    s
}

/// Display label of a white-balance code.
pub open spec fn white_balance_label(value: i32) -> Seq<char> {
    if value == 0 {
        "Auto"@
    } else if value == 1 {
        "Daylight"@
    } else if value == 2 {
        "Cloudy"@
    } else if value == 3 {
        "Tungsten"@
    } else if value == 4 {
        "Fluorescent"@
    } else if value == 5 {
        "Flash"@
    } else if value == 6 {
        "Manual"@
    } else if value == 8 {
        "Shade"@
    } else if value == 9 {
        "Colour Temperature"@
    } else if value == 15 {
        "Custom 1"@
    } else if value == 16 {
        "Custom 2"@
    } else if value == 18 {
        "Custom 3"@
    } else {
        "WB "@ + dec_int(value as int)
    }
}

/// Display label of a white-balance code.
pub fn translate_white_balance(value: i32) -> (r: String)
    ensures
        r@ == white_balance_label(value),
{
    if value == 0 {
        return "Auto".to_string();
    }
    if value == 1 {
        return "Daylight".to_string();
    }
    if value == 2 {
        return "Cloudy".to_string();
    }
    if value == 3 {
        return "Tungsten".to_string();
    }
    if value == 4 {
        return "Fluorescent".to_string();
    }
    if value == 5 {
        return "Flash".to_string();
    }
    if value == 6 {
        return "Manual".to_string();
    }
    if value == 8 {
        return "Shade".to_string();
    }
    if value == 9 {
        return "Colour Temperature".to_string();
    }
    if value == 15 {
        return "Custom 1".to_string();
    }
    if value == 16 {
        return "Custom 2".to_string();
    }
    if value == 18 {
        return "Custom 3".to_string();
    }
    let mut s = String::new();
    push_str(&mut s, "WB ");
    push_int(&mut s, value as i64);
    s
}

/// Tenths of a stop in `a` eighths, rounded half to even.
pub open spec fn tenths_half_even(a: nat) -> nat {
    let q = (a * 5) / 4;
    let r = (a * 5) % 4;
    if r < 2 {
        q
    } else if r == 2 {
        if q % 2 == 0 {
            q
        } else {
            q + 1
        }
    } else {
        q + 1
    }
}

/// A number of tenths written with one decimal place.
pub open spec fn tenths_text(t: nat) -> Seq<char> {
    dec_digits(t / 10) + "."@ + dec_digits(t % 10)
}

/// Display label of an exposure-compensation code, in eighths of a stop:
/// the stops with one decimal and an explicit sign, or "0".
pub open spec fn exposure_label(value: i32) -> Seq<char> {
    if value == 0 {
        "0"@
    } else if value > 0 {
        "+"@ + tenths_text(tenths_half_even(value as nat))
    } else {
        "-"@ + tenths_text(tenths_half_even((-value) as nat))
    }
}

fn push_tenths(s: &mut String, a: u64)
    requires
        a <= 0x8000_0000,
    ensures
        final(s)@ == old(s)@ + tenths_text(tenths_half_even(a as nat)),
{
    let q = (a * 5) / 4;
    let r = (a * 5) % 4;
    let t = if r < 2 {
        q
    } else if r == 2 {
        if q % 2 == 0 {
            q
        } else {
            q + 1
        }
    } else {
        q + 1
    };
    push_dec(s, t / 10);
    push_char(s, '.');
    push_dec(s, t % 10);
    proof {
        reveal_strlit(".");
    }
    assert(final(s)@ =~= old(s)@ + tenths_text(tenths_half_even(a as nat)));
}

/// Display label of an exposure-compensation code.
pub fn translate_exposure_comp(value: i32) -> (r: String)
    ensures
        r@ == exposure_label(value),
{
    let mut s = String::new();
    if value == 0 {
        return "0".to_string();
    } else if value > 0 {
        push_char(&mut s, '+');
        push_tenths(&mut s, value as u64);
        proof {
            reveal_strlit("+");
        }
    } else {
        push_char(&mut s, '-');
        push_tenths(&mut s, (-(value as i64)) as u64);
        proof {
            reveal_strlit("-");
        }
    }
    assert(s@ =~= exposure_label(value));
    s
}

/// Display label of a value of the given property.
pub open spec fn value_label(prop_id: EdsPropertyID, value: i32) -> Seq<char> {
    if prop_id == PROP_ID_ISO_SPEED {
        iso_label(value)
    } else if prop_id == PROP_ID_AV {
        aperture_label(value)
    } else if prop_id == PROP_ID_TV {
        shutter_label(value)
    } else if prop_id == PROP_ID_WHITE_BALANCE {
        white_balance_label(value)
    } else if prop_id == PROP_ID_EXPOSURE_COMPENSATION {
        exposure_label(value)
    } else {
        dec_int(value as int)
    }
}

/// Translates a property value into its display label.
pub fn translate_value(prop_id: EdsPropertyID, value: i32) -> (r: String)
    ensures
        r@ == value_label(prop_id, value),
{
    if prop_id == PROP_ID_ISO_SPEED {
        translate_iso(value)
    } else if prop_id == PROP_ID_AV {
        translate_aperture(value)
    } else if prop_id == PROP_ID_TV {
        translate_shutter_speed(value)
    } else if prop_id == PROP_ID_WHITE_BALANCE {
        translate_white_balance(value)
    } else if prop_id == PROP_ID_EXPOSURE_COMPENSATION {
        translate_exposure_comp(value)
    } else {
        let mut s = String::new();
        push_int(&mut s, value as i64);
        s
    }
}

/// Number of mapped vendor properties.
pub const CANON_MAPPING_COUNT: usize = 5;

/// Mapping `i`: property, control identifier, display name, widget kind.
pub open spec fn canon_mapping(i: int) -> (EdsPropertyID, Seq<char>, Seq<char>, ControlType) {
    if i == 0 {
        (PROP_ID_ISO_SPEED, "canon_iso"@, "ISO"@, ControlType::Select)
    } else if i == 1 {
        (PROP_ID_AV, "canon_aperture"@, "Aperture"@, ControlType::Select)
    } else if i == 2 {
        (PROP_ID_TV, "canon_shutter_speed"@, "Shutter Speed"@, ControlType::Select)
    } else if i == 3 {
        (PROP_ID_WHITE_BALANCE, "canon_white_balance"@, "White Balance"@, ControlType::Select)
    } else {
        (PROP_ID_EXPOSURE_COMPENSATION, "canon_exposure_compensation"@, "Exposure Compensation"@, ControlType::Slider)
    }
}

fn mapping_at(i: usize) -> (r: (EdsPropertyID, &'static str, &'static str, ControlType))
    requires
        i < CANON_MAPPING_COUNT,
    ensures
        (r.0, r.1@, r.2@, r.3) == canon_mapping(i as int),
{
    if i == 0 {
        (PROP_ID_ISO_SPEED, "canon_iso", "ISO", ControlType::Select)
    } else if i == 1 {
        (PROP_ID_AV, "canon_aperture", "Aperture", ControlType::Select)
    } else if i == 2 {
        (PROP_ID_TV, "canon_shutter_speed", "Shutter Speed", ControlType::Select)
    } else if i == 3 {
        (PROP_ID_WHITE_BALANCE, "canon_white_balance", "White Balance", ControlType::Select)
    } else {
        (PROP_ID_EXPOSURE_COMPENSATION, "canon_exposure_compensation", "Exposure Compensation", ControlType::Slider)
    }
}

/// `d` describes mapping `i` with current value `current` and, for a select
/// control, the legal values `legal`.
pub open spec fn canon_descriptor(i: int, current: i32, legal: Seq<i32>, d: ControlDescriptor) -> bool {
    let m = canon_mapping(i);
    &&& d.id@ == m.1
    &&& d.name@ == m.2
    &&& d.control_type == m.3
    &&& d.group@ == "camera"@
    &&& d.default is None
    &&& d.current == current
    &&& d.flags == ControlFlags { supports_auto: false, is_auto_enabled: false, is_read_only: false }
    &&& d.supported
    &&& (m.3 == ControlType::Select ==> {
        &&& d.min is None && d.max is None && d.step is None
        &&& d.options is Some
        &&& d.options->0@.len() == legal.len()
        &&& forall|k: int|
            0 <= k < legal.len() ==> (#[trigger] d.options->0@[k]).value == legal[k]
                && d.options->0@[k].label@ == value_label(m.0, legal[k])
    })
    &&& (m.3 == ControlType::Slider ==> d.min == Some(-24i32) && d.max == Some(24i32) && d.step == Some(1i32)
        && d.options is None)
}

/// Builds the descriptor of mapping `i` from the values read from the SDK.
pub fn make_canon_descriptor(i: usize, current: i32, legal: &Vec<i32>) -> (d: ControlDescriptor)
    requires
        i < CANON_MAPPING_COUNT,
    ensures
        canon_descriptor(i as int, current, legal@, d),
        d.well_formed(),
{
    let m = mapping_at(i);
    let (options, min, max, step) = match m.3 {
        ControlType::Select => {
            let mut opts: Vec<ControlOption> = Vec::new();
            let mut k: usize = 0;
            while k < legal.len()
                invariant
                    k <= legal@.len(),
                    opts@.len() == k,
                    forall|j: int|
                        0 <= j < k ==> (#[trigger] opts@[j]).value == legal@[j] && opts@[j].label@
                            == value_label(m.0, legal@[j]),
                decreases legal@.len() - k,
            {
                let v = legal[k];
                opts.push(ControlOption { value: v, label: translate_value(m.0, v) });
                k += 1;
            }
            (Some(opts), None, None, None)
        },
        ControlType::Slider => (None, Some(-24i32), Some(24i32), Some(1i32)),
        ControlType::Toggle => (None, Some(0i32), Some(1i32), Some(1i32)),
    };
    ControlDescriptor {
        id: m.1.to_string(),
        name: m.2.to_string(),
        control_type: m.3,
        group: "camera".to_string(),
        min,
        max,
        step,
        default: None,
        current,
        flags: ControlFlags { supports_auto: false, is_auto_enabled: false, is_read_only: false },
        options,
        supported: true,
    }
}

/// The readings of mapping `i` that yield a descriptor: current value (0
/// when unreadable) and legal values; `None` when a select control's legal
/// values could not be read.
pub open spec fn mapping_reading(i: int, current: Result<i32, CameraError>, legal: Result<Vec<i32>, CameraError>) -> Option<(i32, Seq<i32>)> {
    let cur = match current {
        Ok(v) => v,
        Err(_) => 0i32,
    };
    if canon_mapping(i).3 == ControlType::Select {
        match legal {
            Ok(v) => Some((cur, v@)),
            Err(_) => None,
        }
    } else {
        Some((cur, Seq::empty()))
    }
}

/// The mappings among the first `n` that yield a descriptor, in order,
/// with their readings.
pub open spec fn kept_readings(
    currents: Seq<Result<i32, CameraError>>,
    legals: Seq<Result<Vec<i32>, CameraError>>,
    n: int,
) -> Seq<(int, i32, Seq<i32>)>
    decreases n,
{
    if n <= 0 {
        Seq::empty()
    } else {
        let rest = kept_readings(currents, legals, n - 1);
        match mapping_reading(n - 1, currents[n - 1], legals[n - 1]) {
            Some(p) => rest.push((n - 1, p.0, p.1)),
            None => rest,
        }
    }
}

/// `r` holds the descriptors of the kept mappings, in mapping order.
pub open spec fn controls_from_readings(
    currents: Seq<Result<i32, CameraError>>,
    legals: Seq<Result<Vec<i32>, CameraError>>,
    r: Seq<ControlDescriptor>,
) -> bool {
    let kept = kept_readings(currents, legals, CANON_MAPPING_COUNT as int);
    &&& r.len() == kept.len()
    &&& forall|k: int| #![trigger r[k]] 0 <= k < r.len() ==> canon_descriptor(kept[k].0, kept[k].1, kept[k].2, r[k])
}

/// The descriptors of the mapped properties from their readings: mapping
/// `i` has current value `currents[i]` (0 when unreadable) and legal values
/// `legals[i]`; a select control whose legal values could not be read is
/// left out.
pub fn descriptors_from_readings(
    currents: &Vec<Result<i32, CameraError>>,
    legals: &Vec<Result<Vec<i32>, CameraError>>,
) -> (r: Vec<ControlDescriptor>)
    requires
        currents@.len() == CANON_MAPPING_COUNT,
        legals@.len() == CANON_MAPPING_COUNT,
    ensures
        controls_from_readings(currents@, legals@, r@),
        forall|k: int| 0 <= k < r@.len() ==> (#[trigger] r@[k]).well_formed(),
{
    let mut out: Vec<ControlDescriptor> = Vec::new();
    let empty: Vec<i32> = Vec::new();
    let mut i: usize = 0;
    while i < CANON_MAPPING_COUNT
        invariant
            i <= CANON_MAPPING_COUNT,
            currents@.len() == CANON_MAPPING_COUNT,
            legals@.len() == CANON_MAPPING_COUNT,
            empty@.len() == 0,
            out@.len() == kept_readings(currents@, legals@, i as int).len(),
            forall|k: int| #![trigger out@[k]] 0 <= k < out@.len() ==> {
                let kept = kept_readings(currents@, legals@, i as int);
                canon_descriptor(kept[k].0, kept[k].1, kept[k].2, out@[k]) && out@[k].well_formed()
            },
        decreases CANON_MAPPING_COUNT - i,
    {
        let ghost kept0 = kept_readings(currents@, legals@, i as int);
        let ghost out0 = out@;
        let m = mapping_at(i);
        let cur = match &currents[i] {
            Ok(v) => *v,
            Err(_) => 0,
        };
        let is_select = match m.3 {
            ControlType::Select => true,
            _ => false,
        };
        if is_select {
            match &legals[i] {
                Ok(v) => {
                    let d = make_canon_descriptor(i, cur, v);
                    out.push(d);
                    proof {
                        let kept1 = kept_readings(currents@, legals@, i + 1);
                        assert(kept1 == kept0.push((i as int, cur, v@)));
                        assert forall|k: int| #![trigger out@[k]] 0 <= k < out@.len() implies canon_descriptor(
                            kept1[k].0,
                            kept1[k].1,
                            kept1[k].2,
                            out@[k],
                        ) && out@[k].well_formed() by {
                            if k < out0.len() {
                                assert(out@[k] == out0[k]);
                                assert(kept1[k] == kept0[k]);
                            }
                        }
                    }
                },
                Err(_) => {
                    proof {
                        assert(kept_readings(currents@, legals@, i + 1) == kept0);
                    }
                },
            }
        } else {
            let d = make_canon_descriptor(i, cur, &empty);
            out.push(d);
            proof {
                let kept1 = kept_readings(currents@, legals@, i + 1);
                assert(empty@ =~= Seq::<i32>::empty());
                assert(kept1 == kept0.push((i as int, cur, Seq::<i32>::empty())));
                assert forall|k: int| #![trigger out@[k]] 0 <= k < out@.len() implies canon_descriptor(
                    kept1[k].0,
                    kept1[k].1,
                    kept1[k].2,
                    out@[k],
                ) && out@[k].well_formed() by {
                    if k < out0.len() {
                        assert(out@[k] == out0[k]);
                        assert(kept1[k] == kept0[k]);
                    }
                }
            }
        }
        i += 1;
    }
    out
}

/// The descriptors of every mapped property that the camera can describe,
/// in mapping order; a select property whose legal values cannot be read
/// is left out. Each property's current value is read first (0 when
/// unreadable), then, for a select property, its legal values.
pub fn get_canon_controls<S: EdsSdkApi>(sdk: &mut S, camera: CameraHandle) -> (r: Result<Vec<ControlDescriptor>, CameraError>)
    ensures
        r is Ok,
        exists|currents: Seq<Result<i32, CameraError>>, legals: Seq<Result<Vec<i32>, CameraError>>|
            #[trigger] controls_from_readings(currents, legals, r->Ok_0@),
        forall|k: int| 0 <= k < r->Ok_0@.len() ==> (#[trigger] r->Ok_0@[k]).well_formed(),
{
    let mut currents: Vec<Result<i32, CameraError>> = Vec::new();
    let mut legals: Vec<Result<Vec<i32>, CameraError>> = Vec::new();
    let mut i: usize = 0;
    while i < CANON_MAPPING_COUNT
        invariant
            i <= CANON_MAPPING_COUNT,
            currents@.len() == i,
            legals@.len() == i,
        decreases CANON_MAPPING_COUNT - i,
    {
        let m = mapping_at(i);
        currents.push(sdk.get_property(camera, m.0));
        let legal = match m.3 {
            ControlType::Select => match sdk.get_property_desc(camera, m.0) {
                Ok(desc) => Ok(desc.prop_desc),
                Err(e) => Err(e),
            },
            _ => Ok(Vec::new()),
        };
        legals.push(legal);
        i += 1;
    }
    let out = descriptors_from_readings(&currents, &legals);
    let res: Result<Vec<ControlDescriptor>, CameraError> = Ok(out);
    assert(controls_from_readings(currents@, legals@, res->Ok_0@));
    res
}

} // verus!
