//! Text and layout helpers of the odds matcher panel.

use vstd::prelude::*;
use vstd::string::StringSliceAdditionalSpecFns;
use crate::panels::Rect;
use crate::text::{chars_of, decimal_chars, slice_chars, spec_decimal, string_of, trim, trim_exec};

verus! {

/// How the "updated within" filter is described.
pub open spec fn spec_timeframe_label(seconds: u64) -> Seq<char> {
    if seconds == 0 {
        "All"@
    } else if seconds <= 1_800 {
        "30 minutes"@
    } else if seconds <= 3_600 {
        "1 hour"@
    } else if seconds <= 7_200 {
        "2 hours"@
    } else if seconds <= 21_600 {
        "6 hours"@
    } else if seconds <= 86_400 {
        "1 day"@
    } else if seconds <= 259_200 {
        "3 days"@
    } else if seconds <= 604_800 {
        "7 days"@
    } else {
        spec_decimal(seconds as nat) + "s"@
    }
}

pub fn timeframe_label(seconds: u64) -> (r: String)
    ensures
        r@ == spec_timeframe_label(seconds),
{
    if seconds == 0 {
        "All".to_owned()
    } else if seconds <= 1_800 {
        "30 minutes".to_owned()
    } else if seconds <= 3_600 {
        "1 hour".to_owned()
    } else if seconds <= 7_200 {
        "2 hours".to_owned()
    } else if seconds <= 21_600 {
        "6 hours".to_owned()
    } else if seconds <= 86_400 {
        "1 day".to_owned()
    } else if seconds <= 259_200 {
        "3 days".to_owned()
    } else if seconds <= 604_800 {
        "7 days".to_owned()
    } else {
        let mut r = string_of(&decimal_chars(seconds));
        r.append("s");
        r
    }
}

/// The "updated within" presets, in seconds, shortest first.
pub open spec fn timeframe_presets() -> Seq<u64> {
    seq![1_800u64, 3_600, 7_200, 21_600, 86_400, 259_200, 604_800]
}

/// Where `seconds` falls among the presets: the index of the first preset
/// that is not shorter, or the number of presets when all are shorter. The
/// gauge of the timeframe card fills to this index over the number of
/// presets.
pub fn timeframe_preset_index(seconds: u64) -> (r: usize)
    ensures
        r <= timeframe_presets().len(),
        forall|j: int| 0 <= j < r ==> timeframe_presets()[j] < seconds,
        r < timeframe_presets().len() ==> seconds <= timeframe_presets()[r as int],
{
    let presets: Vec<u64> = vec![1_800, 3_600, 7_200, 21_600, 86_400, 259_200, 604_800];
    assert(presets@ =~= timeframe_presets());
    let mut i: usize = 0;
    while i < presets.len()
        invariant
            presets@ == timeframe_presets(),
            i <= presets.len(),
            forall|j: int| 0 <= j < i ==> presets@[j] < seconds,
        decreases presets.len() - i,
    {
        if seconds <= presets[i] {
            return i;
        }
        i = i + 1;
    }
    i
}

/// The bookmaker name shown in the table: known exchanges by their short
/// names, other names over nine bytes cut to nine characters.
pub open spec fn spec_short_bookmaker_name(name: &str) -> Seq<char> {
    if name@ == "Smarkets"@ {
        "Smarkets"@
    } else if name@ == "Matchbook"@ {
        "Matchbook"@
    } else if name@ == "Betfair Exchange"@ {
        "Betfair"@
    } else if name.spec_bytes().len() > 9 {
        name@.take(if name@.len() < 9 {
            name@.len() as int
        } else {
            9
        })
    } else {
        name@
    }
}

pub fn short_bookmaker_name(name: &str) -> (r: String)
    ensures
        r@ == spec_short_bookmaker_name(name),
{
    let v = chars_of(name);
    if crate::text::equals_str(&v, "Smarkets") {
        "Smarkets".to_owned()
    } else if crate::text::equals_str(&v, "Matchbook") {
        "Matchbook".to_owned()
    } else if crate::text::equals_str(&v, "Betfair Exchange") {
        "Betfair".to_owned()
    } else if name.as_bytes().len() > 9 {
        let k = if v.len() < 9 {
            v.len()
        } else {
            9
        };
        let t = slice_chars(&v, 0, k);
        assert(t@ =~= v@.take(k as int));
        string_of(&t)
    } else {
        name.to_owned()
    }
}

/// The cells inside the border of `area`.
pub open spec fn spec_inner_area(area: Rect) -> Rect {
    Rect {
        x: area.x.saturating_add(1),
        y: area.y.saturating_add(1),
        width: area.width.saturating_sub(2),
        height: area.height.saturating_sub(2),
    }
}

pub fn inner_area(area: Rect) -> (r: Rect)
    ensures
        r == spec_inner_area(area),
{
    Rect {
        x: area.x.saturating_add(1),
        y: area.y.saturating_add(1),
        width: area.width.saturating_sub(2),
        height: area.height.saturating_sub(2),
    }
}

/// The date (`YYYY-MM-DD`) and time (`HH:MM`) of a start time written as
/// `YYYY-MM-DDTHH:MM...`, read from the bytes of the trimmed text; nothing
/// when the text is shorter than 16 bytes, the separators are not in place,
/// or the time would be cut inside a character.
pub open spec fn spec_parse_isoish_start(value: Seq<char>) -> Option<(Seq<char>, Seq<char>)> {
    let b = vstd::utf8::encode_utf8(trim(value));
    if b.len() < 16 || b[4] != 45u8 || b[7] != 45u8 || b[10] != 84u8 || b[13] != 58u8 {
        None
    } else if !vstd::utf8::is_char_boundary(b, 11) || !vstd::utf8::is_char_boundary(b, 16) {
        None
    } else {
        Some(
            (
                vstd::utf8::decode_utf8(b.subrange(0, 10)),
                vstd::utf8::decode_utf8(b.subrange(11, 16)),
            ),
        )
    }
}

pub fn parse_isoish_start(value: &str) -> (r: Option<(String, String)>)
    ensures
        match r {
            Some((d, t)) => spec_parse_isoish_start(value@) == Some((d@, t@)),
            None => spec_parse_isoish_start(value@) is None,
        },
{
    broadcast use vstd::utf8::encode_utf8_decode_utf8, vstd::utf8::encode_utf8_valid_utf8;

    let trimmed = string_of(&trim_exec(&chars_of(value)));
    let s = trimmed.as_str();
    let bytes = s.as_bytes();
    let ghost b = vstd::utf8::encode_utf8(trim(value@));
    assert(bytes@ == b);
    if bytes.len() < 16 {
        return None;
    }
    if bytes[4] != 45u8 || bytes[7] != 45u8 || bytes[10] != 84u8 || bytes[13] != 58u8 {
        return None;
    }
    if !s.is_char_boundary(11) || !s.is_char_boundary(16) {
        return None;
    }
    proof {
        vstd::utf8::is_char_boundary_iff_not_is_continuation_byte(b, 10);
    }
    let (date, _after_date) = s.split_at(10);
    let (_before_time, rest) = s.split_at(11);
    proof {
        vstd::utf8::valid_utf8_split(b, 11);
        let rb = b.subrange(11, b.len() as int);
        assert(rest.spec_bytes() =~= rb);
        if 16 < b.len() {
            vstd::utf8::is_char_boundary_iff_not_is_continuation_byte(b, 16);
            vstd::utf8::is_char_boundary_iff_not_is_continuation_byte(rb, 5);
            assert(rb[5] == b[16]);
        } else {
            vstd::utf8::is_char_boundary_start_end_of_seq(rb);
        }
    }
    let (time, _tail) = rest.split_at(5);
    proof {
        assert(date.spec_bytes() =~= b.subrange(0, 10));
        assert(time.spec_bytes() =~= b.subrange(11, 16));
    }
    Some((date.to_owned(), time.to_owned()))
}

/// The date part of a start time, or `-`.
pub fn start_date_label(value: &str) -> (r: String)
    ensures
        r@ == match spec_parse_isoish_start(value@) {
            Some((d, _t)) => d,
            None => "-"@,
        },
{
    match parse_isoish_start(value) {
        Some((date, _time)) => date,
        None => "-".to_owned(),
    }
}

/// The time part of a start time, or `-`.
pub fn start_time_label(value: &str) -> (r: String)
    ensures
        r@ == match spec_parse_isoish_start(value@) {
            Some((_d, t)) => t,
            None => "-"@,
        },
{
    match parse_isoish_start(value) {
        Some((_date, time)) => time,
        None => "-".to_owned(),
    }
}

} // verus!
