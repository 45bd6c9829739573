//! Start offsets in milliseconds as `MM:SS:FF` timecodes.
//!
//! A second holds 75 frames, so a frame lasts 1000/75 ms. An offset is
//! rounded to the nearest whole frame, a half frame rounding up. Rounding the
//! whole offset, not only its part within the second, is what carries a
//! rounded-up 75th frame into the seconds, and a 60th second into the minutes.

use vstd::prelude::*;
use crate::text::{
    digit_value, is_decimal_digit, lemma_decimal_text_digits, lemma_digit_value,
    lemma_two_digit_text_below_hundred, push_two_digits, two_digit_text,
};

verus! {

/// Frames in one second.
pub const FRAMES_PER_SECOND: u128 = 75;

/// Milliseconds in one second.
pub const MS_PER_SECOND: u128 = 1000;

/// Seconds in one minute.
pub const SECONDS_PER_MINUTE: u128 = 60;

/// The number of frames nearest to `ms` milliseconds, a half frame rounding
/// up: `round(ms * 75 / 1000)`.
pub open spec fn rounded_frames(ms: nat) -> nat {
    (ms * 75 + 500) / 1000
}

/// The offset `total_ms` in whole frames.
pub open spec fn total_frames(total_ms: nat) -> nat {
    rounded_frames(total_ms)
}

/// The `MM` field: whole minutes, unbounded.
pub open spec fn timecode_minutes(total_ms: nat) -> nat {
    total_frames(total_ms) / 75 / 60
}

/// The `SS` field: whole seconds within the minute.
pub open spec fn timecode_seconds(total_ms: nat) -> nat {
    (total_frames(total_ms) / 75) % 60
}

/// The `FF` field: frames within the second.
pub open spec fn timecode_frames(total_ms: nat) -> nat {
    total_frames(total_ms) % 75
}

/// The three fields joined as `MM:SS:FF`, each zero-padded to two digits.
pub open spec fn fields_text(minutes: nat, seconds: nat, frames: nat) -> Seq<char> {
    two_digit_text(minutes) + seq![':'] + two_digit_text(seconds) + seq![':'] + two_digit_text(
        frames,
    )
}

/// The timecode of the offset `total_ms`.
pub open spec fn timecode_text(total_ms: nat) -> Seq<char> {
    fields_text(
        timecode_minutes(total_ms),
        timecode_seconds(total_ms),
        timecode_frames(total_ms),
    )
}

/// The number that the two digit characters `tens` and `units` spell.
pub open spec fn two_digit_value(tens: char, units: char) -> int {
    10 * digit_value(tens) + digit_value(units)
}

/// The pattern `MM:SS:FF`: two or more digits, a colon, two digits below 60,
/// a colon, two digits below 75.
pub open spec fn is_timecode(t: Seq<char>) -> bool {
    let n = t.len() as int;
    &&& n >= 8
    &&& t[n - 3] == ':'
    &&& t[n - 6] == ':'
    &&& forall|i: int| 0 <= i < n && i != n - 3 && i != n - 6 ==> is_decimal_digit(#[trigger] t[i])
    &&& two_digit_value(t[n - 5], t[n - 4]) < 60
    &&& two_digit_value(t[n - 2], t[n - 1]) < 75
}

/// Every offset renders in the pattern `MM:SS:FF` with `SS` below 60 and `FF`
/// below 75.
pub proof fn lemma_timecode_pattern(total_ms: nat)
    ensures
        is_timecode(timecode_text(total_ms)),
        timecode_seconds(total_ms) < 60,
        timecode_frames(total_ms) < 75,
{
    let m = timecode_minutes(total_ms);
    let s = timecode_seconds(total_ms);
    let f = timecode_frames(total_ms);
    let t = timecode_text(total_ms);
    let mm = two_digit_text(m);
    lemma_decimal_text_digits(m);
    lemma_two_digit_text_below_hundred(s);
    lemma_two_digit_text_below_hundred(f);
    lemma_digit_value(0);
    lemma_digit_value(s / 10);
    lemma_digit_value(s % 10);
    lemma_digit_value(f / 10);
    lemma_digit_value(f % 10);
    let n = t.len() as int;
    assert forall|i: int| 0 <= i < n && i != n - 3 && i != n - 6 implies is_decimal_digit(
        #[trigger] t[i],
    ) by {
        if i < mm.len() {
            assert(t[i] == mm[i]);
        }
    }
}

/// The fields agree with the per-second reading of an offset: the frames are
/// the rounded part within the second, the seconds and minutes are those of
/// the whole seconds; only where that part rounds up to a full 75 frames is
/// one second carried and the frame field zero.
pub proof fn lemma_timecode_carry(total_ms: nat)
    ensures
        rounded_frames(total_ms % 1000) <= 75,
        rounded_frames(total_ms % 1000) < 75 ==> {
            &&& timecode_frames(total_ms) == rounded_frames(total_ms % 1000)
            &&& timecode_seconds(total_ms) == (total_ms / 1000) % 60
            &&& timecode_minutes(total_ms) == total_ms / 60000
        },
        rounded_frames(total_ms % 1000) == 75 ==> {
            &&& timecode_frames(total_ms) == 0
            &&& timecode_seconds(total_ms) == (total_ms / 1000 + 1) % 60
            &&& timecode_minutes(total_ms) == (total_ms / 1000 + 1) / 60
        },
{
    let q = total_ms / 1000;
    let r = total_ms % 1000;
    assert(total_frames(total_ms) == 75 * q + rounded_frames(r));
}

/// Renders the offset `total_ms` as `MM:SS:FF`. Minutes are not bounded: an
/// offset of a hundred minutes or more has three or more minute digits.
pub fn to_timecode(total_ms: u128) -> (r: String)
    ensures
        r@ == timecode_text(total_ms as nat),
        is_timecode(r@),
{
    let whole_seconds: u128 = total_ms / MS_PER_SECOND;
    let ms_in_second: u128 = total_ms % MS_PER_SECOND;
    let frames_in_second: u128 = (ms_in_second * FRAMES_PER_SECOND + 500) / MS_PER_SECOND;
    let frames_total: u128 = whole_seconds * FRAMES_PER_SECOND + frames_in_second;
    let seconds_total: u128 = frames_total / FRAMES_PER_SECOND;
    let mut out = String::new();
    push_two_digits(&mut out, seconds_total / SECONDS_PER_MINUTE);
    out.append(":");
    push_two_digits(&mut out, seconds_total % SECONDS_PER_MINUTE);
    out.append(":");
    push_two_digits(&mut out, frames_total % FRAMES_PER_SECOND);
    proof {
        reveal_strlit(":");
        lemma_timecode_pattern(total_ms as nat);
    }
    out
}

/// Renders a millisecond offset as `MM:SS:FF`.
pub fn millisecond_to_mmssff(ms: u32) -> (r: String)
    ensures
        r@ == timecode_text(ms as nat),
        is_timecode(r@),
{
    to_timecode(ms as u128)
}

} // verus!
