//! Clock-style timestamps for subtitle cues.

use vstd::prelude::*;
use crate::text::{decimal, padded, push_char, push_decimal, push_padded};

verus! {

/// `ms` milliseconds as `[H:]MM:SS<marker>mmm`: hours appear, unpadded, when
/// asked for or when not zero; minutes and seconds take two digits and the
/// milliseconds three.
pub open spec fn clock_text(ms: nat, always_include_hours: bool, marker: Seq<char>) -> Seq<char> {
    let hours = ms / 3_600_000;
    let rest = ms - hours * 3_600_000;
    let minutes = rest / 60_000;
    let rest = rest - minutes * 60_000;
    let seconds = rest / 1_000;
    let millis = rest - seconds * 1_000;
    let head = if always_include_hours || hours != 0 {
        decimal(hours as nat) + seq![':']
    } else {
        Seq::empty()
    };
    head + padded(minutes as nat, 2) + seq![':'] + padded(seconds as nat, 2) + marker + padded(
        millis as nat,
        3,
    )
}

/// Renders a non-negative count of milliseconds as a clock timestamp.
pub fn format_millis(ms: i64, always_include_hours: bool, decimal_marker: &str) -> (r: String)
    requires
        ms >= 0,
    ensures
        r@ == clock_text(ms as nat, always_include_hours, decimal_marker@),
{
    let total = ms as u64;
    let hours = total / 3_600_000;
    let rest = total - hours * 3_600_000;
    let minutes = rest / 60_000;
    let rest = rest - minutes * 60_000;
    let seconds = rest / 1_000;
    let millis = rest - seconds * 1_000;
    let mut out = String::new();
    if always_include_hours || hours != 0 {
        push_decimal(&mut out, hours);
        push_char(&mut out, ':');
    }
    push_padded(&mut out, minutes, 2);
    push_char(&mut out, ':');
    push_padded(&mut out, seconds, 2);
    out.append(decimal_marker);
    push_padded(&mut out, millis, 3);
    assert(out@ =~= clock_text(ms as nat, always_include_hours, decimal_marker@));
    out
}

/// Renders a non-negative count of whole seconds as a clock timestamp.
pub fn format_timestamp(seconds: i64, always_include_hours: bool, decimal_marker: &str) -> (r: String)
    requires
        0 <= seconds <= i64::MAX / 1000,
    ensures
        r@ == clock_text((seconds * 1000) as nat, always_include_hours, decimal_marker@),
{
    format_millis(seconds * 1000, always_include_hours, decimal_marker)
}

} // verus!
