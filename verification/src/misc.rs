//! Rendering a span of time for people.

use crate::text::{padded_decimal, push_padded_decimal};
use vstd::prelude::*;

verus! {

/// How a span of `total_millis` milliseconds is displayed: hours, minutes,
/// seconds and milliseconds, starting at the largest unit that is not zero.
/// Hours, minutes and seconds are filled to two digits, milliseconds to
/// three; hours are not folded into days.
pub open spec fn duration_display(total_millis: nat) -> Seq<char> {
    let ms = total_millis % 1000;
    let s = (total_millis / 1000) % 60;
    let m = (total_millis / 60000) % 60;
    let h = total_millis / 3600000;
    let tail_ms = padded_decimal(ms, 3) + "ms"@;
    let tail_s = padded_decimal(s, 2) + "s "@ + tail_ms;
    let tail_m = padded_decimal(m, 2) + "m "@ + tail_s;
    if h > 0 {
        padded_decimal(h, 2) + "h "@ + tail_m
    } else if m > 0 {
        tail_m
    } else if s > 0 {
        tail_s
    } else {
        tail_ms
    }
}

/// Renders a duration, given in whole milliseconds, as in
/// `01h 02m 03s 004ms`, leaving out the leading units that are zero.
pub fn duration_to_display_str(total_millis: u128) -> (r: String)
    ensures
        r@ == duration_display(total_millis as nat),
{
    let ms: u128 = total_millis % 1000;
    let s: u128 = (total_millis / 1000) % 60;
    let m: u128 = (total_millis / 60000) % 60;
    let h: u128 = total_millis / 3600000;
    let mut out = String::new();
    if h > 0 {
        push_padded_decimal(&mut out, h, 2);
        out.append("h ");
    }
    if h > 0 || m > 0 {
        push_padded_decimal(&mut out, m, 2);
        out.append("m ");
    }
    if h > 0 || m > 0 || s > 0 {
        push_padded_decimal(&mut out, s, 2);
        out.append("s ");
    }
    push_padded_decimal(&mut out, ms, 3);
    out.append("ms");
    out
}

} // verus!
