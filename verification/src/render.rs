//! Rendering vocabulary that carries no geometry: draw layers, pane pixel
//! references, and the time labels of the time axis.

use vstd::prelude::*;
use vstd::string::StringExecFns;

verus! {

/// Draw order for the single-pass compositing pipeline: the grid is drawn
/// first (background), line series on top.
pub enum DrawLayer {
    Grid,
    Series,
}

/// Reference to a pane's rendering context: its pixel bounds within the canvas.
pub struct PaneRef {
    pub index: usize,
    /// Y offset from the canvas top in pixels.
    pub pixel_offset: u32,
    /// Pane height in pixels.
    pub pixel_height: u32,
}

/// The decimal digit character for `d` (0 to 9).
pub open spec fn digit_char(d: int) -> char {
    if d == 0 {
        '0'
    } else if d == 1 {
        '1'
    } else if d == 2 {
        '2'
    } else if d == 3 {
        '3'
    } else if d == 4 {
        '4'
    } else if d == 5 {
        '5'
    } else if d == 6 {
        '6'
    } else if d == 7 {
        '7'
    } else if d == 8 {
        '8'
    } else {
        '9'
    }
}

/// `n` (below 100) written with two decimal digits, zero-padded.
pub open spec fn two_digits(n: int) -> Seq<char> {
    seq![digit_char(n / 10), digit_char(n % 10)]
}

/// The `HH:MM:SS` label (UTC time of day) of a timestamp in milliseconds.
pub open spec fn time_of_day_label(ts: int) -> Seq<char> {
    let secs = ts / 1000;
    let mins = secs / 60;
    let hours = mins / 60;
    two_digits(hours % 24) + seq![':'] + two_digits(mins % 60) + seq![':'] + two_digits(secs % 60)
}

fn push_digit(s: &mut String, d: u64)
    requires
        d < 10,
    ensures
        final(s)@ == old(s)@.push(digit_char(d as int)),
{
    let lit = if d == 0 {
        "0"
    } else if d == 1 {
        "1"
    } else if d == 2 {
        "2"
    } else if d == 3 {
        "3"
    } else if d == 4 {
        "4"
    } else if d == 5 {
        "5"
    } else if d == 6 {
        "6"
    } else if d == 7 {
        "7"
    } else if d == 8 {
        "8"
    } else {
        "9"
    };
    proof {
        reveal_strlit("0");
        reveal_strlit("1");
        reveal_strlit("2");
        reveal_strlit("3");
        reveal_strlit("4");
        reveal_strlit("5");
        reveal_strlit("6");
        reveal_strlit("7");
        reveal_strlit("8");
        reveal_strlit("9");
    }
    assert(lit@ =~= seq![digit_char(d as int)]);
    s.append(lit);
}

fn push_two_digits(s: &mut String, n: u64)
    requires
        n < 100,
    ensures
        final(s)@ == old(s)@ + two_digits(n as int),
{
    push_digit(s, n / 10);
    push_digit(s, n % 10);
    assert(s@ =~= old(s)@ + two_digits(n as int));
}

fn push_colon(s: &mut String)
    ensures
        final(s)@ == old(s)@ + seq![':'],
{
    proof {
        reveal_strlit(":");
    }
    s.append(":");
}

/// Format a millisecond timestamp as `HH:MM:SS` (time of day, UTC).
pub fn format_timestamp(ts: u64) -> (r: String)
    ensures
        r@ == time_of_day_label(ts as int),
        r@.len() == 8,
{
    let secs = ts / 1000;
    let mins = secs / 60;
    let hours = mins / 60;
    let mut s = String::new();
    push_two_digits(&mut s, hours % 24);
    push_colon(&mut s);
    push_two_digits(&mut s, mins % 60);
    push_colon(&mut s);
    push_two_digits(&mut s, secs % 60);
    assert(s@ =~= time_of_day_label(ts as int));
    s
}

/// The label's digits are the ASCII decimal digits: `digit_char(d)` is the
/// character with code `'0' + d` for every `d` from 0 to 9.
pub proof fn law_digit_char_is_ascii_digit(d: int)
    requires
        0 <= d < 10,
    ensures
        digit_char(d) as u32 == 48 + d,
{
}

/// The label of a timestamp reads `HH:MM:SS`: its characters are, in
/// order, the tens and units of the hour of the day (0 to 23), a colon, the
/// tens and units of the minute (0 to 59), a colon, and the tens and units
/// of the second (0 to 59), each digit the ASCII character `'0'` plus its
/// value.
pub proof fn law_time_label_digits(ts: int)
    requires
        ts >= 0,
    ensures
        ({
            let secs = ts / 1000;
            let mins = secs / 60;
            let h = (mins / 60) % 24;
            let m = mins % 60;
            let sec = secs % 60;
            let l = time_of_day_label(ts);
            &&& l.len() == 8
            &&& l[0] as u32 == 48 + h / 10
            &&& l[1] as u32 == 48 + h % 10
            &&& l[2] == ':'
            &&& l[3] as u32 == 48 + m / 10
            &&& l[4] as u32 == 48 + m % 10
            &&& l[5] == ':'
            &&& l[6] as u32 == 48 + sec / 10
            &&& l[7] as u32 == 48 + sec % 10
        }),
{
    let secs = ts / 1000;
    let mins = secs / 60;
    let h = (mins / 60) % 24;
    let m = mins % 60;
    let sec = secs % 60;
    law_digit_char_is_ascii_digit(h / 10);
    law_digit_char_is_ascii_digit(h % 10);
    law_digit_char_is_ascii_digit(m / 10);
    law_digit_char_is_ascii_digit(m % 10);
    law_digit_char_is_ascii_digit(sec / 10);
    law_digit_char_is_ascii_digit(sec % 10);
    let l = time_of_day_label(ts);
    assert(l =~= seq![
        digit_char(h / 10), digit_char(h % 10), ':', digit_char(m / 10), digit_char(m % 10), ':',
        digit_char(sec / 10), digit_char(sec % 10),
    ]);
}

} // verus!
