//! Rendering of a UTC wall-clock reading in the RFC 3339 shape
//! `YYYY-MM-DDThh:mm:ssZ`, and the matching parser.

use vstd::prelude::*;
use vstd::string::StringExecFns;
use vstd::string::StrSliceExecFns;
use vstd::arithmetic::div_mod::lemma_fundamental_div_mod;
use vstd::arithmetic::div_mod::lemma_fundamental_div_mod_converse;
use vstd::arithmetic::div_mod::lemma_div_denominator;
use vstd::arithmetic::div_mod::lemma_div_pos_is_pos;
use vstd::arithmetic::div_mod::lemma_mod_division_less_than_divisor;

verus! {

/// A UTC wall-clock reading, split into its civil components.
#[derive(Clone, Copy, Debug, PartialEq, Eq, Structural)]
pub struct ClockParts {
    pub year: u16,
    pub month: u8,
    pub day: u8,
    pub hour: u8,
    pub minute: u8,
    pub second: u8,
}

impl ClockParts {
    /// Every component lies in the range the RFC 3339 shape can carry.
    pub open spec fn wf(self) -> bool {
        &&& self.year <= 9999
        &&& 1 <= self.month <= 12
        &&& 1 <= self.day <= 31
        &&& self.hour <= 23
        &&& self.minute <= 59
        &&& self.second <= 59
    }
}

/// The decimal digit character of a value in `0..=9`.
pub open spec fn digit_char(d: int) -> char {
    if d == 0 {
        '0'
    } else if d == 1 {
        '1'
    } else if d == 2 {
        '2'
    } else if d == 3 {
        '3'
    } else if d == 4 {
        '4'
    } else if d == 5 {
        '5'
    } else if d == 6 {
        '6'
    } else if d == 7 {
        '7'
    } else if d == 8 {
        '8'
    } else {
        '9'
    }
}

/// Whether a character is a decimal digit.
pub open spec fn is_digit(c: char) -> bool {
    c == '0' || c == '1' || c == '2' || c == '3' || c == '4' || c == '5' || c == '6' || c == '7'
        || c == '8' || c == '9'
}

/// The value of a decimal digit character.
pub open spec fn digit_val(c: char) -> int {
    if c == '0' {
        0
    } else if c == '1' {
        1
    } else if c == '2' {
        2
    } else if c == '3' {
        3
    } else if c == '4' {
        4
    } else if c == '5' {
        5
    } else if c == '6' {
        6
    } else if c == '7' {
        7
    } else if c == '8' {
        8
    } else {
        9
    }
}

/// The RFC 3339 rendering `YYYY-MM-DDThh:mm:ssZ` of a clock reading.
pub open spec fn spec_rfc3339(c: ClockParts) -> Seq<char> {
    seq![
        digit_char(c.year as int / 1000),
        digit_char(c.year as int / 100 % 10),
        digit_char(c.year as int / 10 % 10),
        digit_char(c.year as int % 10),
        '-',
        digit_char(c.month as int / 10),
        digit_char(c.month as int % 10),
        '-',
        digit_char(c.day as int / 10),
        digit_char(c.day as int % 10),
        'T',
        digit_char(c.hour as int / 10),
        digit_char(c.hour as int % 10),
        ':',
        digit_char(c.minute as int / 10),
        digit_char(c.minute as int % 10),
        ':',
        digit_char(c.second as int / 10),
        digit_char(c.second as int % 10),
        'Z',
    ]
}

/// The year encoded in the first four characters of an RFC 3339 rendering.
pub open spec fn year_of(s: Seq<char>) -> int {
    digit_val(s[0]) * 1000 + digit_val(s[1]) * 100 + digit_val(s[2]) * 10 + digit_val(s[3])
}

/// The month encoded at positions 5 and 6 of an RFC 3339 rendering.
pub open spec fn month_of(s: Seq<char>) -> int {
    digit_val(s[5]) * 10 + digit_val(s[6])
}

/// The day encoded at positions 8 and 9 of an RFC 3339 rendering.
pub open spec fn day_of(s: Seq<char>) -> int {
    digit_val(s[8]) * 10 + digit_val(s[9])
}

/// The hour encoded at positions 11 and 12 of an RFC 3339 rendering.
pub open spec fn hour_of(s: Seq<char>) -> int {
    digit_val(s[11]) * 10 + digit_val(s[12])
}

/// The minute encoded at positions 14 and 15 of an RFC 3339 rendering.
pub open spec fn minute_of(s: Seq<char>) -> int {
    digit_val(s[14]) * 10 + digit_val(s[15])
}

/// The second encoded at positions 17 and 18 of an RFC 3339 rendering.
pub open spec fn second_of(s: Seq<char>) -> int {
    digit_val(s[17]) * 10 + digit_val(s[18])
}

/// The exact shape of a UTC RFC 3339 timestamp in the `YYYY-MM-DDThh:mm:ssZ`
/// form: twenty characters, digits and punctuation in fixed places, and the
/// encoded components within their calendar ranges.
pub open spec fn is_rfc3339(s: Seq<char>) -> bool {
    &&& s.len() == 20
    &&& is_digit(s[0]) && is_digit(s[1]) && is_digit(s[2]) && is_digit(s[3])
    &&& s[4] == '-'
    &&& is_digit(s[5]) && is_digit(s[6])
    &&& s[7] == '-'
    &&& is_digit(s[8]) && is_digit(s[9])
    &&& s[10] == 'T'
    &&& is_digit(s[11]) && is_digit(s[12])
    &&& s[13] == ':'
    &&& is_digit(s[14]) && is_digit(s[15])
    &&& s[16] == ':'
    &&& is_digit(s[17]) && is_digit(s[18])
    &&& s[19] == 'Z'
    &&& 1 <= month_of(s) <= 12
    &&& 1 <= day_of(s) <= 31
    &&& hour_of(s) <= 23
    &&& minute_of(s) <= 59
    &&& second_of(s) <= 59
}

/// The clock reading encoded by an RFC 3339 rendering.
pub open spec fn clock_of(s: Seq<char>) -> ClockParts {
    ClockParts {
        year: year_of(s) as u16,
        month: month_of(s) as u8,
        day: day_of(s) as u8,
        hour: hour_of(s) as u8,
        minute: minute_of(s) as u8,
        second: second_of(s) as u8,
    }
}

/// A single-character string slice for a digit value.
fn digit_str(d: u8) -> (r: &'static str)
    requires
        d < 10,
    ensures
        r@ == seq![digit_char(d as int)],
{
    proof {
        reveal_strlit("0");
        reveal_strlit("1");
        reveal_strlit("2");
        reveal_strlit("3");
        reveal_strlit("4");
        reveal_strlit("5");
        reveal_strlit("6");
        reveal_strlit("7");
        reveal_strlit("8");
        reveal_strlit("9");
        assert("0"@ =~= seq!['0']);
        assert("1"@ =~= seq!['1']);
        assert("2"@ =~= seq!['2']);
        assert("3"@ =~= seq!['3']);
        assert("4"@ =~= seq!['4']);
        assert("5"@ =~= seq!['5']);
        assert("6"@ =~= seq!['6']);
        assert("7"@ =~= seq!['7']);
        assert("8"@ =~= seq!['8']);
        assert("9"@ =~= seq!['9']);
    }
    match d {
        0 => "0",
        1 => "1",
        2 => "2",
        3 => "3",
        4 => "4",
        5 => "5",
        6 => "6",
        7 => "7",
        8 => "8",
        _ => "9",
    }
}

/// Appends the two-digit zero-padded rendering of a value below one hundred.
fn append_two_digits(s: &mut String, v: u8)
    requires
        v < 100,
    ensures
        final(s)@ == old(s)@ + seq![digit_char(v as int / 10), digit_char(v as int % 10)],
{
    let tens: u8 = v / 10;
    let ones: u8 = v % 10;
    s.append(digit_str(tens));
    s.append(digit_str(ones));
    proof {
        assert(final(s)@ =~= old(s)@ + seq![
            digit_char(v as int / 10),
            digit_char(v as int % 10),
        ]);
    }
}

/// Appends the four-digit zero-padded rendering of a value below ten thousand.
fn append_four_digits(s: &mut String, v: u16)
    requires
        v < 10000,
    ensures
        final(s)@ == old(s)@ + seq![
            digit_char(v as int / 1000),
            digit_char(v as int / 100 % 10),
            digit_char(v as int / 10 % 10),
            digit_char(v as int % 10),
        ],
{
    let d0: u16 = v / 1000;
    let d1: u16 = (v / 100) % 10;
    let d2: u16 = (v / 10) % 10;
    let d3: u16 = v % 10;
    s.append(digit_str(d0 as u8));
    s.append(digit_str(d1 as u8));
    s.append(digit_str(d2 as u8));
    s.append(digit_str(d3 as u8));
    proof {
        assert(final(s)@ =~= old(s)@ + seq![
            digit_char(v as int / 1000),
            digit_char(v as int / 100 % 10),
            digit_char(v as int / 10 % 10),
            digit_char(v as int % 10),
        ]);
    }
}

/// `digit_char` maps each value in `0..=9` to a digit that `digit_val`
/// maps back to the same value.
proof fn lemma_digit_roundtrip(d: int)
    requires
        0 <= d <= 9,
    ensures
        is_digit(digit_char(d)),
        digit_val(digit_char(d)) == d,
{
}

/// `digit_val` maps each digit character to a value that `digit_char`
/// maps back to the same character.
proof fn lemma_char_roundtrip(c: char)
    requires
        is_digit(c),
    ensures
        0 <= digit_val(c) <= 9,
        digit_char(digit_val(c)) == c,
{
}

/// A two-digit number splits into its digits by division and remainder.
proof fn lemma_two_digit_split(a: int, b: int)
    requires
        0 <= a <= 9,
        0 <= b <= 9,
    ensures
        (a * 10 + b) / 10 == a,
        (a * 10 + b) % 10 == b,
{
    lemma_fundamental_div_mod_converse(a * 10 + b, 10, a, b);
}

/// A four-digit number splits into its digits by division and remainder.
proof fn lemma_four_digit_split(a: int, b: int, c: int, d: int)
    requires
        0 <= a <= 9,
        0 <= b <= 9,
        0 <= c <= 9,
        0 <= d <= 9,
    ensures
        (a * 1000 + b * 100 + c * 10 + d) / 1000 == a,
        (a * 1000 + b * 100 + c * 10 + d) / 100 % 10 == b,
        (a * 1000 + b * 100 + c * 10 + d) / 10 % 10 == c,
        (a * 1000 + b * 100 + c * 10 + d) % 10 == d,
{
    let x = a * 1000 + b * 100 + c * 10 + d;
    lemma_fundamental_div_mod_converse(x, 1000, a, b * 100 + c * 10 + d);
    lemma_fundamental_div_mod_converse(x, 100, a * 10 + b, c * 10 + d);
    lemma_fundamental_div_mod_converse(a * 10 + b, 10, a, b);
    lemma_fundamental_div_mod_converse(x, 10, a * 100 + b * 10 + c, d);
    lemma_fundamental_div_mod_converse(a * 100 + b * 10 + c, 10, a * 10 + b, c);
}

/// The digits of a value below one hundred rebuild the value.
proof fn lemma_two_digit_rebuild(v: int)
    requires
        0 <= v <= 99,
    ensures
        0 <= v / 10 <= 9,
        0 <= v % 10 <= 9,
        (v / 10) * 10 + v % 10 == v,
{
    lemma_fundamental_div_mod(v, 10);
    lemma_mod_division_less_than_divisor(v, 10);
    lemma_div_pos_is_pos(v, 10);
}

/// The digits of a value below ten thousand rebuild the value.
proof fn lemma_four_digit_rebuild(v: int)
    requires
        0 <= v <= 9999,
    ensures
        0 <= v / 1000 <= 9,
        0 <= v / 100 % 10 <= 9,
        0 <= v / 10 % 10 <= 9,
        0 <= v % 10 <= 9,
        (v / 1000) * 1000 + (v / 100 % 10) * 100 + (v / 10 % 10) * 10 + v % 10 == v,
{
    lemma_fundamental_div_mod(v, 10);
    lemma_mod_division_less_than_divisor(v, 10);
    lemma_div_pos_is_pos(v, 10);
    lemma_div_denominator(v, 10, 10);
    lemma_fundamental_div_mod(v / 10, 10);
    lemma_mod_division_less_than_divisor(v / 10, 10);
    lemma_div_pos_is_pos(v / 10, 10);
    lemma_div_denominator(v, 100, 10);
    lemma_fundamental_div_mod(v / 100, 10);
    lemma_mod_division_less_than_divisor(v / 100, 10);
    lemma_div_pos_is_pos(v / 100, 10);
}

/// Law: rendering a well-formed clock reading yields a well-shaped UTC
/// RFC 3339 string, and the string encodes exactly the reading that was
/// rendered.
pub proof fn lemma_rfc3339_round_trip(c: ClockParts)
    requires
        c.wf(),
    ensures
        is_rfc3339(spec_rfc3339(c)),
        clock_of(spec_rfc3339(c)) == c,
{
    let s = spec_rfc3339(c);
    lemma_four_digit_rebuild(c.year as int);
    lemma_two_digit_rebuild(c.month as int);
    lemma_two_digit_rebuild(c.day as int);
    lemma_two_digit_rebuild(c.hour as int);
    lemma_two_digit_rebuild(c.minute as int);
    lemma_two_digit_rebuild(c.second as int);
    lemma_digit_roundtrip(c.year as int / 1000);
    lemma_digit_roundtrip(c.year as int / 100 % 10);
    lemma_digit_roundtrip(c.year as int / 10 % 10);
    lemma_digit_roundtrip(c.year as int % 10);
    lemma_digit_roundtrip(c.month as int / 10);
    lemma_digit_roundtrip(c.month as int % 10);
    lemma_digit_roundtrip(c.day as int / 10);
    lemma_digit_roundtrip(c.day as int % 10);
    lemma_digit_roundtrip(c.hour as int / 10);
    lemma_digit_roundtrip(c.hour as int % 10);
    lemma_digit_roundtrip(c.minute as int / 10);
    lemma_digit_roundtrip(c.minute as int % 10);
    lemma_digit_roundtrip(c.second as int / 10);
    lemma_digit_roundtrip(c.second as int % 10);
    assert(year_of(s) == c.year as int);
    assert(month_of(s) == c.month as int);
    assert(day_of(s) == c.day as int);
    assert(hour_of(s) == c.hour as int);
    assert(minute_of(s) == c.minute as int);
    assert(second_of(s) == c.second as int);
}

/// Law: every well-shaped UTC RFC 3339 string is the rendering of the
/// clock reading it encodes.
pub proof fn lemma_rfc3339_parse_inverse(s: Seq<char>)
    requires
        is_rfc3339(s),
    ensures
        clock_of(s).wf(),
        spec_rfc3339(clock_of(s)) == s,
{
    let c = clock_of(s);
    lemma_char_roundtrip(s[0]);
    lemma_char_roundtrip(s[1]);
    lemma_char_roundtrip(s[2]);
    lemma_char_roundtrip(s[3]);
    lemma_char_roundtrip(s[5]);
    lemma_char_roundtrip(s[6]);
    lemma_char_roundtrip(s[8]);
    lemma_char_roundtrip(s[9]);
    lemma_char_roundtrip(s[11]);
    lemma_char_roundtrip(s[12]);
    lemma_char_roundtrip(s[14]);
    lemma_char_roundtrip(s[15]);
    lemma_char_roundtrip(s[17]);
    lemma_char_roundtrip(s[18]);
    lemma_four_digit_split(digit_val(s[0]), digit_val(s[1]), digit_val(s[2]), digit_val(s[3]));
    lemma_two_digit_split(digit_val(s[5]), digit_val(s[6]));
    lemma_two_digit_split(digit_val(s[8]), digit_val(s[9]));
    lemma_two_digit_split(digit_val(s[11]), digit_val(s[12]));
    lemma_two_digit_split(digit_val(s[14]), digit_val(s[15]));
    lemma_two_digit_split(digit_val(s[17]), digit_val(s[18]));
    assert(c.year as int == year_of(s));
    assert(c.month as int == month_of(s));
    assert(c.day as int == day_of(s));
    assert(c.hour as int == hour_of(s));
    assert(c.minute as int == minute_of(s));
    assert(c.second as int == second_of(s));
    assert(spec_rfc3339(c) =~= s);
}

/// The value of a decimal digit character, or `None` for any other
/// character.
fn char_digit(c: char) -> (r: Option<u8>)
    ensures
        r matches Some(d) ==> is_digit(c) && d < 10 && d as int == digit_val(c),
        r is None ==> !is_digit(c),
{
    match c {
        '0' => Some(0),
        '1' => Some(1),
        '2' => Some(2),
        '3' => Some(3),
        '4' => Some(4),
        '5' => Some(5),
        '6' => Some(6),
        '7' => Some(7),
        '8' => Some(8),
        '9' => Some(9),
        _ => None,
    }
}

/// Parses a twenty-character UTC RFC 3339 string `YYYY-MM-DDThh:mm:ssZ`
/// into the clock reading it encodes.  Succeeds exactly on well-shaped
/// strings, and the parsed reading renders back to the input.
pub fn parse_rfc3339(s: &str) -> (r: Option<ClockParts>)
    ensures
        r is Some <==> is_rfc3339(s@),
        r matches Some(c) ==> c.wf() && spec_rfc3339(c) == s@,
{
    let n: usize = s.unicode_len();
    if n != 20 {
        return None;
    }
    if s.get_char(4) != '-' || s.get_char(7) != '-' || s.get_char(10) != 'T' || s.get_char(13)
        != ':' || s.get_char(16) != ':' || s.get_char(19) != 'Z' {
        return None;
    }
    let y0: u8 = match char_digit(s.get_char(0)) { Some(d) => d, None => { return None } };
    let y1: u8 = match char_digit(s.get_char(1)) { Some(d) => d, None => { return None } };
    let y2: u8 = match char_digit(s.get_char(2)) { Some(d) => d, None => { return None } };
    let y3: u8 = match char_digit(s.get_char(3)) { Some(d) => d, None => { return None } };
    let mo0: u8 = match char_digit(s.get_char(5)) { Some(d) => d, None => { return None } };
    let mo1: u8 = match char_digit(s.get_char(6)) { Some(d) => d, None => { return None } };
    let d0: u8 = match char_digit(s.get_char(8)) { Some(d) => d, None => { return None } };
    let d1: u8 = match char_digit(s.get_char(9)) { Some(d) => d, None => { return None } };
    let h0: u8 = match char_digit(s.get_char(11)) { Some(d) => d, None => { return None } };
    let h1: u8 = match char_digit(s.get_char(12)) { Some(d) => d, None => { return None } };
    let mi0: u8 = match char_digit(s.get_char(14)) { Some(d) => d, None => { return None } };
    let mi1: u8 = match char_digit(s.get_char(15)) { Some(d) => d, None => { return None } };
    let s0: u8 = match char_digit(s.get_char(17)) { Some(d) => d, None => { return None } };
    let s1: u8 = match char_digit(s.get_char(18)) { Some(d) => d, None => { return None } };
    let year: u16 = (y0 as u16) * 1000 + (y1 as u16) * 100 + (y2 as u16) * 10 + (y3 as u16);
    let month: u8 = mo0 * 10 + mo1;
    let day: u8 = d0 * 10 + d1;
    let hour: u8 = h0 * 10 + h1;
    let minute: u8 = mi0 * 10 + mi1;
    let second: u8 = s0 * 10 + s1;
    if month < 1 || month > 12 {
        return None;
    }
    if day < 1 || day > 31 {
        return None;
    }
    if hour > 23 {
        return None;
    }
    if minute > 59 {
        return None;
    }
    if second > 59 {
        return None;
    }
    let c = ClockParts { year, month, day, hour, minute, second };
    proof {
        assert(is_rfc3339(s@));
        lemma_rfc3339_parse_inverse(s@);
        assert(c == clock_of(s@));
    }
    Some(c)
}

/// Renders a clock reading as the twenty-character UTC RFC 3339 string
/// `YYYY-MM-DDThh:mm:ssZ`.
pub fn format_rfc3339(c: &ClockParts) -> (s: String)
    requires
        c.wf(),
    ensures
        s@ == spec_rfc3339(*c),
{
    proof {
        reveal_strlit("-");
        reveal_strlit("T");
        reveal_strlit(":");
        reveal_strlit("Z");
        assert("-"@ =~= seq!['-']);
        assert("T"@ =~= seq!['T']);
        assert(":"@ =~= seq![':']);
        assert("Z"@ =~= seq!['Z']);
    }
    let mut s = String::new();
    append_four_digits(&mut s, c.year);
    s.append("-");
    append_two_digits(&mut s, c.month);
    s.append("-");
    append_two_digits(&mut s, c.day);
    s.append("T");
    append_two_digits(&mut s, c.hour);
    s.append(":");
    append_two_digits(&mut s, c.minute);
    s.append(":");
    append_two_digits(&mut s, c.second);
    s.append("Z");
    proof {
        assert(s@ =~= spec_rfc3339(*c));
    }
    s
}

} // verus!
