//! What the command line accepts as a station name.

use vstd::prelude::*;
use vstd::string::*;

verus! {

/// Whether `c` is white space: one of the code points that Unicode gives the
/// property White_Space.
pub open spec fn white_space(c: char) -> bool {
    let n = c as u32;
    ||| 0x09 <= n <= 0x0D
    ||| n == 0x20
    ||| n == 0x85
    ||| n == 0xA0
    ||| n == 0x1680
    ||| 0x2000 <= n <= 0x200A
    ||| n == 0x2028
    ||| n == 0x2029
    ||| n == 0x202F
    ||| n == 0x205F
    ||| n == 0x3000
}

/// Whether `c` is white space.
pub fn is_white_space(c: char) -> (b: bool)
    ensures
        b == white_space(c),
{
    let n: u32 = c as u32;
    (0x09 <= n && n <= 0x0D) || n == 0x20 || n == 0x85 || n == 0xA0 || n == 0x1680 || (0x2000 <= n
        && n <= 0x200A) || n == 0x2028 || n == 0x2029 || n == 0x202F || n == 0x205F || n == 0x3000
}

/// Whether `s` begins or ends with white space.
pub open spec fn has_outer_space(s: Seq<char>) -> bool {
    s.len() > 0 && (white_space(s.first()) || white_space(s.last()))
}

/// The message for a station name with white space around it.
pub open spec fn station_message() -> Seq<char> {
    "Station cannot have leading and trailing space"@
}

/// The verdict on a station name, given whether white space stands at
/// either end of it.
pub fn station_verdict(outer_space: bool) -> (r: Result<(), String>)
    ensures
        r is Ok <==> !outer_space,
        r matches Err(m) ==> m@ == station_message(),
{
    if outer_space {
        Err(String::from_str("Station cannot have leading and trailing space"))
    } else {
        Ok(())
    }
}

/// Accepts a station name exactly where no white space stands at its start
/// or at its end.
pub fn validate_station(station: &str) -> (r: Result<(), String>)
    ensures
        r is Ok <==> !has_outer_space(station@),
        r matches Err(m) ==> m@ == station_message(),
{
    let n = station.unicode_len();
    if n == 0 {
        station_verdict(false)
    } else {
        let first = is_white_space(station.get_char(0));
        let last = is_white_space(station.get_char(n - 1));
        station_verdict(first || last)
    }
}

} // verus!
